use chain_events::fee::calculate_next_block_base_fee;
use chain_events::uint256::Uint256;

fn u(x: u64) -> Uint256 {
    Uint256::from_u64(x)
}

#[test]
fn example_vector() {
    // target = 30_000_000 / 2 = 15_000_000; gas used sits 5_000_000 above it.
    // delta = (100e9 * 5_000_000 / 15_000_000) / 8 = 4_166_666_666, so the
    // structural next fee is 104_166_666_666, plus a perturbation in [0, 8].
    let r = calculate_next_block_base_fee(u(20_000_000), u(30_000_000), u(100_000_000_000));
    let v = r.try_as_u64().unwrap();
    assert!(104_166_666_666 <= v);
    assert!(v <= 104_166_666_674);
}

#[test]
fn zero_gas_limit_is_guarded() {
    // A zero gas limit forces the target to 1 instead of dividing by zero:
    // delta = (80 * (10 - 1) / 1) / 8 = 90, structural next fee 170.
    let r = calculate_next_block_base_fee(u(10), u(0), u(80));
    let v = r.try_as_u64().unwrap();
    assert!(170 <= v);
    assert!(v <= 178);
}

#[test]
fn equality_case_keeps_base_fee() {
    // Gas used exactly at target: structural delta is zero, only the
    // perturbation remains.
    let r = calculate_next_block_base_fee(u(15_000_000), u(30_000_000), u(100_000_000_000));
    let v = r.try_as_u64().unwrap();
    assert!(100_000_000_000 <= v);
    assert!(v <= 100_000_000_008);
}

#[test]
fn full_block_raises_fee() {
    // A full block: delta = (1000 * 15_000_000 / 15_000_000) / 8 = 125.
    let r = calculate_next_block_base_fee(u(30_000_000), u(30_000_000), u(1000));
    let v = r.try_as_u64().unwrap();
    assert!(1125 <= v);
    assert!(v <= 1133);
    assert!(v >= 1000);
}

#[test]
fn empty_block_lowers_fee() {
    // An empty block: delta = (1000 * 15_000_000 / 15_000_000) / 8 = 125.
    let r = calculate_next_block_base_fee(u(0), u(30_000_000), u(1000));
    let v = r.try_as_u64().unwrap();
    assert!(875 <= v);
    assert!(v <= 883);
    assert!(v <= 1000);
}

#[test]
fn perturbation_stays_within_bound() {
    // With zero structural delta the whole spread comes from the random
    // perturbation, which must stay in [0, 8] on every draw.
    for _ in 0..64 {
        let r = calculate_next_block_base_fee(u(500), u(2000), u(4_000_000));
        let v = r.try_as_u64().unwrap();
        // target = 1000, used = 500: delta = (4e6 * 500 / 1000) / 8 = 250_000.
        assert!(3_750_000 <= v);
        assert!(v <= 3_750_008);
    }
}

#[test]
fn wide_base_fee_crosses_limb_boundary() {
    // A base fee of 2^64 exercises the 256-bit arithmetic above the first
    // limb: at the gas target the result is 2^64 plus the perturbation.
    let base = Uint256 { w0: 0, w1: 1, w2: 0, w3: 0 };
    let r = calculate_next_block_base_fee(u(1_000), u(2_000), base);
    assert!(!r.lt(&base));
    let upper = Uint256 { w0: 9, w1: 1, w2: 0, w3: 0 };
    assert!(r.lt(&upper));
    assert!(r.try_as_u64().is_none());
}

#[test]
fn u64_roundtrip_and_order() {
    assert_eq!(u(42).try_as_u64(), Some(42));
    assert!(u(41).lt(&u(42)));
    assert!(!u(42).lt(&u(42)));
    assert!(!u(43).lt(&u(42)));
    let wide = Uint256 { w0: 5, w1: 0, w2: 1, w3: 0 };
    assert!(u(u64::MAX).lt(&wide));
    assert_eq!(wide.try_as_u64(), None);
    assert!(u(0).is_zero());
    assert!(!u(1).is_zero());
}
