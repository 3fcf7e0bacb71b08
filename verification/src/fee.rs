//! The fee predictor: forecasts the next block's base fee from the current
//! block's gas usage, following the EIP-1559 update rule, and then adds a
//! bounded random perturbation.

use vstd::prelude::*;

use crate::uint256::{u256_bound, u256_checked_add, u256_checked_mul, u256_div, u256_sub, Uint256};
use rand::Rng;

verus! {

/// The gas target of a block: half its gas limit, forced to 1 when that
/// half rounds down to zero, so that the fee update never divides by zero.
pub open spec fn target_gas(gas_limit: nat) -> nat {
    if gas_limit / 2 == 0 {
        1
    } else {
        gas_limit / 2
    }
}

/// The magnitude of the fee update: an eighth of the base fee scaled by how
/// far gas use sat from the target, floor-divided at each step.
pub open spec fn fee_delta(base_fee: nat, diff: nat, target: nat) -> nat {
    base_fee * diff / target / 8
}

/// The predicted base fee of the next block before the random perturbation:
/// the base fee moved up when the block used more than its target and down
/// when it used no more than its target.
pub open spec fn structural_next_base_fee(gas_used: nat, gas_limit: nat, base_fee: nat) -> int {
    let target = target_gas(gas_limit);
    if gas_used > target {
        base_fee as int + fee_delta(base_fee, (gas_used - target) as nat, target)
    } else {
        base_fee as int - fee_delta(base_fee, (target - gas_used) as nat, target)
    }
}

/// The inputs on which every 256-bit intermediate of the update rule fits,
/// which is exactly where the chain's native arithmetic does not abort.
pub open spec fn fee_inputs_ok(gas_used: nat, gas_limit: nat, base_fee: nat) -> bool {
    let target = target_gas(gas_limit);
    &&& gas_used > target ==> base_fee * ((gas_used - target) as nat) < u256_bound()
    &&& gas_used <= target ==> base_fee * ((target - gas_used) as nat) < u256_bound()
    &&& structural_next_base_fee(gas_used, gas_limit, base_fee) + 8 < u256_bound()
}

/// The update's downward step never exceeds the base fee itself, since the
/// distance from the target is at most the target.
pub proof fn lemma_fee_delta_le_base(base_fee: nat, diff: nat, target: nat)
    requires
        diff <= target,
        target >= 1,
    ensures
        fee_delta(base_fee, diff, target) <= base_fee,
{
    vstd::arithmetic::mul::lemma_mul_inequality(diff as int, target as int, base_fee as int);
    assert(base_fee * diff == diff * base_fee) by (nonlinear_arith);
    assert(base_fee * target == target * base_fee) by (nonlinear_arith);
    vstd::arithmetic::div_mod::lemma_div_is_ordered(
        (base_fee * diff) as int,
        (base_fee * target) as int,
        target as int,
    );
    vstd::arithmetic::div_mod::lemma_div_multiples_vanish(base_fee as int, target as int);
    vstd::arithmetic::div_mod::lemma_div_nonincreasing((base_fee * diff / target) as int, 8);
}

/// The gas target is always positive, and a zero gas limit is answered with
/// a target of 1 rather than a division by zero.
pub proof fn lemma_target_positive(gas_limit: nat)
    ensures
        target_gas(gas_limit) >= 1,
        gas_limit == 0 ==> target_gas(gas_limit) == 1,
{
}

/// Monotone direction: a block over its gas target can only push the
/// predicted fee up, one at or under it can only pull the fee down.
pub proof fn lemma_fee_monotone_direction(gas_used: nat, gas_limit: nat, base_fee: nat)
    requires
        gas_limit > 0,
    ensures
        gas_used > gas_limit / 2 ==> structural_next_base_fee(gas_used, gas_limit, base_fee)
            >= base_fee,
        gas_used <= gas_limit / 2 ==> structural_next_base_fee(gas_used, gas_limit, base_fee)
            <= base_fee,
{
    let target = target_gas(gas_limit);
    if gas_used > gas_limit / 2 && gas_used <= target {
        assert(gas_limit / 2 == 0 && gas_used == 1 && target == 1);
        assert(fee_delta(base_fee, 0, 1) == 0) by {
            assert(base_fee * 0 == 0);
        }
    }
}

/// Equality case: a block that used exactly its target leaves the
/// structural prediction at the base fee itself.
pub proof fn lemma_fee_equality_case(gas_limit: nat, base_fee: nat)
    requires
        gas_limit / 2 >= 1,
    ensures
        structural_next_base_fee(gas_limit / 2, gas_limit, base_fee) == base_fee,
{
    let target = target_gas(gas_limit);
    assert(target == gas_limit / 2);
    assert(fee_delta(base_fee, 0, target) == 0) by {
        assert(base_fee * 0 == 0);
    }
}

/// Relies on `rand::Rng::gen_range` over `0..9`: a uniformly random integer
/// at least 0 and strictly below 9. Nothing is assumed about which one.
#[verifier::external_body]
fn random_fee_seed() -> (r: u64)
    ensures
        r < 9,
{
    rand::thread_rng().gen_range(0..9u64)
}

/// Calculates the next block base fee given the previous block's gas usage
/// and limits, per the EIP-1559 update rule, plus a random perturbation of
/// at most 8. The result is pinned to within that perturbation of the
/// structural prediction.
pub fn calculate_next_block_base_fee(gas_used: Uint256, gas_limit: Uint256, base_fee_per_gas: Uint256) -> (r:
    Uint256)
    requires
        fee_inputs_ok(gas_used.value(), gas_limit.value(), base_fee_per_gas.value()),
    ensures
        structural_next_base_fee(gas_used.value(), gas_limit.value(), base_fee_per_gas.value())
            <= r.value(),
        r.value() <= structural_next_base_fee(
            gas_used.value(),
            gas_limit.value(),
            base_fee_per_gas.value(),
        ) + 8,
{
    let two = Uint256::from_u64(2);
    let eight = Uint256::from_u64(8);
    let half = u256_div(&gas_limit, &two);
    let target = if half.is_zero() {
        Uint256::from_u64(1)
    } else {
        half
    };
    assert(target.value() == target_gas(gas_limit.value()));
    let new_base_fee = if target.lt(&gas_used) {
        let diff = u256_sub(&gas_used, &target);
        let scaled = u256_checked_mul(&base_fee_per_gas, &diff).unwrap();
        let delta = u256_div(&u256_div(&scaled, &target), &eight);
        u256_checked_add(&base_fee_per_gas, &delta).unwrap()
    } else {
        let diff = u256_sub(&target, &gas_used);
        let scaled = u256_checked_mul(&base_fee_per_gas, &diff).unwrap();
        let delta = u256_div(&u256_div(&scaled, &target), &eight);
        proof {
            lemma_fee_delta_le_base(
                base_fee_per_gas.value(),
                diff.value(),
                target.value(),
            );
        }
        u256_sub(&base_fee_per_gas, &delta)
    };
    let seed = random_fee_seed();
    u256_checked_add(&new_base_fee, &Uint256::from_u64(seed)).unwrap()
}

/// Decides, without ever overflowing itself, whether the update rule's
/// 256-bit intermediates fit for these metrics: exactly the inputs
/// `calculate_next_block_base_fee` asks for. Callers outside any proof can
/// test this before predicting.
pub fn fee_inputs_check(gas_used: Uint256, gas_limit: Uint256, base_fee_per_gas: Uint256) -> (ok:
    bool)
    ensures
        ok == fee_inputs_ok(gas_used.value(), gas_limit.value(), base_fee_per_gas.value()),
{
    let two = Uint256::from_u64(2);
    let eight = Uint256::from_u64(8);
    let half = u256_div(&gas_limit, &two);
    let target = if half.is_zero() {
        Uint256::from_u64(1)
    } else {
        half
    };
    assert(target.value() == target_gas(gas_limit.value()));
    if target.lt(&gas_used) {
        let diff = u256_sub(&gas_used, &target);
        match u256_checked_mul(&base_fee_per_gas, &diff) {
            None => false,
            Some(scaled) => {
                let delta = u256_div(&u256_div(&scaled, &target), &eight);
                match u256_checked_add(&base_fee_per_gas, &delta) {
                    None => false,
                    Some(structural) => u256_checked_add(&structural, &eight).is_some(),
                }
            },
        }
    } else {
        let diff = u256_sub(&target, &gas_used);
        match u256_checked_mul(&base_fee_per_gas, &diff) {
            None => false,
            Some(scaled) => {
                let delta = u256_div(&u256_div(&scaled, &target), &eight);
                proof {
                    lemma_fee_delta_le_base(
                        base_fee_per_gas.value(),
                        diff.value(),
                        target.value(),
                    );
                }
                let structural = u256_sub(&base_fee_per_gas, &delta);
                u256_checked_add(&structural, &eight).is_some()
            },
        }
    }
}

} // verus!
