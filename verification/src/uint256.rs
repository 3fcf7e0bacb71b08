//! A 256-bit unsigned integer held as four 64-bit limbs, least significant
//! first, mirroring the chain's native amount width. The arithmetic that the
//! fee rule needs is done by `ethers_core::types::U256` behind contracts over
//! the mathematical value of the limbs.

use vstd::prelude::*;

verus! {

/// One more than the largest value a 256-bit unsigned integer can hold.
pub open spec fn u256_bound() -> nat {
    0x1_0000_0000_0000_0000_0000_0000_0000_0000_0000_0000_0000_0000_0000_0000_0000_0000nat
}

/// A 256-bit unsigned amount: `w0` is the least significant limb.
#[derive(Clone, Copy, PartialEq, Eq, Structural, Debug)]
pub struct Uint256 {
    pub w0: u64,
    pub w1: u64,
    pub w2: u64,
    pub w3: u64,
}

impl Uint256 {
    /// The mathematical value of the four limbs.
    pub open spec fn value(self) -> nat {
        (self.w0 as nat) + (self.w1 as nat) * 0x1_0000_0000_0000_0000nat
            + (self.w2 as nat) * 0x1_0000_0000_0000_0000_0000_0000_0000_0000nat
            + (self.w3 as nat)
                * 0x1_0000_0000_0000_0000_0000_0000_0000_0000_0000_0000_0000_0000nat
    }

    pub fn from_u64(x: u64) -> (r: Uint256)
        ensures
            r.value() == x,
    {
        Uint256 { w0: x, w1: 0, w2: 0, w3: 0 }
    }

    pub fn is_zero(&self) -> (r: bool)
        ensures
            r == (self.value() == 0),
    {
        self.w0 == 0 && self.w1 == 0 && self.w2 == 0 && self.w3 == 0
    }

    /// Strict comparison by limbs, most significant first.
    pub fn lt(&self, other: &Uint256) -> (r: bool)
        ensures
            r == (self.value() < other.value()),
    {
        if self.w3 != other.w3 {
            self.w3 < other.w3
        } else if self.w2 != other.w2 {
            self.w2 < other.w2
        } else if self.w1 != other.w1 {
            self.w1 < other.w1
        } else {
            self.w0 < other.w0
        }
    }

    /// The value as a `u64` when it fits, for callers that hand amounts on.
    pub fn try_as_u64(&self) -> (r: Option<u64>)
        ensures
            r matches Some(x) ==> x == self.value(),
            r is None <==> self.value() >= 0x1_0000_0000_0000_0000nat,
    {
        if self.w1 == 0 && self.w2 == 0 && self.w3 == 0 {
            Some(self.w0)
        } else {
            None
        }
    }
}

/// Relies on `ethers_core::types::U256`: construction from four
/// little-endian 64-bit limbs and `checked_add`, which returns exactly the
/// sum of the two values when it fits in 256 bits, and nothing otherwise.
#[verifier::external_body]
pub(crate) fn u256_checked_add(a: &Uint256, b: &Uint256) -> (r: Option<Uint256>)
    ensures
        r is Some <==> a.value() + b.value() < u256_bound(),
        r matches Some(v) ==> v.value() == a.value() + b.value(),
{
    let x = ethers_core::types::U256([a.w0, a.w1, a.w2, a.w3]);
    let y = ethers_core::types::U256([b.w0, b.w1, b.w2, b.w3]);
    let z = x.checked_add(y)?;
    Some(Uint256 { w0: z.0[0], w1: z.0[1], w2: z.0[2], w3: z.0[3] })
}

/// Relies on `ethers_core::types::U256::checked_sub`, which returns exactly
/// the difference whenever the subtrahend is no larger than the minuend.
#[verifier::external_body]
pub(crate) fn u256_sub(a: &Uint256, b: &Uint256) -> (r: Uint256)
    requires
        b.value() <= a.value(),
    ensures
        r.value() == a.value() - b.value(),
{
    let x = ethers_core::types::U256([a.w0, a.w1, a.w2, a.w3]);
    let y = ethers_core::types::U256([b.w0, b.w1, b.w2, b.w3]);
    let z = x.checked_sub(y).unwrap();
    Uint256 { w0: z.0[0], w1: z.0[1], w2: z.0[2], w3: z.0[3] }
}

/// Relies on `ethers_core::types::U256::checked_mul`, which returns exactly
/// the product when it fits in 256 bits, and nothing otherwise.
#[verifier::external_body]
pub(crate) fn u256_checked_mul(a: &Uint256, b: &Uint256) -> (r: Option<Uint256>)
    ensures
        r is Some <==> a.value() * b.value() < u256_bound(),
        r matches Some(v) ==> v.value() == a.value() * b.value(),
{
    let x = ethers_core::types::U256([a.w0, a.w1, a.w2, a.w3]);
    let y = ethers_core::types::U256([b.w0, b.w1, b.w2, b.w3]);
    let z = x.checked_mul(y)?;
    Some(Uint256 { w0: z.0[0], w1: z.0[1], w2: z.0[2], w3: z.0[3] })
}

/// Relies on `ethers_core::types::U256::checked_div`, which floor-divides
/// and is defined exactly when the divisor is not zero.
#[verifier::external_body]
pub(crate) fn u256_div(a: &Uint256, b: &Uint256) -> (r: Uint256)
    requires
        b.value() != 0,
    ensures
        r.value() == a.value() / b.value(),
{
    let x = ethers_core::types::U256([a.w0, a.w1, a.w2, a.w3]);
    let y = ethers_core::types::U256([b.w0, b.w1, b.w2, b.w3]);
    let z = x.checked_div(y).unwrap();
    Uint256 { w0: z.0[0], w1: z.0[1], w2: z.0[2], w3: z.0[3] }
}

} // verus!
