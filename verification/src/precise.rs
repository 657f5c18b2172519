//! Numbers in fixed precision: a `U256` that counts units of 10^-12. Square
//! roots and powers are those of `spl_math`'s `PreciseNumber`.

use crate::uint::{checked_add_spec, checked_sub_spec, option_value, U256};
use vstd::prelude::*;

verus! {

/// The number one in fixed precision: 10^12.
pub const ONE: u128 = 1_000_000_000_000;

/// The square root in fixed precision of the number whose value is `value`,
/// as `PreciseNumber::sqrt` of `spl_math` approximates it; `None` where it
/// gives none.
pub uninterp spec fn precise_sqrt(value: nat) -> Option<nat>;

/// The power `exponent` in fixed precision of the number whose value is
/// `value`, as `PreciseNumber::checked_pow` of `spl_math` computes it; `None`
/// where it gives none.
pub uninterp spec fn precise_pow(value: nat, exponent: nat) -> Option<nat>;

/// Calls `PreciseNumber::sqrt` of `spl_math` on the number whose value is
/// `value`. The result depends on `value` alone and is named `precise_sqrt`.
#[verifier::external_body]
fn precise_number_sqrt(value: &U256) -> (root: Option<U256>)
    ensures
        option_value(root) == precise_sqrt(value@),
{
    let number = spl_math::precise_number::PreciseNumber {
        value: spl_math::uint::U256([value.w0, value.w1, value.w2, value.w3]),
    };
    match number.sqrt() {
        Some(r) => {
            let w = r.value.0;
            Some(U256 { w0: w[0], w1: w[1], w2: w[2], w3: w[3] })
        },
        None => None,
    }
}

/// Calls `PreciseNumber::checked_pow` of `spl_math` on the number whose value
/// is `value`. The result depends on `value` and `exponent` alone and is
/// named `precise_pow`.
#[verifier::external_body]
fn precise_number_checked_pow(value: &U256, exponent: u128) -> (power: Option<U256>)
    ensures
        option_value(power) == precise_pow(value@, exponent as nat),
{
    let number = spl_math::precise_number::PreciseNumber {
        value: spl_math::uint::U256([value.w0, value.w1, value.w2, value.w3]),
    };
    match number.checked_pow(exponent) {
        Some(p) => {
            let w = p.value.0;
            Some(U256 { w0: w[0], w1: w[1], w2: w[2], w3: w[3] })
        },
        None => None,
    }
}

/// A number in fixed precision: `value` counts units of 10^-12.
#[derive(Clone, Copy, Debug, PartialEq, Eq, Structural)]
pub struct PreciseNumber {
    pub value: U256,
}

impl View for PreciseNumber {
    type V = nat;

    open spec fn view(&self) -> nat {
        self.value@
    }
}

/// The view of an optional number in fixed precision.
pub open spec fn option_precise(x: Option<PreciseNumber>) -> Option<nat> {
    match x {
        Some(v) => Some(v@),
        None => None,
    }
}

/// The value in fixed precision of the whole number `n`.
pub open spec fn scaled(n: nat) -> nat {
    n * 1_000_000_000_000
}

impl PreciseNumber {
    /// The whole number `n` in fixed precision.
    pub fn from_u64(n: u64) -> (number: PreciseNumber)
        ensures
            number@ == scaled(n as nat),
    {
        let wide: u128 = n as u128 * ONE;
        PreciseNumber { value: U256::from_u128(wide) }
    }

    /// The square root.
    pub fn sqrt(&self) -> (root: Option<PreciseNumber>)
        ensures
            option_precise(root) == precise_sqrt(self@),
    {
        match precise_number_sqrt(&self.value) {
            Some(value) => Some(PreciseNumber { value }),
            None => None,
        }
    }

    /// The power `exponent`.
    pub fn checked_pow(&self, exponent: u128) -> (power: Option<PreciseNumber>)
        ensures
            option_precise(power) == precise_pow(self@, exponent as nat),
    {
        match precise_number_checked_pow(&self.value, exponent) {
            Some(value) => Some(PreciseNumber { value }),
            None => None,
        }
    }

    /// The sum, or `None` where it does not fit in 256 bits.
    pub fn checked_add(&self, other: &PreciseNumber) -> (sum: Option<PreciseNumber>)
        ensures
            option_precise(sum) == checked_add_spec(self@, other@),
    {
        match self.value.checked_add(&other.value) {
            Some(value) => Some(PreciseNumber { value }),
            None => None,
        }
    }

    /// The difference, or `None` where `other` is the larger.
    pub fn checked_sub(&self, other: &PreciseNumber) -> (difference: Option<PreciseNumber>)
        ensures
            option_precise(difference) == checked_sub_spec(self@, other@),
    {
        match self.value.checked_sub(&other.value) {
            Some(value) => Some(PreciseNumber { value }),
            None => None,
        }
    }
}

} // verus!
