//! A 256-bit unsigned integer held as four 64-bit words, least significant
//! first, with checked arithmetic.

use crate::bytes::{
    lemma_u64_from_le_bound, lemma_u64_from_le_zeros, lemma_u64_le_bytes_round_trip,
    lemma_u64_le_round_trip, push_u64, read_u64, u64_from_le, u64_to_le,
};
use vstd::prelude::*;

verus! {

/// 2^256, the first value that no `U256` holds.
pub open spec fn u256_limit() -> nat {
    0x1_0000_0000_0000_0000_0000_0000_0000_0000_0000_0000_0000_0000_0000_0000_0000_0000nat
}

/// The number that four words stand for, least significant word first.
pub open spec fn words_value(w0: u64, w1: u64, w2: u64, w3: u64) -> nat {
    (w0 as nat) + 0x1_0000_0000_0000_0000nat * ((w1 as nat) + 0x1_0000_0000_0000_0000nat * ((
    w2 as nat) + 0x1_0000_0000_0000_0000nat * (w3 as nat)))
}

/// A 256-bit unsigned integer.
#[derive(Clone, Copy, Debug, PartialEq, Eq, Structural)]
pub struct U256 {
    pub w0: u64,
    pub w1: u64,
    pub w2: u64,
    pub w3: u64,
}

impl View for U256 {
    type V = nat;

    open spec fn view(&self) -> nat {
        words_value(self.w0, self.w1, self.w2, self.w3)
    }
}

/// The word of `value` at place `index`, counted from the least significant.
pub open spec fn word_of(value: nat, index: nat) -> u64 {
    if index == 0 {
        (value % 0x1_0000_0000_0000_0000nat) as u64
    } else if index == 1 {
        (value / 0x1_0000_0000_0000_0000nat % 0x1_0000_0000_0000_0000nat) as u64
    } else if index == 2 {
        (value / 0x1_0000_0000_0000_0000nat / 0x1_0000_0000_0000_0000nat
            % 0x1_0000_0000_0000_0000nat) as u64
    } else {
        (value / 0x1_0000_0000_0000_0000nat / 0x1_0000_0000_0000_0000nat
            / 0x1_0000_0000_0000_0000nat % 0x1_0000_0000_0000_0000nat) as u64
    }
}

/// The number that 32 bytes hold, least significant byte first.
pub open spec fn u256_from_le(bytes: Seq<u8>) -> nat
    recommends
        bytes.len() == 32,
{
    words_value(
        u64_from_le(bytes.subrange(0, 8)) as u64,
        u64_from_le(bytes.subrange(8, 16)) as u64,
        u64_from_le(bytes.subrange(16, 24)) as u64,
        u64_from_le(bytes.subrange(24, 32)) as u64,
    )
}

/// The 32 bytes that hold `value`, least significant byte first.
pub open spec fn u256_to_le(value: nat) -> Seq<u8>
    recommends
        value < u256_limit(),
{
    u64_to_le(word_of(value, 0)) + u64_to_le(word_of(value, 1)) + u64_to_le(word_of(value, 2))
        + u64_to_le(word_of(value, 3))
}

/// Four words stand for a number below 2^256, of which they are the words.
pub proof fn lemma_words(w0: u64, w1: u64, w2: u64, w3: u64)
    ensures
        words_value(w0, w1, w2, w3) < u256_limit(),
        word_of(words_value(w0, w1, w2, w3), 0) == w0,
        word_of(words_value(w0, w1, w2, w3), 1) == w1,
        word_of(words_value(w0, w1, w2, w3), 2) == w2,
        word_of(words_value(w0, w1, w2, w3), 3) == w3,
{
    let b: nat = 0x1_0000_0000_0000_0000nat;
    let q2: nat = (w2 as nat) + b * (w3 as nat);
    let q1: nat = (w1 as nat) + b * q2;
    let q0: nat = (w0 as nat) + b * q1;
    assert(q0 == words_value(w0, w1, w2, w3));
    assert(q2 / b == w3 as nat && q2 % b == w2 as nat);
    assert(q1 / b == q2 && q1 % b == w1 as nat);
    assert(q0 / b == q1 && q0 % b == w0 as nat);
}

/// A number below 2^256 is what its four words stand for.
pub proof fn lemma_words_of_value(value: nat)
    requires
        value < u256_limit(),
    ensures
        words_value(word_of(value, 0), word_of(value, 1), word_of(value, 2), word_of(value, 3))
            == value,
{
    let b: nat = 0x1_0000_0000_0000_0000nat;
    let q1: nat = value / b;
    let q2: nat = q1 / b;
    let q3: nat = q2 / b;
    assert(value == value % b + b * q1);
    assert(q1 == q1 % b + b * q2);
    assert(q2 == q2 % b + b * q3);
    assert(q1 < 0x1_0000_0000_0000_0000_0000_0000_0000_0000_0000_0000_0000_0000nat);
    assert(q2 < 0x1_0000_0000_0000_0000_0000_0000_0000_0000nat);
    assert(q3 < b);
    assert(q3 % b == q3);
}

/// 32 zero bytes hold zero.
pub proof fn lemma_u256_from_le_zeros(bytes: Seq<u8>)
    requires
        bytes.len() == 32,
        forall|i: int| 0 <= i < 32 ==> bytes[i] == 0,
    ensures
        u256_from_le(bytes) == 0,
{
    lemma_u64_from_le_zeros(bytes.subrange(0, 8));
    lemma_u64_from_le_zeros(bytes.subrange(8, 16));
    lemma_u64_from_le_zeros(bytes.subrange(16, 24));
    lemma_u64_from_le_zeros(bytes.subrange(24, 32));
}

/// Writing a number below 2^256 and reading it back gives the number.
pub proof fn lemma_u256_le_round_trip(value: nat)
    requires
        value < u256_limit(),
    ensures
        u256_to_le(value).len() == 32,
        u256_from_le(u256_to_le(value)) == value,
{
    let bytes = u256_to_le(value);
    lemma_u64_le_round_trip(word_of(value, 0));
    lemma_u64_le_round_trip(word_of(value, 1));
    lemma_u64_le_round_trip(word_of(value, 2));
    lemma_u64_le_round_trip(word_of(value, 3));
    assert(bytes.subrange(0, 8) =~= u64_to_le(word_of(value, 0)));
    assert(bytes.subrange(8, 16) =~= u64_to_le(word_of(value, 1)));
    assert(bytes.subrange(16, 24) =~= u64_to_le(word_of(value, 2)));
    assert(bytes.subrange(24, 32) =~= u64_to_le(word_of(value, 3)));
    lemma_words_of_value(value);
}

/// Reading 32 bytes and writing the number back gives the bytes.
pub proof fn lemma_u256_le_bytes_round_trip(bytes: Seq<u8>)
    requires
        bytes.len() == 32,
    ensures
        u256_from_le(bytes) < u256_limit(),
        u256_to_le(u256_from_le(bytes)) == bytes,
{
    let w0 = u64_from_le(bytes.subrange(0, 8)) as u64;
    let w1 = u64_from_le(bytes.subrange(8, 16)) as u64;
    let w2 = u64_from_le(bytes.subrange(16, 24)) as u64;
    let w3 = u64_from_le(bytes.subrange(24, 32)) as u64;
    lemma_words(w0, w1, w2, w3);
    lemma_u64_from_le_bound(bytes.subrange(0, 8));
    lemma_u64_from_le_bound(bytes.subrange(8, 16));
    lemma_u64_from_le_bound(bytes.subrange(16, 24));
    lemma_u64_from_le_bound(bytes.subrange(24, 32));
    lemma_u64_le_bytes_round_trip(bytes.subrange(0, 8));
    lemma_u64_le_bytes_round_trip(bytes.subrange(8, 16));
    lemma_u64_le_bytes_round_trip(bytes.subrange(16, 24));
    lemma_u64_le_bytes_round_trip(bytes.subrange(24, 32));
    assert(u256_to_le(u256_from_le(bytes)) =~= bytes);
}

/// The view of an optional number.
pub open spec fn option_value(x: Option<U256>) -> Option<nat> {
    match x {
        Some(v) => Some(v@),
        None => None,
    }
}

/// `a + b` where it is below 2^256.
pub open spec fn checked_add_spec(a: nat, b: nat) -> Option<nat> {
    if a + b < u256_limit() {
        Some(a + b)
    } else {
        None
    }
}

/// `a - b` where `b` is at most `a`.
pub open spec fn checked_sub_spec(a: nat, b: nat) -> Option<nat> {
    if b <= a {
        Some((a - b) as nat)
    } else {
        None
    }
}

/// `a * b` where it is below 2^256.
pub open spec fn checked_mul_spec(a: nat, b: nat) -> Option<nat> {
    if a * b < u256_limit() {
        Some(a * b)
    } else {
        None
    }
}

/// The quotient of `a` by `b`, rounded down, where `b` is not zero.
pub open spec fn checked_div_spec(a: nat, b: nat) -> Option<nat> {
    if b != 0 {
        Some(a / b)
    } else {
        None
    }
}

/// Calls `checked_mul` of `spl_math::uint::U256`: the product where it fits
/// in 256 bits, `None` where it does not.
#[verifier::external_body]
fn words_checked_mul(a: &U256, b: &U256) -> (product: Option<U256>)
    ensures
        option_value(product) == checked_mul_spec(a@, b@),
{
    let x = spl_math::uint::U256([a.w0, a.w1, a.w2, a.w3]);
    let y = spl_math::uint::U256([b.w0, b.w1, b.w2, b.w3]);
    match x.checked_mul(y) {
        Some(p) => Some(U256 { w0: p.0[0], w1: p.0[1], w2: p.0[2], w3: p.0[3] }),
        None => None,
    }
}

/// Calls `checked_div` of `spl_math::uint::U256`: the quotient rounded down,
/// `None` where the divisor is zero.
#[verifier::external_body]
fn words_checked_div(a: &U256, b: &U256) -> (quotient: Option<U256>)
    ensures
        option_value(quotient) == checked_div_spec(a@, b@),
{
    let x = spl_math::uint::U256([a.w0, a.w1, a.w2, a.w3]);
    let y = spl_math::uint::U256([b.w0, b.w1, b.w2, b.w3]);
    match x.checked_div(y) {
        Some(q) => Some(U256 { w0: q.0[0], w1: q.0[1], w2: q.0[2], w3: q.0[3] }),
        None => None,
    }
}

impl Default for U256 {
    /// Zero.
    fn default() -> (z: U256)
        ensures
            z@ == 0,
    {
        U256 { w0: 0, w1: 0, w2: 0, w3: 0 }
    }
}

impl U256 {
    /// Zero.
    pub fn zero() -> (z: U256)
        ensures
            z@ == 0,
    {
        U256 { w0: 0, w1: 0, w2: 0, w3: 0 }
    }

    /// The number `n`.
    pub fn from_u64(n: u64) -> (x: U256)
        ensures
            x@ == n,
    {
        U256 { w0: n, w1: 0, w2: 0, w3: 0 }
    }

    /// The number `n`.
    pub fn from_u128(n: u128) -> (x: U256)
        ensures
            x@ == n,
    {
        U256 {
            w0: (n % 0x1_0000_0000_0000_0000u128) as u64,
            w1: (n / 0x1_0000_0000_0000_0000u128) as u64,
            w2: 0,
            w3: 0,
        }
    }

    /// The number in the 32 bytes of `src` that start at `at`, least
    /// significant byte first.
    pub fn read_le(src: &[u8], at: usize) -> (x: U256)
        requires
            at + 32 <= src@.len(),
        ensures
            x@ == u256_from_le(src@.subrange(at as int, at + 32)),
    {
        let len: usize = src.len();
        let ghost part = src@.subrange(at as int, at + 32);
        assert(part.subrange(0, 8) =~= src@.subrange(at as int, at + 8));
        assert(part.subrange(8, 16) =~= src@.subrange(at + 8, at + 16));
        assert(part.subrange(16, 24) =~= src@.subrange(at + 16, at + 24));
        assert(part.subrange(24, 32) =~= src@.subrange(at + 24, at + 32));
        U256 {
            w0: read_u64(src, at),
            w1: read_u64(src, at + 8),
            w2: read_u64(src, at + 16),
            w3: read_u64(src, at + 24),
        }
    }

    /// Appends the 32 bytes of the number to `buf`, least significant byte
    /// first.
    pub fn push_le(&self, buf: &mut Vec<u8>)
        ensures
            final(buf)@ == old(buf)@ + u256_to_le(self@),
    {
        proof {
            lemma_words(self.w0, self.w1, self.w2, self.w3);
        }
        push_u64(buf, self.w0);
        push_u64(buf, self.w1);
        push_u64(buf, self.w2);
        push_u64(buf, self.w3);
        assert(buf@ =~= old(buf)@ + u256_to_le(self@));
    }

    /// The number as a `u64`, where it fits.
    pub fn to_u64(&self) -> (n: Option<u64>)
        ensures
            self@ <= u64::MAX ==> n == Some(self@ as u64),
            self@ > u64::MAX ==> n is None,
    {
        if self.w1 == 0 && self.w2 == 0 && self.w3 == 0 {
            Some(self.w0)
        } else {
            None
        }
    }

    /// The sum, or `None` where it does not fit in 256 bits.
    pub fn checked_add(&self, other: &U256) -> (sum: Option<U256>)
        ensures
            option_value(sum) == checked_add_spec(self@, other@),
    {
        let s0: u128 = self.w0 as u128 + other.w0 as u128;
        let s1: u128 = self.w1 as u128 + other.w1 as u128 + s0 / 0x1_0000_0000_0000_0000u128;
        let s2: u128 = self.w2 as u128 + other.w2 as u128 + s1 / 0x1_0000_0000_0000_0000u128;
        let s3: u128 = self.w3 as u128 + other.w3 as u128 + s2 / 0x1_0000_0000_0000_0000u128;
        if s3 / 0x1_0000_0000_0000_0000u128 != 0 {
            None
        } else {
            Some(
                U256 {
                    w0: (s0 % 0x1_0000_0000_0000_0000u128) as u64,
                    w1: (s1 % 0x1_0000_0000_0000_0000u128) as u64,
                    w2: (s2 % 0x1_0000_0000_0000_0000u128) as u64,
                    w3: (s3 % 0x1_0000_0000_0000_0000u128) as u64,
                },
            )
        }
    }

    /// The difference, or `None` where `other` is the larger.
    pub fn checked_sub(&self, other: &U256) -> (difference: Option<U256>)
        ensures
            option_value(difference) == checked_sub_spec(self@, other@),
    {
        let b: u128 = 0x1_0000_0000_0000_0000u128;
        let d0: u128 = b + self.w0 as u128 - other.w0 as u128;
        let d1: u128 = b + self.w1 as u128 - other.w1 as u128 - (1 - d0 / b);
        let d2: u128 = b + self.w2 as u128 - other.w2 as u128 - (1 - d1 / b);
        let d3: u128 = b + self.w3 as u128 - other.w3 as u128 - (1 - d2 / b);
        if d3 / b == 0 {
            None
        } else {
            Some(
                U256 {
                    w0: (d0 % b) as u64,
                    w1: (d1 % b) as u64,
                    w2: (d2 % b) as u64,
                    w3: (d3 % b) as u64,
                },
            )
        }
    }

    /// The product, or `None` where it does not fit in 256 bits.
    pub fn checked_mul(&self, other: &U256) -> (product: Option<U256>)
        ensures
            option_value(product) == checked_mul_spec(self@, other@),
    {
        words_checked_mul(self, other)
    }

    /// The quotient rounded down, or `None` where `other` is zero.
    pub fn checked_div(&self, other: &U256) -> (quotient: Option<U256>)
        ensures
            option_value(quotient) == checked_div_spec(self@, other@),
    {
        words_checked_div(self, other)
    }
}

} // verus!
