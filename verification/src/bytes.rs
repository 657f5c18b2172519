//! Little-endian integers in byte strings, as the records and the
//! instructions hold them.

use vstd::prelude::*;

verus! {

/// The number that eight bytes hold, least significant byte first.
#[verifier::opaque]
pub open spec fn u64_from_le(bytes: Seq<u8>) -> nat
    recommends
        bytes.len() == 8,
{
    (bytes[0] as nat) + 256 * ((bytes[1] as nat) + 256 * ((bytes[2] as nat) + 256 * ((
    bytes[3] as nat) + 256 * ((bytes[4] as nat) + 256 * ((bytes[5] as nat) + 256 * ((
    bytes[6] as nat) + 256 * (bytes[7] as nat)))))))
}

/// The eight bytes that hold `value`, least significant byte first.
#[verifier::opaque]
pub open spec fn u64_to_le(value: u64) -> Seq<u8> {
    seq![
        (value % 256) as u8,
        (value / 256 % 256) as u8,
        (value / 256 / 256 % 256) as u8,
        (value / 256 / 256 / 256 % 256) as u8,
        (value / 256 / 256 / 256 / 256 % 256) as u8,
        (value / 256 / 256 / 256 / 256 / 256 % 256) as u8,
        (value / 256 / 256 / 256 / 256 / 256 / 256 % 256) as u8,
        (value / 256 / 256 / 256 / 256 / 256 / 256 / 256 % 256) as u8,
    ]
}

/// Eight bytes hold a number below 2^64.
pub proof fn lemma_u64_from_le_bound(bytes: Seq<u8>)
    ensures
        u64_from_le(bytes) <= u64::MAX,
{
    reveal(u64_from_le);
}

/// Eight zero bytes hold zero.
pub proof fn lemma_u64_from_le_zeros(bytes: Seq<u8>)
    requires
        bytes.len() == 8,
        forall|i: int| 0 <= i < 8 ==> bytes[i] == 0,
    ensures
        u64_from_le(bytes) == 0,
{
    reveal(u64_from_le);
}

/// Writing a number and reading it back gives the number.
pub proof fn lemma_u64_le_round_trip(value: u64)
    ensures
        u64_to_le(value).len() == 8,
        u64_from_le(u64_to_le(value)) == value,
{
    reveal(u64_from_le);
    reveal(u64_to_le);
    let v1: u64 = value / 256;
    let v2: u64 = v1 / 256;
    let v3: u64 = v2 / 256;
    let v4: u64 = v3 / 256;
    let v5: u64 = v4 / 256;
    let v6: u64 = v5 / 256;
    let v7: u64 = v6 / 256;
    assert(v7 < 256);
    let bytes = u64_to_le(value);
    assert(bytes[0] == value % 256);
    assert(bytes[1] == v1 % 256);
    assert(bytes[2] == v2 % 256);
    assert(bytes[3] == v3 % 256);
    assert(bytes[4] == v4 % 256);
    assert(bytes[5] == v5 % 256);
    assert(bytes[6] == v6 % 256);
    assert(bytes[7] == v7);
}

/// Reading eight bytes and writing the number back gives the bytes.
pub proof fn lemma_u64_le_bytes_round_trip(bytes: Seq<u8>)
    requires
        bytes.len() == 8,
    ensures
        u64_to_le(u64_from_le(bytes) as u64) == bytes,
{
    reveal(u64_from_le);
    reveal(u64_to_le);
    let v7: nat = bytes[7] as nat;
    let v6: nat = bytes[6] as nat + 256 * v7;
    let v5: nat = bytes[5] as nat + 256 * v6;
    let v4: nat = bytes[4] as nat + 256 * v5;
    let v3: nat = bytes[3] as nat + 256 * v4;
    let v2: nat = bytes[2] as nat + 256 * v3;
    let v1: nat = bytes[1] as nat + 256 * v2;
    let v0: nat = bytes[0] as nat + 256 * v1;
    assert(v0 == u64_from_le(bytes));
    assert(v6 / 256 == v7 && v6 % 256 == bytes[6]);
    assert(v5 / 256 == v6 && v5 % 256 == bytes[5]);
    assert(v4 / 256 == v5 && v4 % 256 == bytes[4]);
    assert(v3 / 256 == v4 && v3 % 256 == bytes[3]);
    assert(v2 / 256 == v3 && v2 % 256 == bytes[2]);
    assert(v1 / 256 == v2 && v1 % 256 == bytes[1]);
    assert(v0 / 256 == v1 && v0 % 256 == bytes[0]);
    let w: u64 = v0 as u64;
    let out = u64_to_le(w);
    assert(out.len() == 8);
    assert(out[0] == bytes[0]);
    assert(out[1] == bytes[1]);
    assert(out[2] == bytes[2]);
    assert(out[3] == bytes[3]);
    assert(out[4] == bytes[4]);
    assert(out[5] == bytes[5]);
    assert(out[6] == bytes[6]);
    assert(out[7] == bytes[7]);
    assert(out =~= bytes);
}

/// The number in the eight bytes of `src` that start at `at`.
pub fn read_u64(src: &[u8], at: usize) -> (value: u64)
    requires
        at + 8 <= src@.len(),
    ensures
        value == u64_from_le(src@.subrange(at as int, at + 8)),
{
    proof {
        reveal(u64_from_le);
    }
    let b0: u64 = src[at] as u64;
    let b1: u64 = src[at + 1] as u64;
    let b2: u64 = src[at + 2] as u64;
    let b3: u64 = src[at + 3] as u64;
    let b4: u64 = src[at + 4] as u64;
    let b5: u64 = src[at + 5] as u64;
    let b6: u64 = src[at + 6] as u64;
    let b7: u64 = src[at + 7] as u64;
    b0 + 256 * (b1 + 256 * (b2 + 256 * (b3 + 256 * (b4 + 256 * (b5 + 256 * (b6 + 256 * b7))))))
}

/// Appends the eight bytes of `value` to `buf`.
pub fn push_u64(buf: &mut Vec<u8>, value: u64)
    ensures
        final(buf)@ == old(buf)@ + u64_to_le(value),
{
    proof {
        reveal(u64_to_le);
    }
    let v1: u64 = value / 256;
    let v2: u64 = v1 / 256;
    let v3: u64 = v2 / 256;
    let v4: u64 = v3 / 256;
    let v5: u64 = v4 / 256;
    let v6: u64 = v5 / 256;
    let v7: u64 = v6 / 256;
    buf.push((value % 256) as u8);
    buf.push((v1 % 256) as u8);
    buf.push((v2 % 256) as u8);
    buf.push((v3 % 256) as u8);
    buf.push((v4 % 256) as u8);
    buf.push((v5 % 256) as u8);
    buf.push((v6 % 256) as u8);
    buf.push((v7 % 256) as u8);
    assert(buf@ =~= old(buf)@ + u64_to_le(value));
}

/// Copies `src` over `dst`, which has the same length.
pub fn copy_into(dst: &mut [u8], src: &[u8])
    requires
        old(dst)@.len() == src@.len(),
    ensures
        final(dst)@ == src@,
{
    let n: usize = src.len();
    let mut i: usize = 0;
    while i < n
        invariant
            i <= n,
            n == src@.len(),
            dst@.len() == n,
            forall|j: int| 0 <= j < i ==> dst@[j] == src@[j],
        decreases n - i,
    {
        dst[i] = src[i];
        i += 1;
    }
    assert(dst@ =~= src@);
}

} // verus!
