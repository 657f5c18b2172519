//! Account addresses, the addresses of the programs that the rounds deal
//! with, and the derivation of the addresses that only this program can sign
//! for.

use vstd::prelude::*;
use vstd::std_specs::cmp::PartialEqSpecImpl;

verus! {

/// The address of an account: 32 bytes.
#[derive(Clone, Copy, Debug, Eq)]
pub struct Pubkey {
    pub bytes: [u8; 32],
}

impl View for Pubkey {
    type V = Seq<u8>;

    open spec fn view(&self) -> Seq<u8> {
        self.bytes@
    }
}

impl PartialEq for Pubkey {
    fn eq(&self, other: &Pubkey) -> (equal: bool) {
        let mut i: usize = 0;
        while i < 32
            invariant
                i <= 32,
                forall|j: int| 0 <= j < i ==> self.bytes@[j] == other.bytes@[j],
            decreases 32 - i,
        {
            if self.bytes[i] != other.bytes[i] {
                return false;
            }
            i += 1;
        }
        assert(self.bytes@ =~= other.bytes@);
        true
    }
}

impl PartialEqSpecImpl for Pubkey {
    open spec fn obeys_eq_spec() -> bool {
        true
    }

    open spec fn eq_spec(&self, other: &Pubkey) -> bool {
        self@ == other@
    }
}

/// The bytes of the all-zero address, which is also the system program's.
pub open spec fn zero_key() -> Seq<u8> {
    Seq::new(32, |i: int| 0u8)
}

impl Pubkey {
    /// The address made of `bytes`.
    pub fn new_from_array(bytes: [u8; 32]) -> (key: Pubkey)
        ensures
            key@ == bytes@,
    {
        Pubkey { bytes }
    }

    /// The bytes of the address.
    pub fn to_bytes(&self) -> (bytes: [u8; 32])
        ensures
            bytes@ == self@,
    {
        self.bytes
    }

    /// The address in the 32 bytes of `src` that start at `at`.
    pub fn read(src: &[u8], at: usize) -> (key: Pubkey)
        requires
            at + 32 <= src@.len(),
        ensures
            key@ == src@.subrange(at as int, at + 32),
    {
        let len: usize = src.len();
        let mut bytes: [u8; 32] = [0u8; 32];
        let mut i: usize = 0;
        while i < 32
            invariant
                i <= 32,
                at + 32 <= src@.len(),
                src@.len() == len,
                forall|j: int| 0 <= j < i ==> bytes@[j] == src@[at + j],
            decreases 32 - i,
        {
            bytes[i] = src[at + i];
            i += 1;
        }
        assert(bytes@ =~= src@.subrange(at as int, at + 32));
        Pubkey { bytes }
    }

    /// Appends the 32 bytes of the address to `buf`.
    pub fn push(&self, buf: &mut Vec<u8>)
        ensures
            final(buf)@ == old(buf)@ + self@,
    {
        let mut i: usize = 0;
        while i < 32
            invariant
                i <= 32,
                buf@ == old(buf)@ + self@.subrange(0, i as int),
            decreases 32 - i,
        {
            buf.push(self.bytes[i]);
            assert(buf@ =~= old(buf)@ + self@.subrange(0, i + 1));
            i += 1;
        }
        assert(self@.subrange(0, 32) =~= self@);
    }

}

impl Default for Pubkey {
    /// The all-zero address.
    fn default() -> (key: Pubkey)
        ensures
            key@ == zero_key(),
    {
        let key = Pubkey { bytes: [0u8; 32] };
        assert(key@ =~= zero_key());
        key
    }
}

/// The bytes of the system program's address.
pub open spec fn system_program_key() -> Seq<u8> {
    zero_key()
}

/// The bytes of the token program's address.
pub open spec fn token_program_key() -> Seq<u8> {
    seq![
        6u8, 221, 246, 225, 215, 101, 161, 147, 217, 203, 225, 70, 206, 235, 121, 172, 28, 180,
        133, 237, 95, 91, 55, 145, 58, 140, 245, 133, 126, 255, 0, 169,
    ]
}

/// The bytes of the associated token account program's address.
pub open spec fn associated_token_program_key() -> Seq<u8> {
    seq![
        140u8, 151, 37, 143, 78, 36, 137, 241, 187, 61, 16, 41, 20, 142, 13, 131, 11, 90, 19,
        153, 218, 255, 16, 132, 4, 142, 123, 216, 219, 233, 248, 89,
    ]
}

/// The bytes of the address of the account that holds the rent parameters.
pub open spec fn rent_sysvar_key() -> Seq<u8> {
    seq![
        6u8, 167, 213, 23, 25, 44, 92, 81, 33, 140, 201, 76, 61, 74, 241, 127, 88, 218, 238, 8,
        155, 161, 253, 68, 227, 219, 217, 138, 0, 0, 0, 0,
    ]
}

/// The system program's address.
pub fn system_program_id() -> (id: Pubkey)
    ensures
        id@ == system_program_key(),
{
    Pubkey::default()
}

/// The token program's address.
pub fn token_program_id() -> (id: Pubkey)
    ensures
        id@ == token_program_key(),
{
    let id = Pubkey {
        bytes: [
            6, 221, 246, 225, 215, 101, 161, 147, 217, 203, 225, 70, 206, 235, 121, 172, 28,
            180, 133, 237, 95, 91, 55, 145, 58, 140, 245, 133, 126, 255, 0, 169,
        ],
    };
    assert(id@ =~= token_program_key());
    id
}

/// The associated token account program's address.
pub fn associated_token_program_id() -> (id: Pubkey)
    ensures
        id@ == associated_token_program_key(),
{
    let id = Pubkey {
        bytes: [
            140, 151, 37, 143, 78, 36, 137, 241, 187, 61, 16, 41, 20, 142, 13, 131, 11, 90, 19,
            153, 218, 255, 16, 132, 4, 142, 123, 216, 219, 233, 248, 89,
        ],
    };
    assert(id@ =~= associated_token_program_key());
    id
}

/// The address of the account that holds the rent parameters.
pub fn rent_sysvar_id() -> (id: Pubkey)
    ensures
        id@ == rent_sysvar_key(),
{
    let id = Pubkey {
        bytes: [
            6, 167, 213, 23, 25, 44, 92, 81, 33, 140, 201, 76, 61, 74, 241, 127, 88, 218, 238,
            8, 155, 161, 253, 68, 227, 219, 217, 138, 0, 0, 0, 0,
        ],
    };
    assert(id@ =~= rent_sysvar_key());
    id
}

/// Two addresses with the same bytes are the same address.
pub proof fn lemma_pubkey_equal(a: Pubkey, b: Pubkey)
    requires
        a@ == b@,
    ensures
        a == b,
{
    assert(a.bytes =~= b.bytes);
}

/// The bytes of each address of a list, in order.
pub open spec fn keys_view(keys: Seq<Pubkey>) -> Seq<Seq<u8>> {
    Seq::new(keys.len(), |i: int| keys[i]@)
}

/// The address that `program_id` alone can sign for under `seeds`, with the
/// bump byte that completes the seeds; `None` where the seeds yield none.
pub uninterp spec fn program_address(seeds: Seq<Seq<u8>>, program_id: Seq<u8>) -> Option<
    (Seq<u8>, u8),
>;

/// The view of a derived address and its bump byte.
pub open spec fn derived_view(found: Option<(Pubkey, u8)>) -> Option<(Seq<u8>, u8)> {
    match found {
        Some((key, bump)) => Some((key@, bump)),
        None => None,
    }
}

/// Calls `Pubkey::try_find_program_address` of `solana_program` with the bytes
/// of `seeds` as the seeds. What it finds depends on the seeds and the
/// program's address alone, and is named `program_address`.
#[verifier::external_body]
pub(crate) fn try_find_program_address(seeds: &Vec<Pubkey>, program_id: &Pubkey) -> (found: Option<
    (Pubkey, u8),
>)
    ensures
        derived_view(found) == program_address(keys_view(seeds@), program_id@),
{
    let parts: Vec<&[u8]> = seeds.iter().map(|key| &key.bytes[..]).collect();
    let program = solana_program::pubkey::Pubkey::new_from_array(program_id.bytes);
    match solana_program::pubkey::Pubkey::try_find_program_address(&parts, &program) {
        Some((address, bump)) => Some((Pubkey { bytes: address.to_bytes() }, bump)),
        None => None,
    }
}

/// The address with which the program `program_id` signs for the vault of
/// the round at `round`, and its bump byte.
pub open spec fn round_authority(round: Seq<u8>, program_id: Seq<u8>) -> Option<(Seq<u8>, u8)> {
    program_address(seq![round], program_id)
}

/// The address of the record of what the holder of the token account `holder`
/// has contributed to the project at `project`, and its bump byte.
pub open spec fn voter_address(project: Seq<u8>, holder: Seq<u8>, program_id: Seq<u8>) -> Option<
    (Seq<u8>, u8),
> {
    program_address(seq![project, holder], program_id)
}

/// The address with which the program signs for the vault of the round at
/// `round`.
pub fn find_round_authority(round: &Pubkey, program_id: &Pubkey) -> (found: Option<(Pubkey, u8)>)
    ensures
        derived_view(found) == round_authority(round@, program_id@),
{
    let mut seeds: Vec<Pubkey> = Vec::new();
    seeds.push(*round);
    assert(keys_view(seeds@) =~= seq![round@]);
    try_find_program_address(&seeds, program_id)
}

/// The address of the record of what the holder of `holder` has contributed
/// to the project at `project`.
pub fn find_voter_address(project: &Pubkey, holder: &Pubkey, program_id: &Pubkey) -> (found:
    Option<(Pubkey, u8)>)
    ensures
        derived_view(found) == voter_address(project@, holder@, program_id@),
{
    let mut seeds: Vec<Pubkey> = Vec::new();
    seeds.push(*project);
    seeds.push(*holder);
    assert(keys_view(seeds@) =~= seq![project@, holder@]);
    try_find_program_address(&seeds, program_id)
}

/// The address that `program_id` signs for under `seeds`, and its bump byte.
pub fn find_program_address(seeds: &Vec<Pubkey>, program_id: &Pubkey) -> (found: Option<
    (Pubkey, u8),
>)
    ensures
        derived_view(found) == program_address(keys_view(seeds@), program_id@),
{
    try_find_program_address(seeds, program_id)
}

} // verus!
