//! What the host hands the program with an instruction.

use crate::pubkey::Pubkey;
use vstd::prelude::*;

verus! {

/// An account as the host presents it with an instruction.
#[derive(Clone, Debug, PartialEq, Eq)]
pub struct AccountInfo {
    /// The account's address.
    pub key: Pubkey,
    /// Whether the account has signed the transaction.
    pub is_signer: bool,
    /// The account's balance.
    pub lamports: u64,
    /// The account's bytes.
    pub data: Vec<u8>,
    /// The program that the account belongs to.
    pub owner: Pubkey,
}

/// The least balances that exempt an account of each record's length from
/// rent, as the host computes them from its rent parameters.
#[derive(Clone, Copy, Debug, PartialEq, Eq, Structural)]
pub struct Rent {
    pub round_minimum_balance: u64,
    pub project_minimum_balance: u64,
    pub voter_minimum_balance: u64,
}

/// `after` is `before` with the bytes of the accounts in `writes` replaced:
/// the same accounts in the same order, each with its address, owner,
/// signature and balance as before.
pub open spec fn rewritten(
    before: Seq<AccountInfo>,
    after: Seq<AccountInfo>,
    writes: Map<int, Seq<u8>>,
) -> bool {
    &&& after.len() == before.len()
    &&& forall|i: int|
        0 <= i < before.len() ==> {
            &&& (#[trigger] after[i]).key == before[i].key
            &&& after[i].owner == before[i].owner
            &&& after[i].is_signer == before[i].is_signer
            &&& after[i].lamports == before[i].lamports
            &&& after[i].data@ == if writes.dom().contains(i) {
                writes[i]
            } else {
                before[i].data@
            }
        }
}

/// Replaces the bytes of the account at `index`.
pub fn write_account(accounts: &mut Vec<AccountInfo>, index: usize, data: Vec<u8>)
    requires
        index < old(accounts)@.len(),
    ensures
        rewritten(old(accounts)@, final(accounts)@, map![index as int => data@]),
{
    accounts[index].data = data;
}

} // verus!
