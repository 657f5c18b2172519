//! The rules of each instruction: on which accounts it is refused and why,
//! and what it writes and asks of the host where it is not.
//!
//! An instruction is refused for the first reason that holds, in the order in
//! which the rules are written down here. A refused instruction changes
//! nothing. An accepted one rewrites the records that it names and returns
//! the calls of other programs that go with it; where the host cannot make
//! one of them, it drops the instruction whole.

use crate::account::{rewritten, write_account, AccountInfo, Rent};
use crate::error::{custom, ProgramError, QFError};
use crate::instruction::{unpack_spec, QFInstruction};
use crate::invocation::{
    invocations_view, Invocation, InvocationView, SignerSeeds, SignerSeedsView,
};
use crate::pubkey::{
    associated_token_program_id, associated_token_program_key, derived_view,
    find_round_authority, find_voter_address, keys_view, rent_sysvar_id, rent_sysvar_key,
    round_authority, system_program_id, system_program_key, token_program_id, token_program_key,
    voter_address, Pubkey,
};
use crate::state::{
    Project, ProjectView, Round, RoundStatus, RoundView, Voter, VoterView,
};
use crate::tally::{cast_vote, payout, payout_of, voted, Payout, TallyView};
use crate::uint::U256;
use vstd::prelude::*;

verus! {

/// The instructions' rules.
pub struct Processor {}

/// The vault of the round in the first account, where that account holds a
/// round.
pub open spec fn round_vault(accounts: Seq<AccountInfo>) -> Seq<u8> {
    (RoundView::from_bytes(accounts[0].data@)->Ok_0).vault
}

/// The seeds that sign for the address derived from `key`.
pub fn seeds_of(key: Pubkey, bump: u8) -> (seeds: SignerSeeds)
    ensures
        seeds@ == (SignerSeedsView { keys: seq![key@], bump }),
{
    let mut keys: Vec<Pubkey> = Vec::new();
    keys.push(key);
    assert(keys_view(keys@) =~= seq![key@]);
    SignerSeeds { keys, bump }
}

/// The seeds that sign for the address derived from `first` and `second`.
pub fn seeds_of_two(first: Pubkey, second: Pubkey, bump: u8) -> (seeds: SignerSeeds)
    ensures
        seeds@ == (SignerSeedsView { keys: seq![first@, second@], bump }),
{
    let mut keys: Vec<Pubkey> = Vec::new();
    keys.push(first);
    keys.push(second);
    assert(keys_view(keys@) =~= seq![first@, second@]);
    SignerSeeds { keys, bump }
}

/// Why the start of a round is refused, if it is, where `authority` is the
/// address that signs for the round's vault. The accounts are the round's
/// fresh record, the round's owner, the associated token account program,
/// who pays for the vault, the vault, the vault's authority, the mint, the
/// system program, the token program and the rent parameters.
pub open spec fn start_round_refusal(
    program_id: Seq<u8>,
    accounts: Seq<AccountInfo>,
    rent: Rent,
    authority: Option<(Seq<u8>, u8)>,
) -> Option<ProgramError> {
    if accounts.len() < 10 {
        Some(ProgramError::NotEnoughAccountKeys)
    } else if accounts[9].key@ != rent_sysvar_key() {
        Some(ProgramError::InvalidArgument)
    } else if accounts[0].owner@ != program_id {
        Some(ProgramError::IncorrectProgramId)
    } else if accounts[0].data@.len() != 113 {
        Some(ProgramError::InvalidAccountData)
    } else if accounts[0].lamports < rent.round_minimum_balance {
        Some(ProgramError::AccountNotRentExempt)
    } else {
        match RoundView::from_bytes(accounts[0].data@) {
            Err(e) => Some(e),
            Ok(round) => if round.is_initialized() {
                Some(ProgramError::AccountAlreadyInitialized)
            } else if accounts[2].key@ != associated_token_program_key() {
                Some(custom(QFError::UnexpectedTokenProgramID))
            } else {
                match authority {
                    None => Some(ProgramError::InvalidSeeds),
                    Some((wallet, _)) => if accounts[5].key@ != wallet {
                        Some(custom(QFError::OwnerMismatch))
                    } else if accounts[7].key@ != system_program_key() {
                        Some(custom(QFError::UnexpectedSystemProgramID))
                    } else if accounts[8].key@ != token_program_key() {
                        Some(custom(QFError::UnexpectedTokenProgramID))
                    } else {
                        None
                    },
                }
            },
        }
    }
}

/// What the start of a round writes: the round, going on, with an empty fund,
/// no fee owed and no area, and the owner and the vault given. Nothing of
/// what the fresh record held is kept.
pub open spec fn start_round_writes(accounts: Seq<AccountInfo>) -> Map<int, Seq<u8>> {
    map![0int => (RoundView {
        status: RoundStatus::Ongoing,
        fund: 0,
        fee: 0,
        vault: accounts[4].key@,
        owner: accounts[1].key@,
        area: 0,
    }).bytes()]
}

/// What the start of a round asks of the host: the creation of the vault.
pub open spec fn start_round_invocations(accounts: Seq<AccountInfo>) -> Seq<InvocationView> {
    seq![
        InvocationView::CreateAssociatedTokenAccount {
            funder: accounts[3].key@,
            wallet: accounts[5].key@,
            mint: accounts[6].key@,
        },
    ]
}

impl Processor {
    /// Starts a round on a fresh record, where `authority` is the address
    /// that signs for the round's vault.
    pub fn start_round_with_authority(
        program_id: &Pubkey,
        accounts: &mut Vec<AccountInfo>,
        rent: &Rent,
        authority: Option<(Pubkey, u8)>,
    ) -> (result: Result<Vec<Invocation>, ProgramError>)
        ensures
            result matches Err(e) ==>
                start_round_refusal(
                    program_id@,
                    old(accounts)@,
                    *rent,
                    derived_view(authority),
                ) == Some(e),
            result is Err ==> *final(accounts) == *old(accounts),
            result is Ok ==>
                start_round_refusal(
                    program_id@,
                    old(accounts)@,
                    *rent,
                    derived_view(authority),
                ) is None,
            result is Ok ==>
                rewritten(old(accounts)@, final(accounts)@, start_round_writes(old(accounts)@)),
            result matches Ok(invocations) ==>
                invocations_view(invocations@) == start_round_invocations(old(accounts)@),
    {
        if accounts.len() < 10 {
            return Err(ProgramError::NotEnoughAccountKeys);
        }
        if accounts[9].key != rent_sysvar_id() {
            return Err(ProgramError::InvalidArgument);
        }
        if accounts[0].owner != *program_id {
            return Err(ProgramError::IncorrectProgramId);
        }
        if accounts[0].data.len() != Round::LEN {
            return Err(ProgramError::InvalidAccountData);
        }
        if accounts[0].lamports < rent.round_minimum_balance {
            return Err(ProgramError::AccountNotRentExempt);
        }
        let mut round = match Round::unpack_unchecked(accounts[0].data.as_slice()) {
            Ok(round) => round,
            Err(e) => {
                return Err(e);
            },
        };
        if round.is_initialized() {
            return Err(ProgramError::AccountAlreadyInitialized);
        }
        if accounts[2].key != associated_token_program_id() {
            return Err(ProgramError::from(QFError::UnexpectedTokenProgramID));
        }
        let wallet = match authority {
            Some((wallet, _)) => wallet,
            None => {
                return Err(ProgramError::InvalidSeeds);
            },
        };
        if accounts[5].key != wallet {
            return Err(ProgramError::from(QFError::OwnerMismatch));
        }
        if accounts[7].key != system_program_id() {
            return Err(ProgramError::from(QFError::UnexpectedSystemProgramID));
        }
        if accounts[8].key != token_program_id() {
            return Err(ProgramError::from(QFError::UnexpectedTokenProgramID));
        }
        let create = Invocation::CreateAssociatedTokenAccount {
            funder: accounts[3].key,
            wallet: accounts[5].key,
            mint: accounts[6].key,
        };
        round.status = RoundStatus::Ongoing;
        round.fund = 0;
        round.fee = 0;
        round.owner = accounts[1].key;
        round.vault = accounts[4].key;
        round.area = U256::zero();
        write_account(accounts, 0, round.to_bytes());
        let mut invocations: Vec<Invocation> = Vec::new();
        invocations.push(create);
        assert(invocations_view(invocations@) =~= start_round_invocations(old(accounts)@));
        Ok(invocations)
    }

    /// Starts a round on a fresh record.
    pub fn process_start_round(
        program_id: &Pubkey,
        accounts: &mut Vec<AccountInfo>,
        rent: &Rent,
    ) -> (result: Result<Vec<Invocation>, ProgramError>)
        ensures
            result matches Err(e) ==>
                start_round_refusal(
                    program_id@,
                    old(accounts)@,
                    *rent,
                    round_authority(old(accounts)@[0].key@, program_id@),
                ) == Some(e),
            result is Err ==> *final(accounts) == *old(accounts),
            result is Ok ==>
                start_round_refusal(
                    program_id@,
                    old(accounts)@,
                    *rent,
                    round_authority(old(accounts)@[0].key@, program_id@),
                ) is None,
            result is Ok ==>
                rewritten(old(accounts)@, final(accounts)@, start_round_writes(old(accounts)@)),
            result matches Ok(invocations) ==>
                invocations_view(invocations@) == start_round_invocations(old(accounts)@),
    {
        if accounts.len() < 10 {
            return Err(ProgramError::NotEnoughAccountKeys);
        }
        let authority = find_round_authority(&accounts[0].key, program_id);
        Processor::start_round_with_authority(program_id, accounts, rent, authority)
    }
}

/// Why a donation of `amount` is refused, if it is. The accounts are the
/// round, the donor's token account, the mint, the vault, the donor and the
/// token program.
pub open spec fn donate_refusal(
    program_id: Seq<u8>,
    accounts: Seq<AccountInfo>,
    amount: u64,
) -> Option<ProgramError> {
    if accounts.len() < 6 {
        Some(ProgramError::NotEnoughAccountKeys)
    } else if accounts[0].owner@ != program_id {
        Some(ProgramError::IncorrectProgramId)
    } else {
        match RoundView::started_from_bytes(accounts[0].data@) {
            Err(e) => Some(e),
            Ok(round) => if round.status != RoundStatus::Ongoing {
                Some(custom(QFError::RoundStatusError))
            } else if accounts[3].key@ != round.vault {
                Some(custom(QFError::VaultMismatch))
            } else if accounts[5].key@ != token_program_key() {
                Some(custom(QFError::UnexpectedTokenProgramID))
            } else if round.fund + amount > u64::MAX {
                Some(ProgramError::ArithmeticOverflow)
            } else {
                None
            },
        }
    }
}

/// What a donation of `amount` writes: the round with `amount` more in its
/// fund.
pub open spec fn donate_writes(accounts: Seq<AccountInfo>, amount: u64) -> Map<int, Seq<u8>> {
    let round = RoundView::from_bytes(accounts[0].data@)->Ok_0;
    map![0int => (RoundView { fund: (round.fund + amount) as u64, ..round }).bytes()]
}

/// What a donation asks of the host: the transfer of the tokens from the
/// donor's account to the round's vault.
pub open spec fn donate_invocations(accounts: Seq<AccountInfo>, amount: u64, decimals: u8) -> Seq<
    InvocationView,
> {
    seq![
        InvocationView::TransferChecked {
            source: accounts[1].key@,
            mint: accounts[2].key@,
            destination: round_vault(accounts),
            authority: accounts[4].key@,
            amount,
            decimals,
        },
    ]
}

impl Processor {
    /// Adds `amount` to the fund of a round that is going on.
    pub fn process_donate(
        program_id: &Pubkey,
        accounts: &mut Vec<AccountInfo>,
        amount: u64,
        decimals: u8,
    ) -> (result: Result<Vec<Invocation>, ProgramError>)
        ensures
            result matches Err(e) ==>
                donate_refusal(program_id@, old(accounts)@, amount) == Some(e),
            result is Err ==> *final(accounts) == *old(accounts),
            result is Ok ==> donate_refusal(program_id@, old(accounts)@, amount) is None,
            result is Ok ==>
                rewritten(
                    old(accounts)@,
                    final(accounts)@,
                    donate_writes(old(accounts)@, amount),
                ),
            result matches Ok(invocations) ==>
                invocations_view(invocations@) == donate_invocations(
                    old(accounts)@,
                    amount,
                    decimals,
                ),
    {
        if accounts.len() < 6 {
            return Err(ProgramError::NotEnoughAccountKeys);
        }
        if accounts[0].owner != *program_id {
            return Err(ProgramError::IncorrectProgramId);
        }
        let mut round = match Round::unpack(accounts[0].data.as_slice()) {
            Ok(round) => round,
            Err(e) => {
                return Err(e);
            },
        };
        if round.status != RoundStatus::Ongoing {
            return Err(ProgramError::from(QFError::RoundStatusError));
        }
        if accounts[3].key != round.vault {
            return Err(ProgramError::from(QFError::VaultMismatch));
        }
        if accounts[5].key != token_program_id() {
            return Err(ProgramError::from(QFError::UnexpectedTokenProgramID));
        }
        let transfer = Invocation::TransferChecked {
            source: accounts[1].key,
            mint: accounts[2].key,
            destination: round.vault,
            authority: accounts[4].key,
            amount,
            decimals,
        };
        round.fund = match round.fund.checked_add(amount) {
            Some(fund) => fund,
            None => {
                return Err(ProgramError::ArithmeticOverflow);
            },
        };
        write_account(accounts, 0, round.to_bytes());
        let mut invocations: Vec<Invocation> = Vec::new();
        invocations.push(transfer);
        assert(invocations_view(invocations@) =~= donate_invocations(
            old(accounts)@,
            amount,
            decimals,
        ));
        Ok(invocations)
    }
}

/// Why the registration of a project is refused, if it is. The accounts are
/// the project's fresh record, the round, the project's owner and the rent
/// parameters.
pub open spec fn register_project_refusal(
    program_id: Seq<u8>,
    accounts: Seq<AccountInfo>,
    rent: Rent,
) -> Option<ProgramError> {
    if accounts.len() < 4 {
        Some(ProgramError::NotEnoughAccountKeys)
    } else if accounts[3].key@ != rent_sysvar_key() {
        Some(ProgramError::InvalidArgument)
    } else if accounts[1].owner@ != program_id {
        Some(ProgramError::IncorrectProgramId)
    } else {
        match RoundView::started_from_bytes(accounts[1].data@) {
            Err(e) => Some(e),
            Ok(round) => if round.status != RoundStatus::Ongoing {
                Some(custom(QFError::RoundStatusError))
            } else if accounts[0].owner@ != program_id {
                Some(ProgramError::IncorrectProgramId)
            } else {
                match ProjectView::from_bytes(accounts[0].data@) {
                    Err(e) => Some(e),
                    Ok(project) => if project.is_initialized() {
                        Some(ProgramError::AccountAlreadyInitialized)
                    } else if accounts[0].lamports < rent.project_minimum_balance {
                        Some(ProgramError::AccountNotRentExempt)
                    } else {
                        None
                    },
                }
            },
        }
    }
}

/// What the registration of a project writes: the project, of the round and
/// the owner given, with no votes, no area and no square roots, and not
/// withdrawn. Nothing of what the fresh record held is kept.
pub open spec fn register_project_writes(accounts: Seq<AccountInfo>) -> Map<int, Seq<u8>> {
    map![0int => (ProjectView {
        round: accounts[1].key@,
        owner: accounts[2].key@,
        withdraw: false,
        votes: 0,
        area: 0,
        area_sqrt: 0,
    }).bytes()]
}

impl Processor {
    /// Registers a project with a round that is going on, on a fresh record.
    pub fn process_register_project(
        program_id: &Pubkey,
        accounts: &mut Vec<AccountInfo>,
        rent: &Rent,
    ) -> (result: Result<Vec<Invocation>, ProgramError>)
        ensures
            result matches Err(e) ==>
                register_project_refusal(program_id@, old(accounts)@, *rent) == Some(e),
            result is Err ==> *final(accounts) == *old(accounts),
            result is Ok ==> register_project_refusal(program_id@, old(accounts)@, *rent) is None,
            result is Ok ==>
                rewritten(
                    old(accounts)@,
                    final(accounts)@,
                    register_project_writes(old(accounts)@),
                ),
            result matches Ok(invocations) ==> invocations@.len() == 0,
    {
        if accounts.len() < 4 {
            return Err(ProgramError::NotEnoughAccountKeys);
        }
        if accounts[3].key != rent_sysvar_id() {
            return Err(ProgramError::InvalidArgument);
        }
        if accounts[1].owner != *program_id {
            return Err(ProgramError::IncorrectProgramId);
        }
        let round = match Round::unpack(accounts[1].data.as_slice()) {
            Ok(round) => round,
            Err(e) => {
                return Err(e);
            },
        };
        if round.status != RoundStatus::Ongoing {
            return Err(ProgramError::from(QFError::RoundStatusError));
        }
        if accounts[0].owner != *program_id {
            return Err(ProgramError::IncorrectProgramId);
        }
        let mut project = match Project::unpack_unchecked(accounts[0].data.as_slice()) {
            Ok(project) => project,
            Err(e) => {
                return Err(e);
            },
        };
        if project.is_initialized() {
            return Err(ProgramError::AccountAlreadyInitialized);
        }
        if accounts[0].lamports < rent.project_minimum_balance {
            return Err(ProgramError::AccountNotRentExempt);
        }
        project.round = accounts[1].key;
        project.owner = accounts[2].key;
        project.withdraw = false;
        project.votes = 0;
        project.area = U256::zero();
        project.area_sqrt = U256::zero();
        write_account(accounts, 0, project.to_bytes());
        Ok(Vec::new())
    }
}

/// Why the creation of a contributor's record is refused, if it is, where
/// `address` is the address of the record of this contributor to this
/// project. The accounts are the record to create, the contributor's token
/// account, the project, who pays for the record, the system program and the
/// rent parameters.
pub open spec fn init_voter_refusal(
    program_id: Seq<u8>,
    accounts: Seq<AccountInfo>,
    address: Option<(Seq<u8>, u8)>,
) -> Option<ProgramError> {
    if accounts.len() < 6 {
        Some(ProgramError::NotEnoughAccountKeys)
    } else if accounts[5].key@ != rent_sysvar_key() {
        Some(ProgramError::InvalidArgument)
    } else if accounts[2].owner@ != program_id {
        Some(ProgramError::IncorrectProgramId)
    } else {
        match ProjectView::registered_from_bytes(accounts[2].data@) {
            Err(e) => Some(e),
            Ok(_) => match address {
                None => Some(ProgramError::InvalidSeeds),
                Some((expected, _)) => if accounts[0].key@ != expected {
                    Some(custom(QFError::VoterMismatch))
                } else {
                    None
                },
            },
        }
    }
}

/// What the record to create lacks of the balance that exempts it from rent,
/// which is at least one.
pub open spec fn voter_shortfall(rent: Rent, lamports: u64) -> u64 {
    let needed = if rent.voter_minimum_balance < 1 {
        1
    } else {
        rent.voter_minimum_balance
    };
    if needed <= lamports {
        0
    } else {
        (needed - lamports) as u64
    }
}

/// What the creation of a contributor's record asks of the host: the
/// transfer of what the record lacks to be exempt from rent, if anything, and
/// the allocation of the record's bytes and its assignment to the program,
/// both signed for by the program.
pub open spec fn init_voter_invocations(
    program_id: Seq<u8>,
    accounts: Seq<AccountInfo>,
    rent: Rent,
    address: (Seq<u8>, u8),
) -> Seq<InvocationView> {
    let seeds = SignerSeedsView {
        keys: seq![accounts[2].key@, accounts[1].key@],
        bump: address.1,
    };
    let shortfall = voter_shortfall(rent, accounts[0].lamports);
    let create = seq![
        InvocationView::Allocate { account: accounts[0].key@, space: 41, seeds },
        InvocationView::Assign { account: accounts[0].key@, owner: program_id, seeds },
    ];
    if shortfall > 0 {
        seq![
            InvocationView::SystemTransfer {
                from: accounts[3].key@,
                to: accounts[0].key@,
                lamports: shortfall,
            },
        ] + create
    } else {
        create
    }
}

/// Why the record that the host has allocated is not taken for a
/// contributor's, if it is not, where `address` is the address of the record
/// of this contributor to this project. The accounts are those of the
/// creation. Whatever refuses the creation refuses this too; then the record
/// must belong to the program, hold a contributor's record, and not be
/// created yet.
pub open spec fn complete_init_voter_refusal(
    program_id: Seq<u8>,
    accounts: Seq<AccountInfo>,
    address: Option<(Seq<u8>, u8)>,
) -> Option<ProgramError> {
    match init_voter_refusal(program_id, accounts, address) {
        Some(e) => Some(e),
        None => if accounts[0].owner@ != program_id {
            Some(ProgramError::IncorrectProgramId)
        } else {
            match VoterView::from_bytes(accounts[0].data@) {
                Err(e) => Some(e),
                Ok(voter) => if voter.is_initialized {
                    Some(ProgramError::AccountAlreadyInitialized)
                } else {
                    None
                },
            }
        },
    }
}

/// What the creation of a contributor's record writes, once the host has
/// allocated it: the record, created, with no votes.
pub open spec fn complete_init_voter_writes() -> Map<int, Seq<u8>> {
    map![0int => (VoterView { is_initialized: true, votes: 0, votes_sqrt: 0 }).bytes()]
}

impl Processor {
    /// Holds the accounts of the creation of a contributor's record against
    /// its rules, and gives the bump byte of the record's address.
    pub fn check_init_voter(
        program_id: &Pubkey,
        accounts: &Vec<AccountInfo>,
        address: Option<(Pubkey, u8)>,
    ) -> (result: Result<u8, ProgramError>)
        ensures
            result matches Err(e) ==>
                init_voter_refusal(program_id@, accounts@, derived_view(address)) == Some(e),
            result is Ok ==>
                init_voter_refusal(program_id@, accounts@, derived_view(address)) is None,
            result matches Ok(bump) ==> address matches Some(found) && found.1 == bump,
    {
        if accounts.len() < 6 {
            return Err(ProgramError::NotEnoughAccountKeys);
        }
        if accounts[5].key != rent_sysvar_id() {
            return Err(ProgramError::InvalidArgument);
        }
        if accounts[2].owner != *program_id {
            return Err(ProgramError::IncorrectProgramId);
        }
        match Project::unpack(accounts[2].data.as_slice()) {
            Ok(_) => {},
            Err(e) => {
                return Err(e);
            },
        }
        let (expected, bump) = match address {
            Some(found) => found,
            None => {
                return Err(ProgramError::InvalidSeeds);
            },
        };
        if accounts[0].key != expected {
            return Err(ProgramError::from(QFError::VoterMismatch));
        }
        Ok(bump)
    }

    /// Prepares the record of one contributor to one project, where `address`
    /// is the address of that record. The record itself is written by
    /// `complete_init_voter`, once the host has made the calls returned here.
    pub fn init_voter_with_address(
        program_id: &Pubkey,
        accounts: &Vec<AccountInfo>,
        rent: &Rent,
        address: Option<(Pubkey, u8)>,
    ) -> (result: Result<Vec<Invocation>, ProgramError>)
        ensures
            result matches Err(e) ==>
                init_voter_refusal(program_id@, accounts@, derived_view(address)) == Some(e),
            result is Ok ==>
                init_voter_refusal(program_id@, accounts@, derived_view(address)) is None,
            result matches Ok(invocations) ==>
                invocations_view(invocations@) == init_voter_invocations(
                    program_id@,
                    accounts@,
                    *rent,
                    derived_view(address)->Some_0,
                ),
    {
        let bump: u8 = match Processor::check_init_voter(program_id, accounts, address) {
            Ok(bump) => bump,
            Err(e) => {
                return Err(e);
            },
        };
        let needed: u64 = if rent.voter_minimum_balance < 1 {
            1
        } else {
            rent.voter_minimum_balance
        };
        let shortfall: u64 = needed.saturating_sub(accounts[0].lamports);
        let mut invocations: Vec<Invocation> = Vec::new();
        if shortfall > 0 {
            invocations.push(
                Invocation::SystemTransfer {
                    from: accounts[3].key,
                    to: accounts[0].key,
                    lamports: shortfall,
                },
            );
        }
        invocations.push(
            Invocation::Allocate {
                account: accounts[0].key,
                space: 41,
                seeds: seeds_of_two(accounts[2].key, accounts[1].key, bump),
            },
        );
        invocations.push(
            Invocation::Assign {
                account: accounts[0].key,
                owner: *program_id,
                seeds: seeds_of_two(accounts[2].key, accounts[1].key, bump),
            },
        );
        assert(invocations_view(invocations@) =~= init_voter_invocations(
            program_id@,
            accounts@,
            *rent,
            derived_view(address)->Some_0,
        ));
        Ok(invocations)
    }

    /// Prepares the record of one contributor to one project. The record
    /// itself is written by `complete_init_voter`, once the host has made the
    /// calls returned here.
    pub fn process_init_voter(
        program_id: &Pubkey,
        accounts: &Vec<AccountInfo>,
        rent: &Rent,
    ) -> (result: Result<Vec<Invocation>, ProgramError>)
        ensures
            result matches Err(e) ==>
                init_voter_refusal(
                    program_id@,
                    accounts@,
                    voter_address(accounts@[2].key@, accounts@[1].key@, program_id@),
                ) == Some(e),
            result is Ok ==>
                init_voter_refusal(
                    program_id@,
                    accounts@,
                    voter_address(accounts@[2].key@, accounts@[1].key@, program_id@),
                ) is None,
            result matches Ok(invocations) ==>
                invocations_view(invocations@) == init_voter_invocations(
                    program_id@,
                    accounts@,
                    *rent,
                    voter_address(accounts@[2].key@, accounts@[1].key@, program_id@)->Some_0,
                ),
    {
        if accounts.len() < 6 {
            return Err(ProgramError::NotEnoughAccountKeys);
        }
        let address = find_voter_address(&accounts[2].key, &accounts[1].key, program_id);
        Processor::init_voter_with_address(program_id, accounts, rent, address)
    }

    /// Writes the record of a contributor into the account that the host has
    /// allocated for it and handed to the program, where `address` is the
    /// address of that record. The accounts are those of the creation, as the
    /// host's calls have left them.
    pub fn complete_init_voter_with_address(
        program_id: &Pubkey,
        accounts: &mut Vec<AccountInfo>,
        address: Option<(Pubkey, u8)>,
    ) -> (result: Result<(), ProgramError>)
        ensures
            result matches Err(e) ==>
                complete_init_voter_refusal(
                    program_id@,
                    old(accounts)@,
                    derived_view(address),
                ) == Some(e),
            result is Err ==> *final(accounts) == *old(accounts),
            result is Ok ==>
                complete_init_voter_refusal(
                    program_id@,
                    old(accounts)@,
                    derived_view(address),
                ) is None,
            result is Ok ==>
                rewritten(old(accounts)@, final(accounts)@, complete_init_voter_writes()),
    {
        match Processor::check_init_voter(program_id, accounts, address) {
            Ok(_) => {},
            Err(e) => {
                return Err(e);
            },
        }
        if accounts[0].owner != *program_id {
            return Err(ProgramError::IncorrectProgramId);
        }
        let mut voter = match Voter::unpack_unchecked(accounts[0].data.as_slice()) {
            Ok(voter) => voter,
            Err(e) => {
                return Err(e);
            },
        };
        if voter.is_initialized() {
            return Err(ProgramError::AccountAlreadyInitialized);
        }
        voter.is_initialized = true;
        voter.votes = 0;
        voter.votes_sqrt = U256::zero();
        write_account(accounts, 0, voter.to_bytes());
        Ok(())
    }

    /// Writes the record of a contributor into the account that the host has
    /// allocated for it and handed to the program. The accounts are those of
    /// the creation, as the host's calls have left them.
    pub fn complete_init_voter(program_id: &Pubkey, accounts: &mut Vec<AccountInfo>) -> (result:
        Result<(), ProgramError>)
        ensures
            result matches Err(e) ==>
                complete_init_voter_refusal(
                    program_id@,
                    old(accounts)@,
                    voter_address(old(accounts)@[2].key@, old(accounts)@[1].key@, program_id@),
                ) == Some(e),
            result is Err ==> *final(accounts) == *old(accounts),
            result is Ok ==>
                complete_init_voter_refusal(
                    program_id@,
                    old(accounts)@,
                    voter_address(old(accounts)@[2].key@, old(accounts)@[1].key@, program_id@),
                ) is None,
            result is Ok ==>
                rewritten(old(accounts)@, final(accounts)@, complete_init_voter_writes()),
    {
        if accounts.len() < 6 {
            return Err(ProgramError::NotEnoughAccountKeys);
        }
        let address = find_voter_address(&accounts[2].key, &accounts[1].key, program_id);
        Processor::complete_init_voter_with_address(program_id, accounts, address)
    }
}

/// Why a vote of `amount` is refused, if it is, where `address` is the
/// address of the record of this contributor to this project. The accounts
/// are the round, the project, the contributor's record, the contributor's
/// token account, the mint, the vault, the contributor and the token program.
pub open spec fn vote_refusal(
    program_id: Seq<u8>,
    accounts: Seq<AccountInfo>,
    amount: u64,
    address: Option<(Seq<u8>, u8)>,
) -> Option<ProgramError> {
    if accounts.len() < 8 {
        Some(ProgramError::NotEnoughAccountKeys)
    } else if accounts[0].owner@ != program_id {
        Some(ProgramError::IncorrectProgramId)
    } else {
        match RoundView::started_from_bytes(accounts[0].data@) {
            Err(e) => Some(e),
            Ok(round) => if round.status != RoundStatus::Ongoing {
                Some(custom(QFError::RoundStatusError))
            } else if accounts[5].key@ != round.vault {
                Some(custom(QFError::VaultMismatch))
            } else if accounts[1].owner@ != program_id {
                Some(ProgramError::IncorrectProgramId)
            } else {
                match ProjectView::registered_from_bytes(accounts[1].data@) {
                    Err(e) => Some(e),
                    Ok(project) => if project.round != accounts[0].key@ {
                        Some(custom(QFError::RoundMismatch))
                    } else if accounts[2].owner@ != program_id {
                        Some(ProgramError::IncorrectProgramId)
                    } else {
                        match address {
                            None => Some(ProgramError::InvalidSeeds),
                            Some((expected, _)) => if accounts[2].key@ != expected {
                                Some(custom(QFError::VoterMismatch))
                            } else {
                                match VoterView::created_from_bytes(accounts[2].data@) {
                                    Err(e) => Some(e),
                                    Ok(voter) => if accounts[7].key@ != token_program_key() {
                                        Some(custom(QFError::UnexpectedTokenProgramID))
                                    } else if voted(round, project, voter, amount) is None {
                                        Some(ProgramError::ArithmeticOverflow)
                                    } else {
                                        None
                                    },
                                }
                            },
                        }
                    },
                }
            },
        }
    }
}

/// The three records after the vote.
pub open spec fn vote_tally(accounts: Seq<AccountInfo>, amount: u64) -> TallyView {
    voted(
        RoundView::from_bytes(accounts[0].data@)->Ok_0,
        ProjectView::from_bytes(accounts[1].data@)->Ok_0,
        VoterView::from_bytes(accounts[2].data@)->Ok_0,
        amount,
    )->Some_0
}

/// What a vote writes: the round, the project and the contributor's record
/// as the vote leaves them.
pub open spec fn vote_writes(accounts: Seq<AccountInfo>, amount: u64) -> Map<int, Seq<u8>> {
    let tally = vote_tally(accounts, amount);
    map![
        0int => tally.round.bytes(),
        1int => tally.project.bytes(),
        2int => tally.voter.bytes(),
    ]
}

/// What a vote asks of the host: the transfer of the tokens from the
/// contributor's account to the round's vault.
pub open spec fn vote_invocations(accounts: Seq<AccountInfo>, amount: u64, decimals: u8) -> Seq<
    InvocationView,
> {
    seq![
        InvocationView::TransferChecked {
            source: accounts[3].key@,
            mint: accounts[4].key@,
            destination: round_vault(accounts),
            authority: accounts[6].key@,
            amount,
            decimals,
        },
    ]
}

impl Processor {
    /// Contributes `amount` to a project of a round that is going on, where
    /// `address` is the address of the record of this contributor to this
    /// project.
    pub fn vote_with_address(
        program_id: &Pubkey,
        accounts: &mut Vec<AccountInfo>,
        amount: u64,
        decimals: u8,
        address: Option<(Pubkey, u8)>,
    ) -> (result: Result<Vec<Invocation>, ProgramError>)
        ensures
            result matches Err(e) ==>
                vote_refusal(program_id@, old(accounts)@, amount, derived_view(address)) == Some(
                    e,
                ),
            result is Err ==> *final(accounts) == *old(accounts),
            result is Ok ==>
                vote_refusal(program_id@, old(accounts)@, amount, derived_view(address)) is None,
            result is Ok ==>
                rewritten(old(accounts)@, final(accounts)@, vote_writes(old(accounts)@, amount)),
            result matches Ok(invocations) ==>
                invocations_view(invocations@) == vote_invocations(
                    old(accounts)@,
                    amount,
                    decimals,
                ),
    {
        if accounts.len() < 8 {
            return Err(ProgramError::NotEnoughAccountKeys);
        }
        if accounts[0].owner != *program_id {
            return Err(ProgramError::IncorrectProgramId);
        }
        let round = match Round::unpack(accounts[0].data.as_slice()) {
            Ok(round) => round,
            Err(e) => {
                return Err(e);
            },
        };
        if round.status != RoundStatus::Ongoing {
            return Err(ProgramError::from(QFError::RoundStatusError));
        }
        if accounts[5].key != round.vault {
            return Err(ProgramError::from(QFError::VaultMismatch));
        }
        if accounts[1].owner != *program_id {
            return Err(ProgramError::IncorrectProgramId);
        }
        let project = match Project::unpack(accounts[1].data.as_slice()) {
            Ok(project) => project,
            Err(e) => {
                return Err(e);
            },
        };
        if project.round != accounts[0].key {
            return Err(ProgramError::from(QFError::RoundMismatch));
        }
        if accounts[2].owner != *program_id {
            return Err(ProgramError::IncorrectProgramId);
        }
        let expected = match address {
            Some((expected, _)) => expected,
            None => {
                return Err(ProgramError::InvalidSeeds);
            },
        };
        if accounts[2].key != expected {
            return Err(ProgramError::from(QFError::VoterMismatch));
        }
        let voter = match Voter::unpack(accounts[2].data.as_slice()) {
            Ok(voter) => voter,
            Err(e) => {
                return Err(e);
            },
        };
        if accounts[7].key != token_program_id() {
            return Err(ProgramError::from(QFError::UnexpectedTokenProgramID));
        }
        let transfer = Invocation::TransferChecked {
            source: accounts[3].key,
            mint: accounts[4].key,
            destination: round.vault,
            authority: accounts[6].key,
            amount,
            decimals,
        };
        let tally = match cast_vote(&round, &project, &voter, amount) {
            Some(tally) => tally,
            None => {
                return Err(ProgramError::ArithmeticOverflow);
            },
        };
        write_account(accounts, 0, tally.round.to_bytes());
        write_account(accounts, 1, tally.project.to_bytes());
        write_account(accounts, 2, tally.voter.to_bytes());
        let mut invocations: Vec<Invocation> = Vec::new();
        invocations.push(transfer);
        assert(invocations_view(invocations@) =~= vote_invocations(
            old(accounts)@,
            amount,
            decimals,
        ));
        Ok(invocations)
    }

    /// Contributes `amount` to a project of a round that is going on.
    pub fn process_vote(
        program_id: &Pubkey,
        accounts: &mut Vec<AccountInfo>,
        amount: u64,
        decimals: u8,
    ) -> (result: Result<Vec<Invocation>, ProgramError>)
        ensures
            result matches Err(e) ==>
                vote_refusal(
                    program_id@,
                    old(accounts)@,
                    amount,
                    voter_address(old(accounts)@[1].key@, old(accounts)@[3].key@, program_id@),
                ) == Some(e),
            result is Err ==> *final(accounts) == *old(accounts),
            result is Ok ==>
                vote_refusal(
                    program_id@,
                    old(accounts)@,
                    amount,
                    voter_address(old(accounts)@[1].key@, old(accounts)@[3].key@, program_id@),
                ) is None,
            result is Ok ==>
                rewritten(old(accounts)@, final(accounts)@, vote_writes(old(accounts)@, amount)),
            result matches Ok(invocations) ==>
                invocations_view(invocations@) == vote_invocations(
                    old(accounts)@,
                    amount,
                    decimals,
                ),
    {
        if accounts.len() < 8 {
            return Err(ProgramError::NotEnoughAccountKeys);
        }
        let address = find_voter_address(&accounts[1].key, &accounts[3].key, program_id);
        Processor::vote_with_address(program_id, accounts, amount, decimals, address)
    }
}

/// Why a project's withdrawal is refused, if it is, where `authority` is the
/// address that signs for the round's vault. The accounts are the round, the
/// vault, the vault's authority, the project, the project's owner, the token
/// account to pay, and the token program.
pub open spec fn withdraw_refusal(
    program_id: Seq<u8>,
    accounts: Seq<AccountInfo>,
    authority: Option<(Seq<u8>, u8)>,
) -> Option<ProgramError> {
    if accounts.len() < 7 {
        Some(ProgramError::NotEnoughAccountKeys)
    } else if accounts[0].owner@ != program_id {
        Some(ProgramError::IncorrectProgramId)
    } else {
        match RoundView::started_from_bytes(accounts[0].data@) {
            Err(e) => Some(e),
            Ok(round) => if round.status != RoundStatus::Finished {
                Some(custom(QFError::RoundStatusError))
            } else if accounts[3].owner@ != program_id {
                Some(ProgramError::IncorrectProgramId)
            } else {
                match ProjectView::registered_from_bytes(accounts[3].data@) {
                    Err(e) => Some(e),
                    Ok(project) => if project.round != accounts[0].key@ {
                        Some(custom(QFError::RoundMismatch))
                    } else if project.withdraw {
                        Some(custom(QFError::ProjectAlreadyWithdraw))
                    } else if !accounts[4].is_signer {
                        Some(ProgramError::MissingRequiredSignature)
                    } else if project.owner != accounts[4].key@ {
                        Some(custom(QFError::OwnerMismatch))
                    } else if accounts[1].key@ != round.vault {
                        Some(custom(QFError::VaultMismatch))
                    } else if accounts[6].key@ != token_program_key() {
                        Some(custom(QFError::UnexpectedTokenProgramID))
                    } else {
                        match authority {
                            None => Some(ProgramError::InvalidSeeds),
                            Some((signer, _)) => if accounts[2].key@ != signer {
                                Some(custom(QFError::OwnerMismatch))
                            } else {
                                match payout_of(
                                    round.fund,
                                    project.votes,
                                    project.area,
                                    round.area,
                                ) {
                                    None => Some(ProgramError::ArithmeticOverflow),
                                    Some(paid) => if round.fee + paid.fee > u64::MAX {
                                        Some(ProgramError::ArithmeticOverflow)
                                    } else {
                                        None
                                    },
                                }
                            },
                        }
                    },
                }
            },
        }
    }
}

/// What the project of a withdrawal is paid.
pub open spec fn withdraw_payout(accounts: Seq<AccountInfo>) -> Payout {
    let round = RoundView::from_bytes(accounts[0].data@)->Ok_0;
    let project = ProjectView::from_bytes(accounts[3].data@)->Ok_0;
    payout_of(round.fund, project.votes, project.area, round.area)->Some_0
}

/// What a withdrawal writes: the round with the fee added to its fees, and
/// the project, withdrawn.
pub open spec fn withdraw_writes(accounts: Seq<AccountInfo>) -> Map<int, Seq<u8>> {
    let round = RoundView::from_bytes(accounts[0].data@)->Ok_0;
    let project = ProjectView::from_bytes(accounts[3].data@)->Ok_0;
    map![
        0int => (RoundView {
            fee: (round.fee + withdraw_payout(accounts).fee) as u64,
            ..round
        }).bytes(),
        3int => (ProjectView { withdraw: true, ..project }).bytes(),
    ]
}

/// What a withdrawal asks of the host: the transfer from the round's vault of
/// what the project is paid, signed for by the program.
pub open spec fn withdraw_invocations(accounts: Seq<AccountInfo>, authority: (Seq<u8>, u8)) -> Seq<
    InvocationView,
> {
    seq![
        InvocationView::Transfer {
            source: round_vault(accounts),
            destination: accounts[5].key@,
            authority: authority.0,
            amount: withdraw_payout(accounts).amount,
            seeds: SignerSeedsView { keys: seq![accounts[0].key@], bump: authority.1 },
        },
    ]
}

impl Processor {
    /// Pays a project of a finished round its votes and its share of the
    /// fund, less the fee, where `authority` is the address that signs for
    /// the round's vault.
    pub fn withdraw_with_authority(
        program_id: &Pubkey,
        accounts: &mut Vec<AccountInfo>,
        authority: Option<(Pubkey, u8)>,
    ) -> (result: Result<Vec<Invocation>, ProgramError>)
        ensures
            result matches Err(e) ==>
                withdraw_refusal(program_id@, old(accounts)@, derived_view(authority)) == Some(e),
            result is Err ==> *final(accounts) == *old(accounts),
            result is Ok ==>
                withdraw_refusal(program_id@, old(accounts)@, derived_view(authority)) is None,
            result is Ok ==>
                rewritten(old(accounts)@, final(accounts)@, withdraw_writes(old(accounts)@)),
            result matches Ok(invocations) ==>
                invocations_view(invocations@) == withdraw_invocations(
                    old(accounts)@,
                    derived_view(authority)->Some_0,
                ),
    {
        if accounts.len() < 7 {
            return Err(ProgramError::NotEnoughAccountKeys);
        }
        if accounts[0].owner != *program_id {
            return Err(ProgramError::IncorrectProgramId);
        }
        let mut round = match Round::unpack(accounts[0].data.as_slice()) {
            Ok(round) => round,
            Err(e) => {
                return Err(e);
            },
        };
        if round.status != RoundStatus::Finished {
            return Err(ProgramError::from(QFError::RoundStatusError));
        }
        if accounts[3].owner != *program_id {
            return Err(ProgramError::IncorrectProgramId);
        }
        let mut project = match Project::unpack(accounts[3].data.as_slice()) {
            Ok(project) => project,
            Err(e) => {
                return Err(e);
            },
        };
        if project.round != accounts[0].key {
            return Err(ProgramError::from(QFError::RoundMismatch));
        }
        if project.withdraw {
            return Err(ProgramError::from(QFError::ProjectAlreadyWithdraw));
        }
        if !accounts[4].is_signer {
            return Err(ProgramError::MissingRequiredSignature);
        }
        if project.owner != accounts[4].key {
            return Err(ProgramError::from(QFError::OwnerMismatch));
        }
        if accounts[1].key != round.vault {
            return Err(ProgramError::from(QFError::VaultMismatch));
        }
        if accounts[6].key != token_program_id() {
            return Err(ProgramError::from(QFError::UnexpectedTokenProgramID));
        }
        let (signer, bump) = match authority {
            Some(found) => found,
            None => {
                return Err(ProgramError::InvalidSeeds);
            },
        };
        if accounts[2].key != signer {
            return Err(ProgramError::from(QFError::OwnerMismatch));
        }
        let paid = match payout(&round, &project) {
            Some(paid) => paid,
            None => {
                return Err(ProgramError::ArithmeticOverflow);
            },
        };
        let transfer = Invocation::Transfer {
            source: round.vault,
            destination: accounts[5].key,
            authority: signer,
            amount: paid.amount,
            seeds: seeds_of(accounts[0].key, bump),
        };
        project.withdraw = true;
        round.fee = match round.fee.checked_add(paid.fee) {
            Some(fee) => fee,
            None => {
                return Err(ProgramError::ArithmeticOverflow);
            },
        };
        write_account(accounts, 3, project.to_bytes());
        write_account(accounts, 0, round.to_bytes());
        let mut invocations: Vec<Invocation> = Vec::new();
        invocations.push(transfer);
        assert(invocations_view(invocations@) =~= withdraw_invocations(
            old(accounts)@,
            derived_view(authority)->Some_0,
        ));
        Ok(invocations)
    }

    /// Pays a project of a finished round its votes and its share of the
    /// fund, less the fee.
    pub fn process_withdraw(program_id: &Pubkey, accounts: &mut Vec<AccountInfo>) -> (result:
        Result<Vec<Invocation>, ProgramError>)
        ensures
            result matches Err(e) ==>
                withdraw_refusal(
                    program_id@,
                    old(accounts)@,
                    round_authority(old(accounts)@[0].key@, program_id@),
                ) == Some(e),
            result is Err ==> *final(accounts) == *old(accounts),
            result is Ok ==>
                withdraw_refusal(
                    program_id@,
                    old(accounts)@,
                    round_authority(old(accounts)@[0].key@, program_id@),
                ) is None,
            result is Ok ==>
                rewritten(old(accounts)@, final(accounts)@, withdraw_writes(old(accounts)@)),
            result matches Ok(invocations) ==>
                invocations_view(invocations@) == withdraw_invocations(
                    old(accounts)@,
                    round_authority(old(accounts)@[0].key@, program_id@)->Some_0,
                ),
    {
        if accounts.len() < 7 {
            return Err(ProgramError::NotEnoughAccountKeys);
        }
        let authority = find_round_authority(&accounts[0].key, program_id);
        Processor::withdraw_with_authority(program_id, accounts, authority)
    }
}

/// Why the end of a round is refused, if it is. The accounts are the round
/// and its owner.
pub open spec fn end_round_refusal(program_id: Seq<u8>, accounts: Seq<AccountInfo>) -> Option<
    ProgramError,
> {
    if accounts.len() < 2 {
        Some(ProgramError::NotEnoughAccountKeys)
    } else if accounts[0].owner@ != program_id {
        Some(ProgramError::IncorrectProgramId)
    } else {
        match RoundView::started_from_bytes(accounts[0].data@) {
            Err(e) => Some(e),
            Ok(round) => if round.status != RoundStatus::Ongoing {
                Some(custom(QFError::RoundStatusError))
            } else if accounts[1].key@ != round.owner {
                Some(custom(QFError::OwnerMismatch))
            } else if !accounts[1].is_signer {
                Some(ProgramError::MissingRequiredSignature)
            } else {
                None
            },
        }
    }
}

/// What the end of a round writes: the round, finished.
pub open spec fn end_round_writes(accounts: Seq<AccountInfo>) -> Map<int, Seq<u8>> {
    let round = RoundView::from_bytes(accounts[0].data@)->Ok_0;
    map![0int => (RoundView { status: RoundStatus::Finished, ..round }).bytes()]
}

impl Processor {
    /// Ends a round that is going on, at its owner's word.
    pub fn process_end_round(program_id: &Pubkey, accounts: &mut Vec<AccountInfo>) -> (result:
        Result<Vec<Invocation>, ProgramError>)
        ensures
            result matches Err(e) ==> end_round_refusal(program_id@, old(accounts)@) == Some(e),
            result is Err ==> *final(accounts) == *old(accounts),
            result is Ok ==> end_round_refusal(program_id@, old(accounts)@) is None,
            result is Ok ==>
                rewritten(old(accounts)@, final(accounts)@, end_round_writes(old(accounts)@)),
            result matches Ok(invocations) ==> invocations@.len() == 0,
    {
        if accounts.len() < 2 {
            return Err(ProgramError::NotEnoughAccountKeys);
        }
        if accounts[0].owner != *program_id {
            return Err(ProgramError::IncorrectProgramId);
        }
        let mut round = match Round::unpack(accounts[0].data.as_slice()) {
            Ok(round) => round,
            Err(e) => {
                return Err(e);
            },
        };
        if round.status != RoundStatus::Ongoing {
            return Err(ProgramError::from(QFError::RoundStatusError));
        }
        if accounts[1].key != round.owner {
            return Err(ProgramError::from(QFError::OwnerMismatch));
        }
        if !accounts[1].is_signer {
            return Err(ProgramError::MissingRequiredSignature);
        }
        round.status = RoundStatus::Finished;
        write_account(accounts, 0, round.to_bytes());
        Ok(Vec::new())
    }
}

/// Why the withdrawal of the fees is refused, if it is, where `authority` is
/// the address that signs for the round's vault. The accounts are the round,
/// its owner, the vault, the vault's authority, the token account to pay,
/// and the token program.
pub open spec fn withdraw_fee_refusal(
    program_id: Seq<u8>,
    accounts: Seq<AccountInfo>,
    authority: Option<(Seq<u8>, u8)>,
) -> Option<ProgramError> {
    if accounts.len() < 6 {
        Some(ProgramError::NotEnoughAccountKeys)
    } else if accounts[0].owner@ != program_id {
        Some(ProgramError::IncorrectProgramId)
    } else {
        match RoundView::started_from_bytes(accounts[0].data@) {
            Err(e) => Some(e),
            Ok(round) => if round.status != RoundStatus::Finished {
                Some(custom(QFError::RoundStatusError))
            } else if round.fee == 0 {
                Some(ProgramError::InsufficientFunds)
            } else if accounts[1].key@ != round.owner {
                Some(custom(QFError::OwnerMismatch))
            } else if !accounts[1].is_signer {
                Some(ProgramError::MissingRequiredSignature)
            } else if accounts[2].key@ != round.vault {
                Some(custom(QFError::VaultMismatch))
            } else if accounts[5].key@ != token_program_key() {
                Some(custom(QFError::UnexpectedTokenProgramID))
            } else {
                match authority {
                    None => Some(ProgramError::InvalidSeeds),
                    Some((signer, _)) => if accounts[3].key@ != signer {
                        Some(custom(QFError::OwnerMismatch))
                    } else {
                        None
                    },
                }
            },
        }
    }
}

/// What the withdrawal of the fees writes: the round with no fee left.
pub open spec fn withdraw_fee_writes(accounts: Seq<AccountInfo>) -> Map<int, Seq<u8>> {
    let round = RoundView::from_bytes(accounts[0].data@)->Ok_0;
    map![0int => (RoundView { fee: 0, ..round }).bytes()]
}

/// What the withdrawal of the fees asks of the host: the transfer of the fees
/// from the round's vault, signed for by the program.
pub open spec fn withdraw_fee_invocations(
    accounts: Seq<AccountInfo>,
    authority: (Seq<u8>, u8),
) -> Seq<InvocationView> {
    let round = RoundView::from_bytes(accounts[0].data@)->Ok_0;
    seq![
        InvocationView::Transfer {
            source: round_vault(accounts),
            destination: accounts[4].key@,
            authority: authority.0,
            amount: round.fee,
            seeds: SignerSeedsView { keys: seq![accounts[0].key@], bump: authority.1 },
        },
    ]
}

impl Processor {
    /// Pays the round's owner the fees collected, where `authority` is the
    /// address that signs for the round's vault.
    pub fn withdraw_fee_with_authority(
        program_id: &Pubkey,
        accounts: &mut Vec<AccountInfo>,
        authority: Option<(Pubkey, u8)>,
    ) -> (result: Result<Vec<Invocation>, ProgramError>)
        ensures
            result matches Err(e) ==>
                withdraw_fee_refusal(
                    program_id@,
                    old(accounts)@,
                    derived_view(authority),
                ) == Some(e),
            result is Err ==> *final(accounts) == *old(accounts),
            result is Ok ==>
                withdraw_fee_refusal(
                    program_id@,
                    old(accounts)@,
                    derived_view(authority),
                ) is None,
            result is Ok ==>
                rewritten(old(accounts)@, final(accounts)@, withdraw_fee_writes(old(accounts)@)),
            result matches Ok(invocations) ==>
                invocations_view(invocations@) == withdraw_fee_invocations(
                    old(accounts)@,
                    derived_view(authority)->Some_0,
                ),
    {
        if accounts.len() < 6 {
            return Err(ProgramError::NotEnoughAccountKeys);
        }
        if accounts[0].owner != *program_id {
            return Err(ProgramError::IncorrectProgramId);
        }
        let mut round = match Round::unpack(accounts[0].data.as_slice()) {
            Ok(round) => round,
            Err(e) => {
                return Err(e);
            },
        };
        if round.status != RoundStatus::Finished {
            return Err(ProgramError::from(QFError::RoundStatusError));
        }
        if round.fee == 0 {
            return Err(ProgramError::InsufficientFunds);
        }
        if accounts[1].key != round.owner {
            return Err(ProgramError::from(QFError::OwnerMismatch));
        }
        if !accounts[1].is_signer {
            return Err(ProgramError::MissingRequiredSignature);
        }
        if accounts[2].key != round.vault {
            return Err(ProgramError::from(QFError::VaultMismatch));
        }
        if accounts[5].key != token_program_id() {
            return Err(ProgramError::from(QFError::UnexpectedTokenProgramID));
        }
        let (signer, bump) = match authority {
            Some(found) => found,
            None => {
                return Err(ProgramError::InvalidSeeds);
            },
        };
        if accounts[3].key != signer {
            return Err(ProgramError::from(QFError::OwnerMismatch));
        }
        let transfer = Invocation::Transfer {
            source: round.vault,
            destination: accounts[4].key,
            authority: signer,
            amount: round.fee,
            seeds: seeds_of(accounts[0].key, bump),
        };
        round.fee = 0;
        write_account(accounts, 0, round.to_bytes());
        let mut invocations: Vec<Invocation> = Vec::new();
        invocations.push(transfer);
        assert(invocations_view(invocations@) =~= withdraw_fee_invocations(
            old(accounts)@,
            derived_view(authority)->Some_0,
        ));
        Ok(invocations)
    }

    /// Pays the round's owner the fees collected.
    pub fn process_withdraw_fee(program_id: &Pubkey, accounts: &mut Vec<AccountInfo>) -> (result:
        Result<Vec<Invocation>, ProgramError>)
        ensures
            result matches Err(e) ==>
                withdraw_fee_refusal(
                    program_id@,
                    old(accounts)@,
                    round_authority(old(accounts)@[0].key@, program_id@),
                ) == Some(e),
            result is Err ==> *final(accounts) == *old(accounts),
            result is Ok ==>
                withdraw_fee_refusal(
                    program_id@,
                    old(accounts)@,
                    round_authority(old(accounts)@[0].key@, program_id@),
                ) is None,
            result is Ok ==>
                rewritten(old(accounts)@, final(accounts)@, withdraw_fee_writes(old(accounts)@)),
            result matches Ok(invocations) ==>
                invocations_view(invocations@) == withdraw_fee_invocations(
                    old(accounts)@,
                    round_authority(old(accounts)@[0].key@, program_id@)->Some_0,
                ),
    {
        if accounts.len() < 6 {
            return Err(ProgramError::NotEnoughAccountKeys);
        }
        let authority = find_round_authority(&accounts[0].key, program_id);
        Processor::withdraw_fee_with_authority(program_id, accounts, authority)
    }
}

/// Why `instruction` is refused, if it is.
pub open spec fn instruction_refusal(
    program_id: Seq<u8>,
    accounts: Seq<AccountInfo>,
    instruction: QFInstruction,
    rent: Rent,
) -> Option<ProgramError> {
    match instruction {
        QFInstruction::StartRound => start_round_refusal(
            program_id,
            accounts,
            rent,
            round_authority(accounts[0].key@, program_id),
        ),
        QFInstruction::Donate { amount, decimals } => donate_refusal(program_id, accounts, amount),
        QFInstruction::RegisterProject => register_project_refusal(program_id, accounts, rent),
        QFInstruction::InitVoter => init_voter_refusal(
            program_id,
            accounts,
            voter_address(accounts[2].key@, accounts[1].key@, program_id),
        ),
        QFInstruction::Vote { amount, decimals } => vote_refusal(
            program_id,
            accounts,
            amount,
            voter_address(accounts[1].key@, accounts[3].key@, program_id),
        ),
        QFInstruction::Withdraw => withdraw_refusal(
            program_id,
            accounts,
            round_authority(accounts[0].key@, program_id),
        ),
        QFInstruction::EndRound => end_round_refusal(program_id, accounts),
        QFInstruction::WithdrawFee => withdraw_fee_refusal(
            program_id,
            accounts,
            round_authority(accounts[0].key@, program_id),
        ),
    }
}

/// What `instruction` writes, where it is not refused.
pub open spec fn instruction_writes(accounts: Seq<AccountInfo>, instruction: QFInstruction) -> Map<
    int,
    Seq<u8>,
> {
    match instruction {
        QFInstruction::StartRound => start_round_writes(accounts),
        QFInstruction::Donate { amount, decimals } => donate_writes(accounts, amount),
        QFInstruction::RegisterProject => register_project_writes(accounts),
        QFInstruction::InitVoter => Map::empty(),
        QFInstruction::Vote { amount, decimals } => vote_writes(accounts, amount),
        QFInstruction::Withdraw => withdraw_writes(accounts),
        QFInstruction::EndRound => end_round_writes(accounts),
        QFInstruction::WithdrawFee => withdraw_fee_writes(accounts),
    }
}

/// What `instruction` asks of the host, where it is not refused.
pub open spec fn instruction_invocations(
    program_id: Seq<u8>,
    accounts: Seq<AccountInfo>,
    instruction: QFInstruction,
    rent: Rent,
) -> Seq<InvocationView> {
    match instruction {
        QFInstruction::StartRound => start_round_invocations(accounts),
        QFInstruction::Donate { amount, decimals } => donate_invocations(
            accounts,
            amount,
            decimals,
        ),
        QFInstruction::RegisterProject => Seq::empty(),
        QFInstruction::InitVoter => init_voter_invocations(
            program_id,
            accounts,
            rent,
            voter_address(accounts[2].key@, accounts[1].key@, program_id)->Some_0,
        ),
        QFInstruction::Vote { amount, decimals } => vote_invocations(accounts, amount, decimals),
        QFInstruction::Withdraw => withdraw_invocations(
            accounts,
            round_authority(accounts[0].key@, program_id)->Some_0,
        ),
        QFInstruction::EndRound => Seq::empty(),
        QFInstruction::WithdrawFee => withdraw_fee_invocations(
            accounts,
            round_authority(accounts[0].key@, program_id)->Some_0,
        ),
    }
}

/// Why the instruction that `input` encodes is refused, if it is.
pub open spec fn process_refusal(
    program_id: Seq<u8>,
    accounts: Seq<AccountInfo>,
    input: Seq<u8>,
    rent: Rent,
) -> Option<ProgramError> {
    match unpack_spec(input) {
        Err(e) => Some(e),
        Ok(instruction) => instruction_refusal(program_id, accounts, instruction, rent),
    }
}

impl Processor {
    /// Decodes the instruction in `input` and applies it to `accounts`.
    ///
    /// Where the instruction creates a contributor's record, the host makes
    /// the calls returned and then has `complete_init_voter` write the record.
    pub fn process(
        program_id: &Pubkey,
        accounts: &mut Vec<AccountInfo>,
        input: &[u8],
        rent: &Rent,
    ) -> (result: Result<Vec<Invocation>, ProgramError>)
        ensures
            result matches Err(e) ==>
                process_refusal(program_id@, old(accounts)@, input@, *rent) == Some(e),
            result is Err ==> *final(accounts) == *old(accounts),
            result is Ok ==> process_refusal(program_id@, old(accounts)@, input@, *rent) is None,
            result is Ok ==>
                rewritten(
                    old(accounts)@,
                    final(accounts)@,
                    instruction_writes(old(accounts)@, unpack_spec(input@)->Ok_0),
                ),
            result matches Ok(invocations) ==>
                invocations_view(invocations@) == instruction_invocations(
                    program_id@,
                    old(accounts)@,
                    unpack_spec(input@)->Ok_0,
                    *rent,
                ),
    {
        let instruction = match QFInstruction::unpack(input) {
            Ok(instruction) => instruction,
            Err(e) => {
                return Err(e);
            },
        };
        match instruction {
            QFInstruction::StartRound => Processor::process_start_round(
                program_id,
                accounts,
                rent,
            ),
            QFInstruction::Donate { amount, decimals } => Processor::process_donate(
                program_id,
                accounts,
                amount,
                decimals,
            ),
            QFInstruction::RegisterProject => Processor::process_register_project(
                program_id,
                accounts,
                rent,
            ),
            QFInstruction::InitVoter => Processor::process_init_voter(program_id, accounts, rent),
            QFInstruction::Vote { amount, decimals } => Processor::process_vote(
                program_id,
                accounts,
                amount,
                decimals,
            ),
            QFInstruction::Withdraw => Processor::process_withdraw(program_id, accounts),
            QFInstruction::EndRound => Processor::process_end_round(program_id, accounts),
            QFInstruction::WithdrawFee => Processor::process_withdraw_fee(program_id, accounts),
        }
    }
}

} // verus!
