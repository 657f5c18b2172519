//! What every instruction keeps: a round never goes back in its life, a
//! project stays with its round, a contributor's record stays created, and a
//! start or a withdrawal that has been carried out is refused when it comes
//! again.

use crate::account::{rewritten, AccountInfo, Rent};
use crate::error::{custom, ProgramError, QFError};
use crate::instruction::QFInstruction;
use crate::pubkey::zero_key;
use crate::processor::{
    complete_init_voter_refusal, complete_init_voter_writes, instruction_refusal,
    instruction_writes, register_project_refusal, register_project_writes, round_vault,
    start_round_refusal, start_round_writes, withdraw_fee_refusal, withdraw_payout,
    withdraw_refusal, withdraw_writes,
};
use crate::state::{
    lemma_project_pack_unpack, lemma_project_unpack_pack, lemma_round_bytes_len,
    lemma_round_pack_unpack, lemma_round_unpack_pack, lemma_voter_pack_unpack,
    lemma_voter_unpack_pack, ProjectView, RoundStatus, RoundView, VoterView,
};
use crate::tally::{lemma_vote_moves_area, lemma_vote_squares, voted};
use vstd::prelude::*;

verus! {

/// The round in the account at `index`, where the account holds one.
pub open spec fn round_at(accounts: Seq<AccountInfo>, index: int) -> RoundView {
    RoundView::from_bytes(accounts[index].data@)->Ok_0
}

/// The project in the account at `index`, where the account holds one.
pub open spec fn project_at(accounts: Seq<AccountInfo>, index: int) -> ProjectView {
    ProjectView::from_bytes(accounts[index].data@)->Ok_0
}

/// The contributor's record in the account at `index`, where the account
/// holds one.
pub open spec fn voter_at(accounts: Seq<AccountInfo>, index: int) -> VoterView {
    VoterView::from_bytes(accounts[index].data@)->Ok_0
}

/// An instruction that is carried out leaves every round where it was in its
/// life or further on: what was going on is never fresh again, and what was
/// finished is never going on again. The vault of a round that was started
/// stays the same.
pub proof fn lemma_status_never_regresses(
    program_id: Seq<u8>,
    before: Seq<AccountInfo>,
    after: Seq<AccountInfo>,
    instruction: QFInstruction,
    rent: Rent,
    index: int,
)
    requires
        instruction_refusal(program_id, before, instruction, rent) is None,
        rewritten(before, after, instruction_writes(before, instruction)),
        0 <= index < before.len(),
        RoundView::from_bytes(before[index].data@) is Ok,
    ensures
        RoundView::from_bytes(after[index].data@) is Ok,
        round_at(after, index).status.rank() >= round_at(before, index).status.rank(),
        round_at(before, index).is_initialized() ==> round_at(after, index).vault == round_at(
            before,
            index,
        ).vault,
{
    let earlier = round_at(before, index);
    lemma_round_pack_unpack(before[index].data@);
    assert(before[index].data@.len() == 113);
    assert(after[index].key == before[index].key);
    match instruction {
        QFInstruction::StartRound => {
            if index == 0 {
                let started = RoundView {
                    status: RoundStatus::Ongoing,
                    fund: 0,
                    fee: 0,
                    vault: before[4].key@,
                    owner: before[1].key@,
                    area: 0,
                };
                lemma_round_unpack_pack(started);
            }
        },
        QFInstruction::Donate { amount, decimals } => {
            if index == 0 {
                lemma_round_unpack_pack(
                    RoundView { fund: (earlier.fund + amount) as u64, ..earlier },
                );
            }
        },
        QFInstruction::RegisterProject => {
            if index == 0 {
                assert(ProjectView::from_bytes(before[0].data@) is Ok);
            }
        },
        QFInstruction::InitVoter => {},
        QFInstruction::Vote { amount, decimals } => {
            if index == 0 {
                let project = ProjectView::from_bytes(before[1].data@)->Ok_0;
                let voter = VoterView::from_bytes(before[2].data@)->Ok_0;
                let tally = voted(earlier, project, voter, amount)->Some_0;
                lemma_vote_moves_area(earlier, project, voter, amount, tally);
                lemma_round_unpack_pack(tally.round);
            } else if index == 1 {
                assert(ProjectView::from_bytes(before[1].data@) is Ok);
            } else if index == 2 {
                assert(VoterView::from_bytes(before[2].data@) is Ok);
            }
        },
        QFInstruction::Withdraw => {
            if index == 0 {
                let paid = withdraw_payout(before);
                lemma_round_unpack_pack(
                    RoundView { fee: (earlier.fee + paid.fee) as u64, ..earlier },
                );
            } else if index == 3 {
                assert(ProjectView::from_bytes(before[3].data@) is Ok);
            }
        },
        QFInstruction::EndRound => {
            if index == 0 {
                lemma_round_unpack_pack(RoundView { status: RoundStatus::Finished, ..earlier });
            }
        },
        QFInstruction::WithdrawFee => {
            if index == 0 {
                lemma_round_unpack_pack(RoundView { fee: 0, ..earlier });
            }
        },
    }
}

/// Writing a contributor's record into the account allocated for it leaves
/// every round as it was.
pub proof fn lemma_complete_init_voter_keeps_rounds(
    program_id: Seq<u8>,
    before: Seq<AccountInfo>,
    after: Seq<AccountInfo>,
    address: Option<(Seq<u8>, u8)>,
    index: int,
)
    requires
        complete_init_voter_refusal(program_id, before, address) is None,
        rewritten(before, after, complete_init_voter_writes()),
        0 <= index < before.len(),
        RoundView::from_bytes(before[index].data@) is Ok,
    ensures
        RoundView::from_bytes(after[index].data@) is Ok,
        round_at(after, index) == round_at(before, index),
{
    if index == 0 {
        assert(VoterView::from_bytes(before[0].data@) is Ok);
    }
}

/// A contributor's record is written only into an account of the program at
/// the address of this contributor to this project, and only once: what has
/// been written refuses to be written again.
pub proof fn lemma_complete_init_voter_once(
    program_id: Seq<u8>,
    before: Seq<AccountInfo>,
    after: Seq<AccountInfo>,
    address: Option<(Seq<u8>, u8)>,
)
    requires
        complete_init_voter_refusal(program_id, before, address) is None,
        rewritten(before, after, complete_init_voter_writes()),
    ensures
        before[0].owner@ == program_id,
        address is Some,
        before[0].key@ == address->Some_0.0,
        complete_init_voter_refusal(program_id, after, address) == Some(
            ProgramError::AccountAlreadyInitialized,
        ),
{
    let created = VoterView { is_initialized: true, votes: 0, votes_sqrt: 0 };
    lemma_voter_unpack_pack(created);
    assert(after[0].data@ == created.bytes());
    assert(after[0].owner == before[0].owner);
    assert(after[0].key == before[0].key);
    assert(after[2].owner == before[2].owner);
    assert(after[2].data@ == before[2].data@);
    assert(after[5].key == before[5].key);
}

/// A round that has been started is never started again: on a record that
/// holds a started round, the start of a round is refused, whatever else the
/// accounts hold.
pub proof fn lemma_started_round_refuses_start(
    program_id: Seq<u8>,
    accounts: Seq<AccountInfo>,
    rent: Rent,
    authority: Option<(Seq<u8>, u8)>,
)
    requires
        accounts.len() > 0,
        RoundView::from_bytes(accounts[0].data@) is Ok,
        round_at(accounts, 0).is_initialized(),
    ensures
        start_round_refusal(program_id, accounts, rent, authority) is Some,
{
}

/// The start of a round that has been carried out is refused when it comes
/// again, because the round has been started already.
pub proof fn lemma_start_round_replay(
    program_id: Seq<u8>,
    before: Seq<AccountInfo>,
    after: Seq<AccountInfo>,
    rent: Rent,
    authority: Option<(Seq<u8>, u8)>,
)
    requires
        start_round_refusal(program_id, before, rent, authority) is None,
        rewritten(before, after, start_round_writes(before)),
    ensures
        start_round_refusal(program_id, after, rent, authority) == Some(
            ProgramError::AccountAlreadyInitialized,
        ),
{
    let started = RoundView {
        status: RoundStatus::Ongoing,
        fund: 0,
        fee: 0,
        vault: before[4].key@,
        owner: before[1].key@,
        area: 0,
    };
    lemma_round_unpack_pack(started);
    lemma_round_bytes_len(started);
    assert(after[0].data@ == started.bytes());
    assert(after[9].key == before[9].key);
    assert(after[0].owner == before[0].owner);
}

/// A project that has withdrawn never withdraws again: on a record that
/// holds a project that has withdrawn, the withdrawal is refused, whatever
/// else the accounts hold.
pub proof fn lemma_withdrawn_project_refuses_withdraw(
    program_id: Seq<u8>,
    accounts: Seq<AccountInfo>,
    authority: Option<(Seq<u8>, u8)>,
)
    requires
        accounts.len() > 3,
        ProjectView::from_bytes(accounts[3].data@) is Ok,
        project_at(accounts, 3).withdraw,
    ensures
        withdraw_refusal(program_id, accounts, authority) is Some,
{
}

/// A withdrawal that has been carried out is refused when it comes again,
/// because the project has withdrawn already.
pub proof fn lemma_withdraw_replay(
    program_id: Seq<u8>,
    before: Seq<AccountInfo>,
    after: Seq<AccountInfo>,
    authority: Option<(Seq<u8>, u8)>,
)
    requires
        withdraw_refusal(program_id, before, authority) is None,
        rewritten(before, after, withdraw_writes(before)),
    ensures
        withdraw_refusal(program_id, after, authority) == Some(
            custom(QFError::ProjectAlreadyWithdraw),
        ),
{
    let round = RoundView::from_bytes(before[0].data@)->Ok_0;
    let project = ProjectView::from_bytes(before[3].data@)->Ok_0;
    lemma_round_pack_unpack(before[0].data@);
    lemma_project_pack_unpack(before[3].data@);
    let paid = withdraw_payout(before);
    let charged = RoundView { fee: (round.fee + paid.fee) as u64, ..round };
    let withdrawn = ProjectView { withdraw: true, ..project };
    lemma_round_unpack_pack(charged);
    lemma_project_unpack_pack(withdrawn);
    assert(after[0].data@ == charged.bytes());
    assert(after[3].data@ == withdrawn.bytes());
    assert(after[0].owner == before[0].owner);
    assert(after[3].owner == before[3].owner);
    assert(after[0].key == before[0].key);
}

/// An instruction that is carried out leaves every registered project with
/// its round and its owner, with at least the votes that it had, and withdrawn
/// if it was.
pub proof fn lemma_project_stays_with_its_round(
    program_id: Seq<u8>,
    before: Seq<AccountInfo>,
    after: Seq<AccountInfo>,
    instruction: QFInstruction,
    rent: Rent,
    index: int,
)
    requires
        instruction_refusal(program_id, before, instruction, rent) is None,
        rewritten(before, after, instruction_writes(before, instruction)),
        0 <= index < before.len(),
        ProjectView::registered_from_bytes(before[index].data@) is Ok,
    ensures
        ProjectView::registered_from_bytes(after[index].data@) is Ok,
        project_at(after, index).round == project_at(before, index).round,
        project_at(after, index).owner == project_at(before, index).owner,
        project_at(after, index).votes >= project_at(before, index).votes,
        project_at(before, index).withdraw ==> project_at(after, index).withdraw,
{
    let earlier = ProjectView::from_bytes(before[index].data@)->Ok_0;
    lemma_project_pack_unpack(before[index].data@);
    assert(before[index].data@.len() == 137);
    assert(after[index].key == before[index].key);
    match instruction {
        QFInstruction::StartRound => {},
        QFInstruction::Donate { amount, decimals } => {
            if index == 0 {
                assert(RoundView::from_bytes(before[0].data@) is Ok);
            }
        },
        QFInstruction::RegisterProject => {},
        QFInstruction::InitVoter => {},
        QFInstruction::Vote { amount, decimals } => {
            if index == 0 {
                assert(RoundView::from_bytes(before[0].data@) is Ok);
            } else if index == 1 {
                let round = RoundView::from_bytes(before[0].data@)->Ok_0;
                let voter = VoterView::from_bytes(before[2].data@)->Ok_0;
                let tally = voted(round, earlier, voter, amount)->Some_0;
                lemma_vote_moves_area(round, earlier, voter, amount, tally);
                lemma_vote_squares(round, earlier, voter, amount, tally);
                lemma_project_unpack_pack(tally.project);
            } else if index == 2 {
                assert(VoterView::from_bytes(before[2].data@) is Ok);
            }
        },
        QFInstruction::Withdraw => {
            if index == 0 {
                assert(RoundView::from_bytes(before[0].data@) is Ok);
            } else if index == 3 {
                lemma_project_unpack_pack(ProjectView { withdraw: true, ..earlier });
            }
        },
        QFInstruction::EndRound => {
            if index == 0 {
                assert(RoundView::from_bytes(before[0].data@) is Ok);
            }
        },
        QFInstruction::WithdrawFee => {
            if index == 0 {
                assert(RoundView::from_bytes(before[0].data@) is Ok);
            }
        },
    }
}

/// An instruction that is carried out leaves every contributor's record
/// created, with at least the votes that it had.
pub proof fn lemma_voter_stays_created(
    program_id: Seq<u8>,
    before: Seq<AccountInfo>,
    after: Seq<AccountInfo>,
    instruction: QFInstruction,
    rent: Rent,
    index: int,
)
    requires
        instruction_refusal(program_id, before, instruction, rent) is None,
        rewritten(before, after, instruction_writes(before, instruction)),
        0 <= index < before.len(),
        VoterView::created_from_bytes(before[index].data@) is Ok,
    ensures
        VoterView::created_from_bytes(after[index].data@) is Ok,
        voter_at(after, index).votes >= voter_at(before, index).votes,
{
    let earlier = VoterView::from_bytes(before[index].data@)->Ok_0;
    lemma_voter_pack_unpack(before[index].data@);
    assert(before[index].data@.len() == 41);
    match instruction {
        QFInstruction::StartRound => {},
        QFInstruction::Donate { amount, decimals } => {
            if index == 0 {
                assert(RoundView::from_bytes(before[0].data@) is Ok);
            }
        },
        QFInstruction::RegisterProject => {
            if index == 0 {
                assert(ProjectView::from_bytes(before[0].data@) is Ok);
            }
        },
        QFInstruction::InitVoter => {},
        QFInstruction::Vote { amount, decimals } => {
            if index == 0 {
                assert(RoundView::from_bytes(before[0].data@) is Ok);
            } else if index == 1 {
                assert(ProjectView::from_bytes(before[1].data@) is Ok);
            } else if index == 2 {
                let round = RoundView::from_bytes(before[0].data@)->Ok_0;
                let project = ProjectView::from_bytes(before[1].data@)->Ok_0;
                let tally = voted(round, project, earlier, amount)->Some_0;
                lemma_vote_moves_area(round, project, earlier, amount, tally);
                lemma_vote_squares(round, project, earlier, amount, tally);
                lemma_voter_unpack_pack(tally.voter);
            }
        },
        QFInstruction::Withdraw => {
            if index == 0 {
                assert(RoundView::from_bytes(before[0].data@) is Ok);
            } else if index == 3 {
                assert(ProjectView::from_bytes(before[3].data@) is Ok);
            }
        },
        QFInstruction::EndRound => {
            if index == 0 {
                assert(RoundView::from_bytes(before[0].data@) is Ok);
            }
        },
        QFInstruction::WithdrawFee => {
            if index == 0 {
                assert(RoundView::from_bytes(before[0].data@) is Ok);
            }
        },
    }
}

/// A round that has just been started holds nothing but its owner and its
/// vault: no fund, no fee owed and no area, whatever the fresh record held.
pub proof fn lemma_started_round_is_empty(
    program_id: Seq<u8>,
    before: Seq<AccountInfo>,
    after: Seq<AccountInfo>,
    rent: Rent,
    authority: Option<(Seq<u8>, u8)>,
)
    requires
        start_round_refusal(program_id, before, rent, authority) is None,
        rewritten(before, after, start_round_writes(before)),
    ensures
        RoundView::from_bytes(after[0].data@) is Ok,
        round_at(after, 0).status == RoundStatus::Ongoing,
        round_at(after, 0).fund == 0,
        round_at(after, 0).fee == 0,
        round_at(after, 0).area == 0,
        round_at(after, 0).owner == before[1].key@,
        round_at(after, 0).vault == before[4].key@,
{
    lemma_round_unpack_pack(
        RoundView {
            status: RoundStatus::Ongoing,
            fund: 0,
            fee: 0,
            vault: before[4].key@,
            owner: before[1].key@,
            area: 0,
        },
    );
}

/// A project that has just been registered holds nothing but its round and
/// its owner: no votes, no area and no square roots, whatever the fresh
/// record held. So its area is the square of its sum of square roots from
/// the start, and the first vote counts from nothing.
pub proof fn lemma_registered_project_is_empty(
    program_id: Seq<u8>,
    before: Seq<AccountInfo>,
    after: Seq<AccountInfo>,
    rent: Rent,
)
    requires
        register_project_refusal(program_id, before, rent) is None,
        rewritten(before, after, register_project_writes(before)),
    ensures
        ProjectView::from_bytes(after[0].data@) is Ok,
        project_at(after, 0).round == before[1].key@,
        project_at(after, 0).owner == before[2].key@,
        !project_at(after, 0).withdraw,
        project_at(after, 0).votes == 0,
        project_at(after, 0).area == 0,
        project_at(after, 0).area_sqrt == 0,
        project_at(after, 0).area == project_at(after, 0).area_sqrt * project_at(
            after,
            0,
        ).area_sqrt,
{
    lemma_project_unpack_pack(
        ProjectView {
            round: before[1].key@,
            owner: before[2].key@,
            withdraw: false,
            votes: 0,
            area: 0,
            area_sqrt: 0,
        },
    );
}

/// The registration of a project that has been carried out is refused when
/// it comes again, because the project has been registered already. The one
/// round of which this does not hold is a round at the all-zero address,
/// which no account of the program has: a project of it passes for one that
/// was never registered.
pub proof fn lemma_register_project_replay(
    program_id: Seq<u8>,
    before: Seq<AccountInfo>,
    after: Seq<AccountInfo>,
    rent: Rent,
)
    requires
        register_project_refusal(program_id, before, rent) is None,
        rewritten(before, after, register_project_writes(before)),
        before[1].key@ != zero_key(),
    ensures
        register_project_refusal(program_id, after, rent) == Some(
            ProgramError::AccountAlreadyInitialized,
        ),
{
    lemma_registered_project_is_empty(program_id, before, after, rent);
    assert(after[1].data@ == before[1].data@);
    assert(after[1].owner == before[1].owner);
    assert(after[1].key == before[1].key);
    assert(after[0].owner == before[0].owner);
    assert(after[3].key == before[3].key);
}

/// A withdrawal, of a project or of the fees, moves tokens out of the
/// round's vault and out of no other account, at the word of the address that
/// the program signs for under the round.
pub proof fn lemma_withdrawals_leave_from_the_vault(
    program_id: Seq<u8>,
    accounts: Seq<AccountInfo>,
    authority: Option<(Seq<u8>, u8)>,
)
    ensures
        withdraw_refusal(program_id, accounts, authority) is None ==> accounts[1].key@
            == round_vault(accounts) && accounts[2].key@ == authority->Some_0.0,
        withdraw_fee_refusal(program_id, accounts, authority) is None ==> accounts[2].key@
            == round_vault(accounts) && accounts[3].key@ == authority->Some_0.0,
{
}

} // verus!
