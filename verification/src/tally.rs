//! The arithmetic of a round: what a vote does to the areas, and what a
//! project is paid when the round is over.
//!
//! A project's `area_sqrt` is the sum, over its contributors, of the square
//! root of what each has contributed; its `area` is the square of that sum;
//! the round's `area` is the sum of its projects' areas. A vote replaces one
//! contributor's square root in the sum and never walks over the others.

use crate::precise::{option_precise, precise_pow, precise_sqrt, scaled, PreciseNumber};
use crate::state::{Project, ProjectView, Round, RoundView, Voter, VoterView};
use crate::uint::{u256_limit, U256};
use vstd::prelude::*;

verus! {

/// The three records after a vote.
#[derive(Clone, Copy, Debug, PartialEq, Eq)]
pub struct Tally {
    pub round: Round,
    pub project: Project,
    pub voter: Voter,
}

/// What a `Tally` holds.
pub struct TallyView {
    pub round: RoundView,
    pub project: ProjectView,
    pub voter: VoterView,
}

impl View for Tally {
    type V = TallyView;

    open spec fn view(&self) -> TallyView {
        TallyView { round: self.round@, project: self.project@, voter: self.voter@ }
    }
}

/// The view of an optional tally.
pub open spec fn option_tally(tally: Option<Tally>) -> Option<TallyView> {
    match tally {
        Some(t) => Some(t@),
        None => None,
    }
}

/// The project's sum of square roots once the contributor's old square root
/// has been taken out and the new one put in; `None` where the old one is
/// larger than the sum or the new sum does not fit in 256 bits.
pub open spec fn replaced_root(area_sqrt: nat, old_votes_sqrt: nat, votes_sqrt: nat) -> Option<
    nat,
> {
    if old_votes_sqrt <= area_sqrt && area_sqrt - old_votes_sqrt + votes_sqrt < u256_limit() {
        Some((area_sqrt - old_votes_sqrt + votes_sqrt) as nat)
    } else {
        None
    }
}

/// The records after a vote of `amount`, given the contributor's new square
/// root and the project's new sum of square roots and area; `None` where a
/// count of votes leaves 64 bits, the project's old area is larger than the
/// round's, or the round's new area does not fit in 256 bits.
pub open spec fn settled(
    round: RoundView,
    project: ProjectView,
    voter: VoterView,
    amount: u64,
    votes_sqrt: nat,
    area_sqrt: nat,
    area: nat,
) -> Option<TallyView> {
    if voter.votes + amount <= u64::MAX && project.votes + amount <= u64::MAX && project.area
        <= round.area && round.area - project.area + area < u256_limit() {
        Some(
            TallyView {
                round: RoundView { area: (round.area - project.area + area) as nat, ..round },
                project: ProjectView {
                    votes: (project.votes + amount) as u64,
                    area,
                    area_sqrt,
                    ..project
                },
                voter: VoterView { votes: (voter.votes + amount) as u64, votes_sqrt, ..voter },
            },
        )
    } else {
        None
    }
}

/// The records after a vote of `amount`: the contributor's square root is
/// that of the new sum of the contributions, the project's area the square
/// of its new sum of square roots, both in fixed precision. `None` where a
/// number leaves its range on the way.
pub open spec fn voted(
    round: RoundView,
    project: ProjectView,
    voter: VoterView,
    amount: u64,
) -> Option<TallyView> {
    if voter.votes + amount > u64::MAX {
        None
    } else {
        match precise_sqrt(scaled(voter.votes as nat + amount as nat)) {
            None => None,
            Some(votes_sqrt) => match replaced_root(
                project.area_sqrt,
                voter.votes_sqrt,
                votes_sqrt,
            ) {
                None => None,
                Some(area_sqrt) => match precise_pow(area_sqrt, 2) {
                    None => None,
                    Some(area) => settled(
                        round,
                        project,
                        voter,
                        amount,
                        votes_sqrt,
                        area_sqrt,
                        area,
                    ),
                },
            },
        }
    }
}

/// The project's sum of square roots with `old_votes_sqrt` replaced by
/// `votes_sqrt`.
pub fn replace_root(
    area_sqrt: &PreciseNumber,
    old_votes_sqrt: &PreciseNumber,
    votes_sqrt: &PreciseNumber,
) -> (replaced: Option<PreciseNumber>)
    ensures
        option_precise(replaced) == replaced_root(area_sqrt@, old_votes_sqrt@, votes_sqrt@),
{
    match area_sqrt.checked_sub(old_votes_sqrt) {
        None => None,
        Some(rest) => rest.checked_add(votes_sqrt),
    }
}

/// The records after a vote of `amount`, given the contributor's new square
/// root and the project's new sum of square roots and area.
pub fn settle_vote(
    round: &Round,
    project: &Project,
    voter: &Voter,
    amount: u64,
    votes_sqrt: U256,
    area_sqrt: U256,
    area: U256,
) -> (tally: Option<Tally>)
    ensures
        option_tally(tally) == settled(
            round@,
            project@,
            voter@,
            amount,
            votes_sqrt@,
            area_sqrt@,
            area@,
        ),
{
    let voter_votes = match voter.votes.checked_add(amount) {
        Some(votes) => votes,
        None => {
            return None;
        },
    };
    let project_votes = match project.votes.checked_add(amount) {
        Some(votes) => votes,
        None => {
            return None;
        },
    };
    let others = match round.area.checked_sub(&project.area) {
        Some(others) => others,
        None => {
            return None;
        },
    };
    let round_area = match others.checked_add(&area) {
        Some(round_area) => round_area,
        None => {
            return None;
        },
    };
    Some(
        Tally {
            round: Round {
                status: round.status,
                fund: round.fund,
                fee: round.fee,
                vault: round.vault,
                owner: round.owner,
                area: round_area,
            },
            project: Project {
                round: project.round,
                owner: project.owner,
                withdraw: project.withdraw,
                votes: project_votes,
                area,
                area_sqrt,
            },
            voter: Voter { is_initialized: voter.is_initialized, votes: voter_votes, votes_sqrt },
        },
    )
}

/// The records after a vote of `amount`.
pub fn cast_vote(round: &Round, project: &Project, voter: &Voter, amount: u64) -> (tally: Option<
    Tally,
>)
    ensures
        option_tally(tally) == voted(round@, project@, voter@, amount),
{
    let votes = match voter.votes.checked_add(amount) {
        Some(votes) => votes,
        None => {
            return None;
        },
    };
    let votes_sqrt = match PreciseNumber::from_u64(votes).sqrt() {
        Some(root) => root,
        None => {
            return None;
        },
    };
    let area_sqrt = match replace_root(
        &PreciseNumber { value: project.area_sqrt },
        &PreciseNumber { value: voter.votes_sqrt },
        &votes_sqrt,
    ) {
        Some(area_sqrt) => area_sqrt,
        None => {
            return None;
        },
    };
    let area = match area_sqrt.checked_pow(2) {
        Some(area) => area,
        None => {
            return None;
        },
    };
    settle_vote(round, project, voter, amount, votes_sqrt.value, area_sqrt.value, area.value)
}

/// What a project is paid, and what is kept of it as a fee.
#[derive(Clone, Copy, Debug, PartialEq, Eq, Structural)]
pub struct Payout {
    /// What the project receives.
    pub amount: u64,
    /// What the round keeps for its owner.
    pub fee: u64,
}

/// The fund times the project's area over the round's, rounded down; nothing
/// where the round has no area.
pub open spec fn share_of(fund: u64, project_area: nat, round_area: nat) -> nat {
    if round_area != 0 {
        (fund as nat) * project_area / round_area
    } else {
        0
    }
}

/// The project's share of the fund. `None` where the round has no area or
/// the fund times the project's area does not fit in 256 bits.
pub open spec fn matched(fund: u64, project_area: nat, round_area: nat) -> Option<nat> {
    if round_area != 0 && fund * project_area < u256_limit() {
        Some(share_of(fund, project_area, round_area))
    } else {
        None
    }
}

/// The fee on `gross`: five hundredths, rounded down.
pub open spec fn fee_of(gross: nat) -> nat {
    (gross * 5 / 100) as nat
}

/// What a project with `votes` and `project_area` is paid from a round with
/// `fund` and `round_area`: its votes and its share of the fund, less the
/// fee. `None` where the share is not defined, or the sum or five times the
/// sum leaves 64 bits.
pub open spec fn payout_of(fund: u64, votes: u64, project_area: nat, round_area: nat) -> Option<
    Payout,
> {
    match matched(fund, project_area, round_area) {
        None => None,
        Some(share) => if (votes + share) * 5 <= u64::MAX {
            Some(
                Payout {
                    amount: (votes + share - fee_of(votes as nat + share)) as u64,
                    fee: fee_of(votes as nat + share) as u64,
                },
            )
        } else {
            None
        },
    }
}

/// What `project` is paid from `round`.
pub fn payout(round: &Round, project: &Project) -> (paid: Option<Payout>)
    ensures
        paid == payout_of(round@.fund, project@.votes, project@.area, round@.area),
{
    let fund = U256::from_u64(round.fund);
    let product = match fund.checked_mul(&project.area) {
        Some(product) => product,
        None => {
            return None;
        },
    };
    let share = match product.checked_div(&round.area) {
        Some(share) => share,
        None => {
            return None;
        },
    };
    let share = match share.to_u64() {
        Some(share) => share,
        None => {
            return None;
        },
    };
    let gross = match project.votes.checked_add(share) {
        Some(gross) => gross,
        None => {
            return None;
        },
    };
    let fee = match gross.checked_mul(5) {
        Some(scaled) => scaled / 100,
        None => {
            return None;
        },
    };
    Some(Payout { amount: gross - fee, fee })
}

/// After a vote the project's area is the square of its sum of square roots,
/// and the contributor's square root is that of the sum of the contributions,
/// both as fixed precision has them. The sum of square roots has lost the
/// contributor's old square root and gained the new one, and nothing else.
pub proof fn lemma_vote_squares(
    round: RoundView,
    project: ProjectView,
    voter: VoterView,
    amount: u64,
    after: TallyView,
)
    requires
        voted(round, project, voter, amount) == Some(after),
    ensures
        precise_pow(after.project.area_sqrt, 2) == Some(after.project.area),
        precise_sqrt(scaled(after.voter.votes as nat)) == Some(after.voter.votes_sqrt),
        after.voter.votes == voter.votes + amount,
        after.project.votes == project.votes + amount,
        after.project.area_sqrt + voter.votes_sqrt == project.area_sqrt + after.voter.votes_sqrt,
{
}

/// A vote moves the round's area by what it moves the project's area, and
/// leaves everything else in the round and the project as it was.
pub proof fn lemma_vote_moves_area(
    round: RoundView,
    project: ProjectView,
    voter: VoterView,
    amount: u64,
    after: TallyView,
)
    requires
        voted(round, project, voter, amount) == Some(after),
    ensures
        after.round.area + project.area == round.area + after.project.area,
        after.round == (RoundView { area: after.round.area, ..round }),
        after.project == (ProjectView {
            votes: after.project.votes,
            area: after.project.area,
            area_sqrt: after.project.area_sqrt,
            ..project
        }),
        after.voter.is_initialized == voter.is_initialized,
        after.round.area < u256_limit(),
        after.project.area < u256_limit(),
        after.project.area_sqrt < u256_limit(),
        after.voter.votes_sqrt < u256_limit(),
{
}

/// A round with its projects and their contributors.
pub struct Ledger {
    pub round: RoundView,
    pub projects: Seq<ProjectView>,
    pub voters: Seq<VoterView>,
}

/// One vote on a ledger: which project, which contributor, how much.
pub struct Ballot {
    pub project: int,
    pub voter: int,
    pub amount: u64,
}

/// The sum of the areas of `projects`.
pub open spec fn total_area(projects: Seq<ProjectView>) -> nat
    decreases projects.len(),
{
    if projects.len() == 0 {
        0
    } else {
        total_area(projects.drop_last()) + projects.last().area
    }
}

/// The round's area is the sum of its projects' areas.
pub open spec fn balanced(ledger: Ledger) -> bool {
    ledger.round.area == total_area(ledger.projects)
}

/// The ledger after `ballot`. A ballot that names no project or contributor
/// of the ledger, or whose vote is refused, leaves the ledger as it was.
pub open spec fn ballot_cast(ledger: Ledger, ballot: Ballot) -> Ledger {
    if 0 <= ballot.project < ledger.projects.len() && 0 <= ballot.voter < ledger.voters.len() {
        match voted(
            ledger.round,
            ledger.projects[ballot.project],
            ledger.voters[ballot.voter],
            ballot.amount,
        ) {
            Some(after) => Ledger {
                round: after.round,
                projects: ledger.projects.update(ballot.project, after.project),
                voters: ledger.voters.update(ballot.voter, after.voter),
            },
            None => ledger,
        }
    } else {
        ledger
    }
}

/// The ledger after `ballots`, in order.
pub open spec fn ballots_cast(ledger: Ledger, ballots: Seq<Ballot>) -> Ledger
    decreases ballots.len(),
{
    if ballots.len() == 0 {
        ledger
    } else {
        ballot_cast(ballots_cast(ledger, ballots.drop_last()), ballots.last())
    }
}

/// Replacing one project moves the sum of the areas by what the project's
/// area moves.
pub proof fn lemma_total_area_update(projects: Seq<ProjectView>, index: int, project: ProjectView)
    requires
        0 <= index < projects.len(),
    ensures
        total_area(projects.update(index, project)) + projects[index].area == total_area(
            projects,
        ) + project.area,
    decreases projects.len(),
{
    let updated = projects.update(index, project);
    if index == projects.len() - 1 {
        assert(updated.drop_last() =~= projects.drop_last());
    } else {
        lemma_total_area_update(projects.drop_last(), index, project);
        assert(updated.drop_last() =~= projects.drop_last().update(index, project));
    }
}

/// A vote keeps a balanced ledger balanced.
pub proof fn lemma_ballot_keeps_balance(ledger: Ledger, ballot: Ballot)
    requires
        balanced(ledger),
    ensures
        balanced(ballot_cast(ledger, ballot)),
{
    if 0 <= ballot.project < ledger.projects.len() && 0 <= ballot.voter < ledger.voters.len() {
        let project = ledger.projects[ballot.project];
        let voter = ledger.voters[ballot.voter];
        if let Some(after) = voted(ledger.round, project, voter, ballot.amount) {
            lemma_vote_moves_area(ledger.round, project, voter, ballot.amount, after);
            lemma_total_area_update(ledger.projects, ballot.project, after.project);
        }
    }
}

/// After every vote of any sequence of votes, the round's area is the sum of
/// its projects' areas, if it was so before the first.
pub proof fn lemma_ballots_keep_balance(ledger: Ledger, ballots: Seq<Ballot>)
    requires
        balanced(ledger),
    ensures
        balanced(ballots_cast(ledger, ballots)),
        forall|n: int|
            0 <= n <= ballots.len() ==> balanced(
                #[trigger] ballots_cast(ledger, ballots.subrange(0, n)),
            ),
    decreases ballots.len(),
{
    if ballots.len() == 0 {
        assert forall|n: int| 0 <= n <= ballots.len() implies balanced(
            #[trigger] ballots_cast(ledger, ballots.subrange(0, n)),
        ) by {
            assert(ballots.subrange(0, n) =~= ballots);
        }
    } else {
        let earlier = ballots.drop_last();
        lemma_ballots_keep_balance(ledger, earlier);
        lemma_ballot_keeps_balance(ballots_cast(ledger, earlier), ballots.last());
        assert forall|n: int| 0 <= n <= ballots.len() implies balanced(
            #[trigger] ballots_cast(ledger, ballots.subrange(0, n)),
        ) by {
            if n == ballots.len() {
                assert(ballots.subrange(0, n) =~= ballots);
            } else {
                assert(ballots.subrange(0, n) =~= earlier.subrange(0, n));
            }
        }
    }
}

/// The ledger with one more project.
pub open spec fn registered(ledger: Ledger, project: ProjectView) -> Ledger {
    Ledger { projects: ledger.projects.push(project), ..ledger }
}

/// A project that is registered has no area, and so leaves a balanced ledger
/// balanced when it joins it.
pub proof fn lemma_registration_keeps_balance(ledger: Ledger, project: ProjectView)
    requires
        balanced(ledger),
        project.area == 0,
    ensures
        balanced(registered(ledger, project)),
{
    assert(ledger.projects.push(project).drop_last() =~= ledger.projects);
}

/// The sum of the votes of `projects`.
pub open spec fn total_votes(projects: Seq<ProjectView>) -> nat
    decreases projects.len(),
{
    if projects.len() == 0 {
        0
    } else {
        total_votes(projects.drop_last()) + projects.last().votes as nat
    }
}

/// The sum of the shares of the fund that `projects` are paid.
pub open spec fn total_matched(fund: u64, projects: Seq<ProjectView>, round_area: nat) -> nat
    decreases projects.len(),
{
    if projects.len() == 0 {
        0
    } else {
        total_matched(fund, projects.drop_last(), round_area) + share_of(
            fund,
            projects.last().area,
            round_area,
        )
    }
}

/// The sum of what `projects` receive and of the fees kept of it.
pub open spec fn total_paid(fund: u64, projects: Seq<ProjectView>, round_area: nat) -> nat
    decreases projects.len(),
{
    if projects.len() == 0 {
        0
    } else {
        let last = projects.last();
        total_paid(fund, projects.drop_last(), round_area) + (match payout_of(
            fund,
            last.votes,
            last.area,
            round_area,
        ) {
            Some(paid) => (paid.amount + paid.fee) as nat,
            None => 0,
        })
    }
}

/// What a project receives and the fee kept of it are together its votes and
/// its share of the fund, and the fee is five hundredths of that, rounded
/// down.
pub proof fn lemma_payout_parts(
    fund: u64,
    votes: u64,
    project_area: nat,
    round_area: nat,
    paid: Payout,
)
    requires
        payout_of(fund, votes, project_area, round_area) == Some(paid),
    ensures
        round_area != 0,
        paid.amount + paid.fee == votes + share_of(fund, project_area, round_area),
        paid.fee == (paid.amount + paid.fee) * 5 / 100,
{
}

/// The shares of the fund, each rounded down, come to no more than the part
/// of the fund that the projects' areas are of the round's area.
proof fn lemma_total_matched_bound(fund: u64, projects: Seq<ProjectView>, round_area: nat)
    requires
        round_area > 0,
    ensures
        total_matched(fund, projects, round_area) * round_area <= (fund as nat) * total_area(
            projects,
        ),
    decreases projects.len(),
{
    let f = fund as nat;
    let all = total_matched(fund, projects, round_area);
    if projects.len() == 0 {
        assert(all * round_area <= f * total_area(projects)) by (nonlinear_arith)
            requires
                all == 0,
                total_area(projects) == 0,
        ;
    } else {
        let earlier = projects.drop_last();
        let area = projects.last().area;
        lemma_total_matched_bound(fund, earlier, round_area);
        let before = total_matched(fund, earlier, round_area);
        let areas = total_area(earlier);
        let share = share_of(fund, area, round_area);
        assert(all == before + share);
        assert(total_area(projects) == areas + area);
        assert((before + share) * round_area <= f * (areas + area)) by (nonlinear_arith)
            requires
                share == f * area / round_area,
                round_area > 0,
                before * round_area <= f * areas,
        ;
    }
}

/// The shares of the fund that are paid to the projects of a round never come
/// to more than the fund, where the projects' areas come to no more than the
/// round's area.
pub proof fn lemma_matched_within_fund(fund: u64, projects: Seq<ProjectView>, round_area: nat)
    requires
        round_area > 0,
        total_area(projects) <= round_area,
    ensures
        total_matched(fund, projects, round_area) <= fund,
{
    lemma_total_matched_bound(fund, projects, round_area);
    let m = total_matched(fund, projects, round_area);
    let a = total_area(projects);
    let f = fund as nat;
    assert(m <= f) by (nonlinear_arith)
        requires
            m * round_area <= f * a,
            a <= round_area,
            round_area > 0,
    ;
}

/// What the projects receive and the fees kept of it are together no more
/// than their votes and their shares of the fund.
proof fn lemma_total_paid_bound(fund: u64, projects: Seq<ProjectView>, round_area: nat)
    ensures
        total_paid(fund, projects, round_area) <= total_votes(projects) + total_matched(
            fund,
            projects,
            round_area,
        ),
    decreases projects.len(),
{
    if projects.len() > 0 {
        let last = projects.last();
        let earlier = projects.drop_last();
        lemma_total_paid_bound(fund, earlier, round_area);
        if let Some(paid) = payout_of(fund, last.votes, last.area, round_area) {
            lemma_payout_parts(fund, last.votes, last.area, round_area, paid);
        }
        let share = share_of(fund, last.area, round_area);
        assert(total_matched(fund, projects, round_area) == total_matched(
            fund,
            earlier,
            round_area,
        ) + share);
        assert(total_votes(projects) == total_votes(earlier) + last.votes);
        let paid: nat = match payout_of(fund, last.votes, last.area, round_area) {
            Some(paid) => (paid.amount + paid.fee) as nat,
            None => 0,
        };
        assert(total_paid(fund, projects, round_area) == total_paid(fund, earlier, round_area)
            + paid);
        assert(paid <= last.votes + share);
    }
}

/// No value is made of nothing: whatever the projects of a round withdraw,
/// what they receive and the fees kept of it come to no more than the fund
/// and the votes that the vault took in.
pub proof fn lemma_payouts_conserve(round: RoundView, projects: Seq<ProjectView>)
    requires
        round.area > 0,
        total_area(projects) <= round.area,
    ensures
        total_paid(round.fund, projects, round.area) <= round.fund + total_votes(projects),
{
    lemma_total_paid_bound(round.fund, projects, round.area);
    lemma_matched_within_fund(round.fund, projects, round.area);
}

/// Where no project holds votes, what the projects receive and the fees kept
/// of it come to no more than the fund.
pub proof fn lemma_payouts_within_fund(round: RoundView, projects: Seq<ProjectView>)
    requires
        round.area > 0,
        total_area(projects) <= round.area,
        total_votes(projects) == 0,
    ensures
        total_paid(round.fund, projects, round.area) <= round.fund,
{
    lemma_payouts_conserve(round, projects);
}

} // verus!
