use crate::ballot::{vote_outcome, Vote};
use crate::error::TimeStakerError;
use crate::events::{GoalCreated, GoalFinalized, ProofSubmitted, VoteCast};
use crate::goal::{
    create_goal_fits, create_goal_outcome, submit_proof_outcome, CreateGoal, GoalStatus, ProofType,
    SubmitProof,
};
use crate::identity::Identity;
use crate::judge::{withdraw_judge_stake_outcome, WithdrawJudgeStake};
use crate::model::{LedgerError, LedgerView, Request};
use crate::reputation::{
    update_judge_reputation_fits, update_judge_reputation_outcome, UpdateJudgeReputation,
};
use crate::rules::{MAX_TEXT_LEN, MIN_GOAL_STAKE};
use crate::settlement::{
    finalize_goal_fits, finalize_goal_outcome, goal_succeeds, payout_account_refusal, FinalizeGoal,
};
use crate::transfer::{Holder, Transfer};
use vstd::prelude::*;

verus! {

/// Creating a goal with a stake of at least the minimum, a deadline in the
/// future and a description within the limit always succeeds, and the order
/// it hands back raises the balance of the goal's custody by exactly the
/// stake, at the creator's cost.
pub proof fn law_create_goal_locks_the_stake(
    before: CreateGoal,
    after: CreateGoal,
    goal_id: u64,
    description: Seq<char>,
    stake_amount: u64,
    deadline: i64,
    now: i64,
    result: Result<(GoalCreated, Transfer), TimeStakerError>,
    custody_balance: int,
    creator_balance: int,
)
    requires
        create_goal_outcome(
            before,
            after,
            goal_id,
            description,
            stake_amount,
            deadline,
            now,
            result,
        ),
        stake_amount >= MIN_GOAL_STAKE,
        deadline > now,
        description.len() <= MAX_TEXT_LEN,
    ensures
        result matches Ok((_, transfer)) && {
            &&& transfer.balance_after(Holder::GoalEscrow(goal_id), custody_balance)
                == custody_balance + stake_amount
            &&& transfer.balance_after(Holder::Wallet(before.creator), creator_balance)
                == creator_balance - stake_amount
        },
        after.goal@.stake_amount == stake_amount,
        after.goal@.status == GoalStatus::Active,
{
}

/// After the deadline no proof is accepted, whatever the goal's status and
/// whoever asks, and the goal stays as it was. The creator is refused with
/// `DeadlinePassed`, whatever the status; anyone else with `Unauthorized`.
pub proof fn law_no_proof_after_the_deadline(
    before: SubmitProof,
    after: SubmitProof,
    proof_data: Seq<char>,
    proof_type: ProofType,
    now: i64,
    result: Result<ProofSubmitted, TimeStakerError>,
)
    requires
        submit_proof_outcome(before, after, proof_data, proof_type, now, result),
        now > before.goal.deadline,
    ensures
        after == before,
        result == Err::<ProofSubmitted, TimeStakerError>(
            if before.goal.creator == before.creator {
                TimeStakerError::DeadlinePassed
            } else {
                TimeStakerError::Unauthorized
            },
        ),
{
}

/// A judge that is not active cannot vote: the request is refused and
/// nothing changes. The refusal is `JudgeNotActive` where the goal awaits
/// the judges and its voting window is open.
pub proof fn law_inactive_judge_cannot_vote(
    before: Vote,
    after: Vote,
    in_favour: bool,
    now: i64,
    result: Result<VoteCast, TimeStakerError>,
)
    requires
        vote_outcome(before, after, in_favour, now, result),
        !before.judge.is_active,
    ensures
        result is Err,
        after == before,
        before.goal.status == GoalStatus::PendingVerification && now <= before.goal.voting_deadline
            ==> result == Err::<VoteCast, TimeStakerError>(TimeStakerError::JudgeNotActive),
{
}

/// Settling a goal whose tally reaches the threshold completes it and
/// orders 110 percent of the stake, rounded down, from the goal's custody
/// to its creator; the registry stays as it was. Settling any other goal
/// fails it, moves nothing, and adds the stake to the reward pool.
pub proof fn law_settlement_pays_or_forfeits(
    before: FinalizeGoal,
    after: FinalizeGoal,
    now: i64,
    result: Result<(GoalFinalized, Option<Transfer>), TimeStakerError>,
    creator_balance: int,
)
    requires
        finalize_goal_outcome(before, after, now, result),
        finalize_goal_fits(before.goal@, before.global_state),
        result is Ok,
    ensures
        goal_succeeds(before.goal@) ==> {
            &&& after.goal.status == GoalStatus::Completed
            &&& after.global_state == before.global_state
            &&& result->Ok_0.1 matches Some(transfer) && {
                &&& transfer.from == Holder::GoalEscrow(before.goal.goal_id)
                &&& transfer.balance_after(Holder::Wallet(before.goal.creator), creator_balance)
                    == creator_balance + before.goal.stake_amount * 110 / 100
            }
        },
        !goal_succeeds(before.goal@) ==> {
            &&& after.goal.status == GoalStatus::Failed
            &&& after.global_state.reward_pool == before.global_state.reward_pool
                + before.goal.stake_amount
            &&& result->Ok_0.1 is None
        },
        after.goal.finalized_at == Some(now),
{
}

/// The payout of a completed goal can be handed to the goal's creator and to
/// nobody else.
pub proof fn law_payout_goes_to_the_creator(
    before: FinalizeGoal,
    after: FinalizeGoal,
    now: i64,
    result: Result<(GoalFinalized, Option<Transfer>), TimeStakerError>,
    account: Identity,
)
    requires
        finalize_goal_outcome(before, after, now, result),
        result matches Ok((_, Some(_))),
    ensures
        payout_account_refusal(result->Ok_0.1->Some_0, account) is None <==> account
            == before.goal.creator,
{
}

/// A goal is settled once: after a settlement that was accepted, every
/// further request to settle the same goal is refused with
/// `InvalidGoalStatus` and changes nothing.
pub proof fn law_settlement_happens_once(
    before: FinalizeGoal,
    settled: FinalizeGoal,
    again: FinalizeGoal,
    now: i64,
    later: i64,
    first: Result<(GoalFinalized, Option<Transfer>), TimeStakerError>,
    second: Result<(GoalFinalized, Option<Transfer>), TimeStakerError>,
)
    requires
        finalize_goal_outcome(before, settled, now, first),
        first is Ok,
        finalize_goal_outcome(settled, again, later, second),
    ensures
        second == Err::<(GoalFinalized, Option<Transfer>), TimeStakerError>(
            TimeStakerError::InvalidGoalStatus,
        ),
        again == settled,
{
}

/// Scoring a vote on a completed goal: a judge who voted in favour gains
/// ten reputation, to at most 2000, and one correct vote; a judge who voted
/// against loses twenty reputation, to at least 100, and gains no correct
/// vote. Either way one more vote is counted.
pub proof fn law_reputation_follows_a_completed_goal(
    before: UpdateJudgeReputation,
    after: UpdateJudgeReputation,
    result: Result<(), TimeStakerError>,
)
    requires
        update_judge_reputation_outcome(before, after, result),
        before.goal.status == GoalStatus::Completed,
        update_judge_reputation_fits(
            before.judge,
            before.vote_record.vote,
            before.goal.status,
        ),
    ensures
        result is Ok,
        after.judge.total_votes == before.judge.total_votes + 1,
        before.vote_record.vote ==> {
            &&& after.judge.correct_votes == before.judge.correct_votes + 1
            &&& after.judge.reputation_score == if before.judge.reputation_score + 10 <= 2000 {
                before.judge.reputation_score + 10
            } else {
                2000
            }
        },
        !before.vote_record.vote ==> {
            &&& after.judge.correct_votes == before.judge.correct_votes
            &&& after.judge.reputation_score == if before.judge.reputation_score - 20 >= 100 {
                before.judge.reputation_score - 20
            } else {
                100
            }
        },
{
}

/// Scoring a vote on a failed goal mirrors the completed case: a judge who
/// voted against gains, a judge who voted in favour loses.
pub proof fn law_reputation_follows_a_failed_goal(
    before: UpdateJudgeReputation,
    after: UpdateJudgeReputation,
    result: Result<(), TimeStakerError>,
)
    requires
        update_judge_reputation_outcome(before, after, result),
        before.goal.status == GoalStatus::Failed,
        update_judge_reputation_fits(
            before.judge,
            before.vote_record.vote,
            before.goal.status,
        ),
    ensures
        result is Ok,
        after.judge.total_votes == before.judge.total_votes + 1,
        !before.vote_record.vote ==> {
            &&& after.judge.correct_votes == before.judge.correct_votes + 1
            &&& after.judge.reputation_score == if before.judge.reputation_score + 10 <= 2000 {
                before.judge.reputation_score + 10
            } else {
                2000
            }
        },
        before.vote_record.vote ==> {
            &&& after.judge.correct_votes == before.judge.correct_votes
            &&& after.judge.reputation_score == if before.judge.reputation_score - 20 >= 100 {
                before.judge.reputation_score - 20
            } else {
                100
            }
        },
{
}

/// An accepted withdrawal orders the judge's whole stake from the judge's
/// custody back to the judge and leaves the judge inactive.
pub proof fn law_withdrawal_returns_the_whole_stake(
    before: WithdrawJudgeStake,
    after: WithdrawJudgeStake,
    result: Result<Transfer, TimeStakerError>,
    judge_balance: int,
    custody_balance: int,
)
    requires
        withdraw_judge_stake_outcome(before, after, result),
        result is Ok,
    ensures
        !after.judge.is_active,
        after.judge.stake_amount == before.judge.stake_amount,
        result->Ok_0.amount == before.judge.stake_amount,
        result->Ok_0.balance_after(Holder::Wallet(before.judge.judge), judge_balance)
            == judge_balance + before.judge.stake_amount,
        result->Ok_0.balance_after(Holder::JudgeEscrow(before.judge.judge), custody_balance)
            == custody_balance - before.judge.stake_amount,
{
}

/// A withdrawal is final. After one that was accepted, the judge cannot
/// withdraw again: the judge's own request is refused with
/// `JudgeNotActive`, anyone else's with `Unauthorized`.
pub proof fn law_no_second_withdrawal(
    before: WithdrawJudgeStake,
    withdrawn: WithdrawJudgeStake,
    first: Result<Transfer, TimeStakerError>,
    again_before: WithdrawJudgeStake,
    again_after: WithdrawJudgeStake,
    second: Result<Transfer, TimeStakerError>,
)
    requires
        withdraw_judge_stake_outcome(before, withdrawn, first),
        first is Ok,
        again_before.judge == withdrawn.judge,
        withdraw_judge_stake_outcome(again_before, again_after, second),
    ensures
        second is Err,
        again_after == again_before,
        again_before.judge_authority == withdrawn.judge_authority ==> second == Err::<
            Transfer,
            TimeStakerError,
        >(TimeStakerError::JudgeNotActive),
{
}

/// After a withdrawal that was accepted, the judge cannot vote on any goal
/// at any time: the request is refused and nothing changes.
pub proof fn law_no_vote_after_withdrawal(
    before: WithdrawJudgeStake,
    withdrawn: WithdrawJudgeStake,
    first: Result<Transfer, TimeStakerError>,
    ballot_before: Vote,
    ballot_after: Vote,
    in_favour: bool,
    now: i64,
    second: Result<VoteCast, TimeStakerError>,
)
    requires
        withdraw_judge_stake_outcome(before, withdrawn, first),
        first is Ok,
        ballot_before.judge == withdrawn.judge,
        vote_outcome(ballot_before, ballot_after, in_favour, now, second),
    ensures
        second is Err,
        ballot_after == ballot_before,
        ballot_before.goal.status == GoalStatus::PendingVerification && now
            <= ballot_before.goal.voting_deadline ==> second == Err::<VoteCast, TimeStakerError>(
            TimeStakerError::JudgeNotActive,
        ),
{
}

/// A goal only moves forward. Proof moves an active goal to
/// `PendingVerification`; a vote leaves the status alone; a settlement moves
/// a pending goal to `Completed` or `Failed`. None of them moves a goal to
/// `Cancelled`, and none changes what was fixed at creation: the creator,
/// the id, the description, the stake, the deadline and the close of the
/// voting window.
pub proof fn law_goal_only_moves_forward(
    proof_before: SubmitProof,
    proof_after: SubmitProof,
    proof_data: Seq<char>,
    proof_type: ProofType,
    ballot_before: Vote,
    ballot_after: Vote,
    in_favour: bool,
    settle_before: FinalizeGoal,
    settle_after: FinalizeGoal,
    now: i64,
    proof_result: Result<ProofSubmitted, TimeStakerError>,
    ballot_result: Result<VoteCast, TimeStakerError>,
    settle_result: Result<(GoalFinalized, Option<Transfer>), TimeStakerError>,
)
    requires
        submit_proof_outcome(proof_before, proof_after, proof_data, proof_type, now, proof_result),
        vote_outcome(ballot_before, ballot_after, in_favour, now, ballot_result),
        finalize_goal_outcome(settle_before, settle_after, now, settle_result),
    ensures
        proof_result is Ok ==> proof_before.goal.status == GoalStatus::Active
            && proof_after.goal.status == GoalStatus::PendingVerification,
        proof_result is Err ==> proof_after.goal.status == proof_before.goal.status,
        ballot_after.goal.status == ballot_before.goal.status,
        settle_result is Ok ==> settle_before.goal.status == GoalStatus::PendingVerification
            && settle_after.goal.status.is_settled(),
        settle_result is Err ==> settle_after.goal.status == settle_before.goal.status,
        proof_after.goal@.same_terms(proof_before.goal@),
        ballot_after.goal@.same_terms(ballot_before.goal@),
        settle_after.goal@.same_terms(settle_before.goal@),
{
}

/// On the ledger, a goal is created whenever the registry is set up, the id
/// is free, the stake is at least the minimum, the deadline lies in the
/// future, the description is within the limit, the numbers fit and the
/// creator can pay. Creating it raises the balance of the goal's custody by
/// exactly the stake and lowers the creator's by as much; the goal is on
/// record as active.
pub proof fn law_ledger_create_goal_locks_the_stake(
    ledger: LedgerView,
    creator: Identity,
    goal_id: u64,
    description: Seq<char>,
    stake_amount: u64,
    deadline: i64,
    now: i64,
)
    requires
        ledger.registry is Some,
        !ledger.goals.dom().contains(goal_id),
        stake_amount >= MIN_GOAL_STAKE,
        deadline > now,
        description.len() <= MAX_TEXT_LEN,
        create_goal_fits(ledger.registry->Some_0, deadline),
        ledger.transfer_refusal(LedgerView::goal_stake_order(creator, goal_id, stake_amount))
            is None,
    ensures
        ledger.create_goal_refusal(creator, goal_id, description, stake_amount, deadline, now)
            is None,
        ({
            let after = ledger.after_create_goal(
                creator,
                goal_id,
                description,
                stake_amount,
                deadline,
                now,
            );
            &&& after.balance_of(Holder::GoalEscrow(goal_id)) == ledger.balance_of(
                Holder::GoalEscrow(goal_id),
            ) + stake_amount
            &&& after.balance_of(Holder::Wallet(creator)) == ledger.balance_of(
                Holder::Wallet(creator),
            ) - stake_amount
            &&& after.goals.dom().contains(goal_id)
            &&& after.goals[goal_id].status == GoalStatus::Active
            &&& after.goals[goal_id].stake_amount == stake_amount
        }),
{
}

/// On the ledger, the creator of a goal on record who hands in proof after
/// the deadline is refused with `DeadlinePassed`, whatever the goal's status.
pub proof fn law_ledger_no_proof_after_the_deadline(
    ledger: LedgerView,
    goal_id: u64,
    proof_data: Seq<char>,
    now: i64,
)
    requires
        ledger.goals.dom().contains(goal_id),
        now > ledger.goals[goal_id].deadline,
    ensures
        ledger.submit_proof_refusal(ledger.goals[goal_id].creator, goal_id, proof_data, now)
            == Some(LedgerError::Refused(TimeStakerError::DeadlinePassed)),
{
}

/// On the ledger a judge votes on a goal once: after a vote that was
/// accepted, every further vote of the same judge on the same goal is
/// turned down as a duplicate, whenever it comes and whichever way it goes.
pub proof fn law_ledger_one_vote_per_judge_and_goal(
    ledger: LedgerView,
    judge: Identity,
    goal_id: u64,
    in_favour: bool,
    now: i64,
    again_in_favour: bool,
    later: i64,
)
    requires
        ledger.vote_refusal(judge, goal_id, in_favour, now) is None,
    ensures
        ledger.after_vote(judge, goal_id, in_favour, now).vote_refusal(
            judge,
            goal_id,
            again_in_favour,
            later,
        ) == Some(LedgerError::Duplicate),
{
}

/// On the ledger, settling a goal whose tally reaches the threshold
/// completes it and raises its creator's balance by 110 percent of the
/// stake, rounded down, at the cost of the goal's custody. Settling any
/// other goal fails it, leaves every balance as it was, and raises the
/// reward pool by the stake. Either way a second settlement is refused with
/// `InvalidGoalStatus`.
pub proof fn law_ledger_settlement(ledger: LedgerView, goal_id: u64, now: i64, later: i64)
    requires
        ledger.wf(),
        ledger.finalize_goal_refusal(goal_id, now) is None,
    ensures
        ({
            let goal = ledger.goals[goal_id];
            let after = ledger.after_finalize_goal(goal_id, now);
            &&& goal_succeeds(goal) ==> {
                &&& after.goals[goal_id].status == GoalStatus::Completed
                &&& after.balance_of(Holder::Wallet(goal.creator)) == ledger.balance_of(
                    Holder::Wallet(goal.creator),
                ) + goal.stake_amount * 110 / 100
                &&& after.balance_of(Holder::GoalEscrow(goal_id)) == ledger.balance_of(
                    Holder::GoalEscrow(goal_id),
                ) - goal.stake_amount * 110 / 100
                &&& after.registry == ledger.registry
            }
            &&& !goal_succeeds(goal) ==> {
                &&& after.goals[goal_id].status == GoalStatus::Failed
                &&& after.balances == ledger.balances
                &&& after.registry->Some_0.reward_pool == ledger.registry->Some_0.reward_pool
                    + goal.stake_amount
            }
            &&& after.finalize_goal_refusal(goal_id, later) == Some(
                LedgerError::Refused(TimeStakerError::InvalidGoalStatus),
            )
        }),
{
}

/// On the ledger, a withdrawal moves the judge's whole stake from the
/// judge's custody back to the judge and leaves the judge inactive. After
/// it the judge can neither withdraw again nor vote on any goal.
pub proof fn law_ledger_withdrawal_is_final(
    ledger: LedgerView,
    judge: Identity,
    anyone: Identity,
    goal_id: u64,
    in_favour: bool,
    later: i64,
)
    requires
        ledger.withdraw_judge_stake_refusal(judge, judge) is None,
    ensures
        ({
            let stake = ledger.judges[judge].stake_amount;
            let after = ledger.after_withdraw_judge_stake(judge, judge);
            &&& after.balance_of(Holder::Wallet(judge)) == ledger.balance_of(
                Holder::Wallet(judge),
            ) + stake
            &&& after.balance_of(Holder::JudgeEscrow(judge)) == ledger.balance_of(
                Holder::JudgeEscrow(judge),
            ) - stake
            &&& !after.judges[judge].is_active
            &&& after.withdraw_judge_stake_refusal(judge, judge) == Some(
                LedgerError::Refused(TimeStakerError::JudgeNotActive),
            )
            &&& after.withdraw_judge_stake_refusal(anyone, judge) is Some
            &&& after.vote_refusal(judge, goal_id, in_favour, later) is Some
        }),
{
}

/// On a ledger that is in order, the custody of an active judge holds the
/// judge's stake, so the judge's own withdrawal is turned down only where
/// the judge's balance cannot take the stake.
pub proof fn law_ledger_an_active_judge_can_withdraw(ledger: LedgerView, judge: Identity)
    requires
        ledger.wf(),
        ledger.judges.dom().contains(judge),
        ledger.judges[judge].is_active,
    ensures
        ledger.balance_of(Holder::JudgeEscrow(judge)) >= ledger.judges[judge].stake_amount,
        ledger.withdraw_judge_stake_refusal(judge, judge) == if ledger.balance_of(
            Holder::Wallet(judge),
        ) + ledger.judges[judge].stake_amount > u64::MAX {
            Some(LedgerError::Overflow)
        } else {
            None
        },
{
}

/// Only the judge can withdraw the judge's stake: a request by anyone else
/// is refused with `Unauthorized`.
pub proof fn law_ledger_only_the_judge_withdraws(
    ledger: LedgerView,
    caller: Identity,
    judge: Identity,
)
    requires
        ledger.wf(),
        ledger.judges.dom().contains(judge),
        caller != judge,
    ensures
        ledger.withdraw_judge_stake_refusal(caller, judge) == Some(
            LedgerError::Refused(TimeStakerError::Unauthorized),
        ),
{
}

/// Whatever is asked of a ledger that is in order, and whenever, the ledger
/// is in order afterwards: every goal has at least the minimum stake, a
/// voting window that closes exactly 7 days after its deadline, no more
/// votes in favour than votes, and a status that agrees with its record;
/// no goal is `Cancelled`; every judge's reputation lies from 100 to 2000.
pub proof fn law_ledger_stays_in_order(ledger: LedgerView, request: Request, now: i64)
    requires
        ledger.wf(),
    ensures
        ledger.step(request, now).wf(),
{
    lemma_step_keeps_tallies(ledger, request, now);
}

/// Whatever is asked of a ledger that is in order, every goal still counts
/// its votes right afterwards. A vote that is accepted adds its judge to
/// the voters of its goal, who had not voted on it before, and adds one to
/// the goal's count; a goal that is created has no voters yet; nothing else
/// touches a vote or a count.
proof fn lemma_step_keeps_tallies(ledger: LedgerView, request: Request, now: i64)
    requires
        ledger.wf(),
    ensures
        ledger.step(request, now).tallies_wf(),
{
    let after = ledger.step(request, now);
    if ledger.refusal(request, now) is None {
        assert forall|id: u64| #[trigger] after.goals.dom().contains(id) implies {
            &&& after.voters(id).finite()
            &&& after.voters(id).len() == after.goals[id].total_votes
            &&& after.voters_in_favour(id).finite()
            &&& after.voters_in_favour(id).len() == after.goals[id].yes_votes
        } by {
            match request {
                Request::Vote { judge, goal_id, in_favour } => {
                    if id == goal_id {
                        assert(after.voters(id) =~= ledger.voters(id).insert(judge));
                        if in_favour {
                            assert(after.voters_in_favour(id) =~= ledger.voters_in_favour(
                                id,
                            ).insert(judge));
                        } else {
                            assert(after.voters_in_favour(id) =~= ledger.voters_in_favour(id));
                        }
                    } else {
                        assert(after.voters(id) =~= ledger.voters(id));
                        assert(after.voters_in_favour(id) =~= ledger.voters_in_favour(id));
                    }
                },
                Request::CreateGoal { goal_id, .. } => {
                    if id == goal_id {
                        assert(after.voters(id) =~= Set::<Identity>::empty());
                        assert(after.voters_in_favour(id) =~= Set::<Identity>::empty());
                    } else {
                        assert(after.voters(id) =~= ledger.voters(id));
                        assert(after.voters_in_favour(id) =~= ledger.voters_in_favour(id));
                    }
                },
                _ => {
                    assert(after.voters(id) =~= ledger.voters(id));
                    assert(after.voters_in_favour(id) =~= ledger.voters_in_favour(id));
                },
            }
        }
    }
}

/// The ledger forgets nothing and rewrites no history. Whatever is asked
/// of it: every goal stays on record with its terms unchanged and its
/// status no further back than it was; only handing in proof moves a goal
/// out of `Active` and only a settlement moves it out of
/// `PendingVerification`; every judge stays on record with the same stake,
/// and a judge that is inactive stays inactive; every vote stays exactly as
/// it was cast; and the registry, once set up, stays set up.
pub proof fn law_ledger_keeps_history(ledger: LedgerView, request: Request, now: i64)
    requires
        ledger.wf(),
    ensures
        ({
            let after = ledger.step(request, now);
            &&& forall|id: u64| #[trigger]
                ledger.goals.dom().contains(id) ==> {
                    &&& after.goals.dom().contains(id)
                    &&& after.goals[id].same_terms(ledger.goals[id])
                    &&& after.goals[id].status.stage() >= ledger.goals[id].status.stage()
                    &&& after.goals[id].status != ledger.goals[id].status ==> {
                        ||| (ledger.goals[id].status == GoalStatus::Active
                            && after.goals[id].status == GoalStatus::PendingVerification
                            && request is SubmitProof)
                        ||| (ledger.goals[id].status == GoalStatus::PendingVerification
                            && after.goals[id].status.is_settled() && request is FinalizeGoal)
                    }
                }
            &&& forall|who: Identity| #[trigger]
                ledger.judges.dom().contains(who) ==> {
                    &&& after.judges.dom().contains(who)
                    &&& after.judges[who].stake_amount == ledger.judges[who].stake_amount
                    &&& !ledger.judges[who].is_active ==> !after.judges[who].is_active
                }
            &&& forall|id: u64, who: Identity| #[trigger]
                ledger.votes.dom().contains((id, who)) ==> {
                    &&& after.votes.dom().contains((id, who))
                    &&& after.votes[(id, who)] == ledger.votes[(id, who)]
                }
            &&& ledger.registry is Some ==> after.registry is Some
        }),
{
}

/// The protocol neither makes funds nor loses them. A request that the
/// ledger carries out, other than a deposit, changes balances only by the one
/// order that belongs to it: the payer has the amount less, the payee has it
/// more, and every other holder has what it had. A request without an order
/// changes no balance at all.
pub proof fn law_ledger_moves_funds_only_by_order(
    ledger: LedgerView,
    request: Request,
    now: i64,
    holder: Holder,
)
    requires
        ledger.refusal(request, now) is None,
        !(request is Deposit),
    ensures
        ledger.after(request, now).balance_of(holder) == match ledger.order_of(request, now) {
            Some(order) => order.balance_after(holder, ledger.balance_of(holder) as int),
            None => ledger.balance_of(holder) as int,
        },
{
}

/// A deposit that the ledger accepts adds the amount to the one holder and
/// leaves every other balance as it was.
pub proof fn law_ledger_deposit_adds_the_amount(
    ledger: LedgerView,
    to: Holder,
    amount: u64,
    holder: Holder,
)
    requires
        ledger.deposit_refusal(to, amount) is None,
    ensures
        ledger.after_deposit(to, amount).balance_of(holder) == ledger.balance_of(holder) + (if holder
            == to {
            amount as int
        } else {
            0
        }),
{
}

} // verus!
