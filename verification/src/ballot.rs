use crate::clock::{ledger_unix_timestamp, InstructionError};
use crate::error::TimeStakerError;
use crate::events::VoteCast;
use crate::goal::{Goal, GoalStatus, GoalView};
use crate::identity::Identity;
use crate::judge::Judge;
use vstd::prelude::*;

verus! {

/// One judge's vote on one goal. Written once, never changed.
#[derive(Clone, Copy, Debug, PartialEq, Eq)]
pub struct VoteRecord {
    /// The goal that was voted on.
    pub goal_id: u64,
    /// Who voted.
    pub judge: Identity,
    /// True for "accomplished", false for "not accomplished".
    pub vote: bool,
    /// When the vote was cast.
    pub voted_at: i64,
}

impl Default for VoteRecord {
    /// A vote record that nothing has been written to.
    fn default() -> (record: VoteRecord)
        ensures
            record.goal_id == 0,
            record.judge.is_zero(),
            !record.vote,
            record.voted_at == 0,
    {
        VoteRecord { goal_id: 0, judge: Identity::default(), vote: false, voted_at: 0 }
    }
}

/// What casting a vote names: the goal, the judge's record, the vote
/// record to fill, and the party that votes.
#[derive(Clone, Debug, PartialEq, Eq)]
pub struct Vote {
    /// The goal that is voted on.
    pub goal: Goal,
    /// The record of the judge that votes.
    pub judge: Judge,
    /// The vote record, to be filled.
    pub vote_record: VoteRecord,
    /// The party that votes.
    pub judge_authority: Identity,
}

/// Why a vote cannot be cast, if it cannot. The goal's status is looked at
/// first, then the voting window, then whether the judge is active.
pub open spec fn vote_refusal(goal: GoalView, judge: Judge, now: i64) -> Option<TimeStakerError> {
    if goal.status != GoalStatus::PendingVerification {
        Some(TimeStakerError::InvalidGoalStatus)
    } else if now > goal.voting_deadline {
        Some(TimeStakerError::VotingDeadlinePassed)
    } else if !judge.is_active {
        Some(TimeStakerError::JudgeNotActive)
    } else {
        None
    }
}

/// Decides whether a vote can be cast: `None` if it can, the refusal if it
/// cannot.
pub fn check_vote(goal: &Goal, judge: &Judge, now: i64) -> (refusal: Option<TimeStakerError>)
    ensures
        refusal == vote_refusal(goal@, *judge, now),
{
    if goal.status != GoalStatus::PendingVerification {
        Some(TimeStakerError::InvalidGoalStatus)
    } else if now > goal.voting_deadline {
        Some(TimeStakerError::VotingDeadlinePassed)
    } else if !judge.is_active {
        Some(TimeStakerError::JudgeNotActive)
    } else {
        None
    }
}

/// The goal once one more vote is counted: one more in all, and one more in
/// favour if the vote was in favour. Nothing else changes.
pub open spec fn goal_with_vote(goal: GoalView, vote: bool) -> GoalView {
    GoalView {
        total_votes: (goal.total_votes + 1) as u64,
        yes_votes: if vote {
            (goal.yes_votes + 1) as u64
        } else {
            goal.yes_votes
        },
        ..goal
    }
}

/// Whether the counters that a vote raises have room for it: the count of
/// all votes, and the count of votes in favour if the vote is in favour.
pub open spec fn vote_fits(goal: GoalView, in_favour: bool) -> bool {
    goal.total_votes < u64::MAX && (in_favour ==> goal.yes_votes < u64::MAX)
}

/// Decides whether the counters that a vote raises have room for it.
pub fn check_vote_fits(goal: &Goal, in_favour: bool) -> (fits: bool)
    ensures
        fits == vote_fits(goal@, in_favour),
{
    goal.total_votes < u64::MAX && (!in_favour || goal.yes_votes < u64::MAX)
}

/// What casting a vote at time `now` does. A refused request changes
/// nothing. An accepted one fills the vote record and counts the vote on
/// the goal. The judge's record is only read, and no funds move.
pub open spec fn vote_outcome(
    before: Vote,
    after: Vote,
    vote: bool,
    now: i64,
    result: Result<VoteCast, TimeStakerError>,
) -> bool {
    match result {
        Ok(event) => {
            &&& vote_refusal(before.goal@, before.judge, now) is None
            &&& after.goal@ == goal_with_vote(before.goal@, vote)
            &&& after.vote_record == (VoteRecord {
                goal_id: before.goal.goal_id,
                judge: before.judge_authority,
                vote,
                voted_at: now,
            })
            &&& after.judge == before.judge
            &&& after.judge_authority == before.judge_authority
            &&& event == (VoteCast {
                goal_id: before.goal.goal_id,
                judge: before.judge_authority,
                vote,
            })
        },
        Err(e) => {
            &&& vote_refusal(before.goal@, before.judge, now) == Some(e)
            &&& after == before
        },
    }
}

/// Casts a vote at time `now`: see `vote_outcome`.
pub fn vote_at(ctx: &mut Vote, in_favour: bool, now: i64) -> (result: Result<VoteCast, TimeStakerError>)
    requires
        vote_refusal(old(ctx).goal@, old(ctx).judge, now) is None ==> vote_fits(
            old(ctx).goal@,
            in_favour,
        ),
    ensures
        vote_outcome(*old(ctx), *final(ctx), in_favour, now, result),
        old(ctx).goal.wf() ==> final(ctx).goal.wf(),
{
    if let Some(refusal) = check_vote(&ctx.goal, &ctx.judge, now) {
        return Err(refusal);
    }
    ctx.vote_record.goal_id = ctx.goal.goal_id;
    ctx.vote_record.judge = ctx.judge_authority;
    ctx.vote_record.vote = in_favour;
    ctx.vote_record.voted_at = now;
    ctx.goal.total_votes = ctx.goal.total_votes + 1;
    if in_favour {
        ctx.goal.yes_votes = ctx.goal.yes_votes + 1;
    }
    Ok(VoteCast { goal_id: ctx.goal.goal_id, judge: ctx.judge_authority, vote: in_favour })
}

/// What `vote` answers if the ledger's clock shows `now`, or shows nothing.
/// Where the clock cannot be read, or the goal's counters are full, nothing
/// changes; otherwise the request is decided as `vote_outcome` says for
/// `now`.
pub open spec fn vote_answer(
    before: Vote,
    after: Vote,
    in_favour: bool,
    now: i64,
    result: Result<VoteCast, InstructionError>,
) -> bool {
    match result {
        Ok(event) => {
            &&& vote_fits(before.goal@, in_favour)
            &&& vote_outcome(before, after, in_favour, now, Ok(event))
        },
        Err(InstructionError::Refused(e)) => vote_outcome(before, after, in_favour, now, Err(e)),
        Err(InstructionError::Overflow) => {
            &&& vote_refusal(before.goal@, before.judge, now) is None
            &&& !vote_fits(before.goal@, in_favour)
            &&& after == before
        },
        Err(InstructionError::ClockUnavailable(_)) => after == before,
    }
}

/// Casts a vote at the time that the ledger's clock shows. A goal that does
/// not await the judges is refused with `InvalidGoalStatus` before the clock
/// is read. Otherwise, for some time `now`, the answer is what `vote_answer`
/// says for it.
pub fn vote(ctx: &mut Vote, in_favour: bool) -> (result: Result<VoteCast, InstructionError>)
    ensures
        exists|now: i64| vote_answer(*old(ctx), *final(ctx), in_favour, now, result),
        old(ctx).goal.status != GoalStatus::PendingVerification ==> {
            &&& result == Err::<VoteCast, InstructionError>(
                InstructionError::Refused(TimeStakerError::InvalidGoalStatus),
            )
            &&& *final(ctx) == *old(ctx)
        },
        old(ctx).goal.wf() ==> final(ctx).goal.wf(),
{
    if ctx.goal.status != GoalStatus::PendingVerification {
        let result = Err(InstructionError::Refused(TimeStakerError::InvalidGoalStatus));
        assert(vote_answer(*old(ctx), *ctx, in_favour, 0, result));
        return result;
    }
    let now = match ledger_unix_timestamp() {
        Ok(now) => now,
        Err(e) => {
            let result = Err(InstructionError::ClockUnavailable(e));
            assert(vote_answer(*old(ctx), *ctx, in_favour, 0, result));
            return result;
        },
    };
    let result = if let Some(refusal) = check_vote(&ctx.goal, &ctx.judge, now) {
        Err(InstructionError::Refused(refusal))
    } else if !check_vote_fits(&ctx.goal, in_favour) {
        Err(InstructionError::Overflow)
    } else {
        match vote_at(ctx, in_favour, now) {
            Ok(event) => Ok(event),
            Err(refusal) => Err(InstructionError::Refused(refusal)),
        }
    };
    assert(vote_answer(*old(ctx), *ctx, in_favour, now, result));
    result
}

} // verus!
