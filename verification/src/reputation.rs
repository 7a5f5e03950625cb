use crate::ballot::VoteRecord;
use crate::error::TimeStakerError;
use crate::goal::{Goal, GoalStatus};
use crate::judge::Judge;
use crate::rules::{adjust_reputation, reputation_after, vote_was_correct};
use vstd::prelude::*;

verus! {

/// What scoring a vote names: the judge, the judge's vote, and the goal that
/// the vote was on.
#[derive(Clone, Debug, PartialEq, Eq)]
pub struct UpdateJudgeReputation {
    /// The judge to score.
    pub judge: Judge,
    /// The vote that is scored.
    pub vote_record: VoteRecord,
    /// The goal whose outcome the vote is held against.
    pub goal: Goal,
}

/// Why a vote cannot be scored, if it cannot: only where the goal has not
/// been settled.
pub open spec fn update_judge_reputation_refusal(status: GoalStatus) -> Option<TimeStakerError> {
    if status.is_settled() {
        None
    } else {
        Some(TimeStakerError::GoalNotFinalized)
    }
}

/// Decides whether a vote on a goal in `status` can be scored: `None` if it
/// can, the refusal if it cannot.
pub fn check_update_judge_reputation(status: GoalStatus) -> (refusal: Option<TimeStakerError>)
    ensures
        refusal == update_judge_reputation_refusal(status),
{
    if status == GoalStatus::Completed || status == GoalStatus::Failed {
        None
    } else {
        Some(TimeStakerError::GoalNotFinalized)
    }
}

/// The judge once a vote of `vote` on a goal that ended in `status` is
/// scored: one more vote counted; if the vote matched the outcome, one more
/// correct vote and ten more reputation, up to 2000; if not, twenty less
/// reputation, down to 100.
pub open spec fn scored_judge(judge: Judge, vote: bool, status: GoalStatus) -> Judge {
    let correct = vote_was_correct(vote, status);
    Judge {
        total_votes: (judge.total_votes + 1) as u32,
        correct_votes: if correct {
            (judge.correct_votes + 1) as u32
        } else {
            judge.correct_votes
        },
        reputation_score: reputation_after(judge.reputation_score as nat, correct) as u32,
        ..judge
    }
}

/// Whether the counters that scoring a vote raises have room for it: the
/// count of scored votes, and the count of correct votes if the vote of
/// `vote` matched a goal that ended in `status`.
pub open spec fn update_judge_reputation_fits(judge: Judge, vote: bool, status: GoalStatus) -> bool {
    judge.total_votes < u32::MAX && (vote_was_correct(vote, status) ==> judge.correct_votes
        < u32::MAX)
}

/// Decides whether the counters that scoring a vote raises have room for it.
pub fn check_update_judge_reputation_fits(judge: &Judge, vote: bool, status: GoalStatus) -> (fits:
    bool)
    ensures
        fits == update_judge_reputation_fits(*judge, vote, status),
{
    let was_correct = (vote && status == GoalStatus::Completed) || (!vote && status
        == GoalStatus::Failed);
    judge.total_votes < u32::MAX && (!was_correct || judge.correct_votes < u32::MAX)
}

/// What scoring a vote does. A refused request changes nothing. An accepted
/// one changes the judge as `scored_judge` says and nothing else. Nothing
/// keeps the same vote from being scored again.
pub open spec fn update_judge_reputation_outcome(
    before: UpdateJudgeReputation,
    after: UpdateJudgeReputation,
    result: Result<(), TimeStakerError>,
) -> bool {
    match result {
        Ok(_) => {
            &&& update_judge_reputation_refusal(before.goal.status) is None
            &&& after.judge == scored_judge(
                before.judge,
                before.vote_record.vote,
                before.goal.status,
            )
            &&& after.vote_record == before.vote_record
            &&& after.goal == before.goal
        },
        Err(e) => {
            &&& update_judge_reputation_refusal(before.goal.status) == Some(e)
            &&& after == before
        },
    }
}

/// Scores a judge's vote against the outcome of the goal: see
/// `update_judge_reputation_outcome`.
pub fn update_judge_reputation(ctx: &mut UpdateJudgeReputation) -> (result: Result<
    (),
    TimeStakerError,
>)
    requires
        update_judge_reputation_refusal(old(ctx).goal.status) is None
            ==> update_judge_reputation_fits(
            old(ctx).judge,
            old(ctx).vote_record.vote,
            old(ctx).goal.status,
        ),
    ensures
        update_judge_reputation_outcome(*old(ctx), *final(ctx), result),
        old(ctx).judge.wf() ==> final(ctx).judge.wf(),
{
    if let Some(refusal) = check_update_judge_reputation(ctx.goal.status) {
        return Err(refusal);
    }
    let was_correct = (ctx.vote_record.vote && ctx.goal.status == GoalStatus::Completed) || (
    !ctx.vote_record.vote && ctx.goal.status == GoalStatus::Failed);
    ctx.judge.total_votes = ctx.judge.total_votes + 1;
    if was_correct {
        ctx.judge.correct_votes = ctx.judge.correct_votes + 1;
    }
    ctx.judge.reputation_score = adjust_reputation(ctx.judge.reputation_score, was_correct);
    Ok(())
}

} // verus!
