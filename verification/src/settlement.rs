use crate::clock::{ledger_unix_timestamp, InstructionError};
use crate::error::TimeStakerError;
use crate::events::GoalFinalized;
use crate::goal::{Goal, GoalStatus, GoalView};
use crate::identity::Identity;
use crate::registry::GlobalState;
use crate::rules::{
    checked_payout, compute_is_successful, compute_payout, is_successful, payout,
};
use crate::transfer::{Holder, Transfer};
use vstd::prelude::*;

verus! {

/// What settling a goal names: the goal and the registry that takes a
/// forfeited stake.
#[derive(Clone, Debug, PartialEq, Eq)]
pub struct FinalizeGoal {
    /// The goal to settle.
    pub goal: Goal,
    /// The registry.
    pub global_state: GlobalState,
}

/// Why a goal cannot be settled, if it cannot. The goal's status is looked
/// at first, then whether the voting window is over.
pub open spec fn finalize_goal_refusal(goal: GoalView, now: i64) -> Option<TimeStakerError> {
    if goal.status != GoalStatus::PendingVerification {
        Some(TimeStakerError::InvalidGoalStatus)
    } else if now <= goal.voting_deadline {
        Some(TimeStakerError::VotingStillActive)
    } else {
        None
    }
}

/// Decides whether a goal can be settled: `None` if it can, the refusal if
/// it cannot.
pub fn check_finalize_goal(goal: &Goal, now: i64) -> (refusal: Option<TimeStakerError>)
    ensures
        refusal == finalize_goal_refusal(goal@, now),
{
    if goal.status != GoalStatus::PendingVerification {
        Some(TimeStakerError::InvalidGoalStatus)
    } else if now <= goal.voting_deadline {
        Some(TimeStakerError::VotingStillActive)
    } else {
        None
    }
}

/// Whether the tally of `goal` settles it as accomplished.
pub open spec fn goal_succeeds(goal: GoalView) -> bool {
    is_successful(goal.total_votes as nat, goal.yes_votes as nat)
}

/// The goal once settled at `now`: completed if its tally reaches the
/// threshold, failed if not. Nothing else changes.
pub open spec fn settled_goal(goal: GoalView, now: i64) -> GoalView {
    GoalView {
        status: if goal_succeeds(goal) {
            GoalStatus::Completed
        } else {
            GoalStatus::Failed
        },
        finalized_at: Some(now),
        ..goal
    }
}

/// The registry once `goal` is settled: the stake of a failed goal is added
/// to the reward pool, a completed goal leaves the registry as it was.
pub open spec fn registry_after_settlement(registry: GlobalState, goal: GoalView) -> GlobalState {
    if goal_succeeds(goal) {
        registry
    } else {
        GlobalState {
            reward_pool: (registry.reward_pool + goal.stake_amount) as u64,
            ..registry
        }
    }
}

/// The funds that settling `goal` moves: the payout from the goal's custody
/// to its creator if the goal is completed, nothing if it failed. A
/// forfeited stake stays in the goal's custody and is only counted in the
/// reward pool.
pub open spec fn settlement_transfer(goal: GoalView) -> Option<Transfer> {
    if goal_succeeds(goal) {
        Some(
            Transfer {
                from: Holder::GoalEscrow(goal.goal_id),
                to: Holder::Wallet(goal.creator),
                amount: payout(goal.stake_amount as nat) as u64,
            },
        )
    } else {
        None
    }
}

/// Why a payout cannot be handed to `account`, if it cannot: the order
/// pays the goal's creator, and `account` is someone else.
pub open spec fn payout_account_refusal(order: Transfer, account: Identity) -> Option<
    TimeStakerError,
> {
    if order.to == Holder::Wallet(account) {
        None
    } else {
        Some(TimeStakerError::Unauthorized)
    }
}

/// Decides whether a payout can be handed to `account`: `None` if it is the
/// holder that the order pays, `Unauthorized` if it is not.
pub fn check_payout_account(order: &Transfer, account: &Identity) -> (refusal: Option<
    TimeStakerError,
>)
    ensures
        refusal == payout_account_refusal(*order, *account),
{
    if order.to == Holder::Wallet(*account) {
        None
    } else {
        Some(TimeStakerError::Unauthorized)
    }
}

/// Whether the numbers that settling `goal` writes fit where they are
/// written: the payout of a completed goal, the reward pool after a failed
/// one.
pub open spec fn finalize_goal_fits(goal: GoalView, registry: GlobalState) -> bool {
    if goal_succeeds(goal) {
        payout(goal.stake_amount as nat) <= u64::MAX
    } else {
        registry.reward_pool + goal.stake_amount <= u64::MAX
    }
}

/// What settling a goal at time `now` does. A refused request changes
/// nothing. An accepted one fixes the goal's status by its tally, records
/// the time, credits the reward pool with a forfeited stake, and hands back
/// the order for the payout, if there is one.
pub open spec fn finalize_goal_outcome(
    before: FinalizeGoal,
    after: FinalizeGoal,
    now: i64,
    result: Result<(GoalFinalized, Option<Transfer>), TimeStakerError>,
) -> bool {
    match result {
        Ok((event, transfer)) => {
            &&& finalize_goal_refusal(before.goal@, now) is None
            &&& after.goal@ == settled_goal(before.goal@, now)
            &&& after.global_state == registry_after_settlement(before.global_state, before.goal@)
            &&& event == (GoalFinalized {
                goal_id: before.goal.goal_id,
                successful: goal_succeeds(before.goal@),
                final_votes: before.goal.total_votes,
                yes_votes: before.goal.yes_votes,
            })
            &&& transfer == settlement_transfer(before.goal@)
        },
        Err(e) => {
            &&& finalize_goal_refusal(before.goal@, now) == Some(e)
            &&& after == before
        },
    }
}

/// Settles a goal at time `now`: see `finalize_goal_outcome`.
pub fn finalize_goal_at(ctx: &mut FinalizeGoal, now: i64) -> (result: Result<
    (GoalFinalized, Option<Transfer>),
    TimeStakerError,
>)
    requires
        finalize_goal_refusal(old(ctx).goal@, now) is None ==> finalize_goal_fits(
            old(ctx).goal@,
            old(ctx).global_state,
        ),
    ensures
        finalize_goal_outcome(*old(ctx), *final(ctx), now, result),
        old(ctx).goal.wf() ==> final(ctx).goal.wf(),
{
    if let Some(refusal) = check_finalize_goal(&ctx.goal, now) {
        return Err(refusal);
    }
    let successful = compute_is_successful(ctx.goal.total_votes, ctx.goal.yes_votes);
    let mut transfer: Option<Transfer> = None;
    if successful {
        ctx.goal.status = GoalStatus::Completed;
        transfer = Some(
            Transfer {
                from: Holder::GoalEscrow(ctx.goal.goal_id),
                to: Holder::Wallet(ctx.goal.creator),
                amount: compute_payout(ctx.goal.stake_amount),
            },
        );
    } else {
        ctx.goal.status = GoalStatus::Failed;
        ctx.global_state.reward_pool = ctx.global_state.reward_pool + ctx.goal.stake_amount;
    }
    ctx.goal.finalized_at = Some(now);
    Ok(
        (
            GoalFinalized {
                goal_id: ctx.goal.goal_id,
                successful,
                final_votes: ctx.goal.total_votes,
                yes_votes: ctx.goal.yes_votes,
            },
            transfer,
        ),
    )
}

/// Decides whether the numbers that settling a goal writes fit where they
/// are written.
pub fn check_finalize_goal_fits(goal: &Goal, registry: &GlobalState) -> (fits: bool)
    ensures
        fits == finalize_goal_fits(goal@, *registry),
{
    if compute_is_successful(goal.total_votes, goal.yes_votes) {
        checked_payout(goal.stake_amount).is_some()
    } else {
        registry.reward_pool <= u64::MAX - goal.stake_amount
    }
}

/// What `finalize_goal` answers if the ledger's clock shows `now`, or shows
/// nothing. Where the clock cannot be read, or a number would not fit,
/// nothing changes; otherwise the request is decided as
/// `finalize_goal_outcome` says for `now`.
pub open spec fn finalize_goal_answer(
    before: FinalizeGoal,
    after: FinalizeGoal,
    now: i64,
    result: Result<(GoalFinalized, Option<Transfer>), InstructionError>,
) -> bool {
    match result {
        Ok(done) => {
            &&& finalize_goal_fits(before.goal@, before.global_state)
            &&& finalize_goal_outcome(before, after, now, Ok(done))
        },
        Err(InstructionError::Refused(e)) => finalize_goal_outcome(before, after, now, Err(e)),
        Err(InstructionError::Overflow) => {
            &&& finalize_goal_refusal(before.goal@, now) is None
            &&& !finalize_goal_fits(before.goal@, before.global_state)
            &&& after == before
        },
        Err(InstructionError::ClockUnavailable(_)) => after == before,
    }
}

/// Settles a goal at the time that the ledger's clock shows. A goal that
/// does not await the judges is refused with `InvalidGoalStatus` before the
/// clock is read. Otherwise, for some time `now`, the answer is what
/// `finalize_goal_answer` says for it.
pub fn finalize_goal(ctx: &mut FinalizeGoal) -> (result: Result<
    (GoalFinalized, Option<Transfer>),
    InstructionError,
>)
    ensures
        exists|now: i64| finalize_goal_answer(*old(ctx), *final(ctx), now, result),
        old(ctx).goal.status != GoalStatus::PendingVerification ==> {
            &&& result == Err::<(GoalFinalized, Option<Transfer>), InstructionError>(
                InstructionError::Refused(TimeStakerError::InvalidGoalStatus),
            )
            &&& *final(ctx) == *old(ctx)
        },
        old(ctx).goal.wf() ==> final(ctx).goal.wf(),
{
    if ctx.goal.status != GoalStatus::PendingVerification {
        let result = Err(InstructionError::Refused(TimeStakerError::InvalidGoalStatus));
        assert(finalize_goal_answer(*old(ctx), *ctx, 0, result));
        return result;
    }
    let now = match ledger_unix_timestamp() {
        Ok(now) => now,
        Err(e) => {
            let result = Err(InstructionError::ClockUnavailable(e));
            assert(finalize_goal_answer(*old(ctx), *ctx, 0, result));
            return result;
        },
    };
    let result = if let Some(refusal) = check_finalize_goal(&ctx.goal, now) {
        Err(InstructionError::Refused(refusal))
    } else if !check_finalize_goal_fits(&ctx.goal, &ctx.global_state) {
        Err(InstructionError::Overflow)
    } else {
        match finalize_goal_at(ctx, now) {
            Ok(done) => Ok(done),
            Err(refusal) => Err(InstructionError::Refused(refusal)),
        }
    };
    assert(finalize_goal_answer(*old(ctx), *ctx, now, result));
    result
}

} // verus!
