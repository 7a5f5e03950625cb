use crate::goal::GoalStatus;
use vstd::prelude::*;

verus! {

/// The least stake that a goal can be created with, in minor units
/// (a tenth of one unit of the base currency).
pub const MIN_GOAL_STAKE: u64 = 100_000_000;

/// The most characters that a description or a proof may hold.
pub const MAX_TEXT_LEN: usize = 500;

/// Seconds from a goal's deadline to the close of its voting window: 7 days.
pub const VOTING_PERIOD_SECS: i64 = 604_800;

/// Share of the votes, in percent, that must be in favour for success.
pub const SUCCESS_PERCENT: u64 = 60;

/// What a successful creator gets back, in percent of the stake.
pub const PAYOUT_PERCENT: u64 = 110;

/// The reputation that a judge starts with, and the least it can fall to.
pub const MIN_REPUTATION: u32 = 100;

/// The most reputation that a judge can reach.
pub const MAX_REPUTATION: u32 = 2000;

/// What a vote that matched the outcome adds to a judge's reputation.
pub const REPUTATION_GAIN: u32 = 10;

/// What a vote that missed the outcome takes from a judge's reputation.
pub const REPUTATION_LOSS: u32 = 20;

/// The number of votes in favour that a goal with `total_votes` votes needs:
/// 60 percent of them, rounded down.
pub open spec fn success_threshold(total_votes: nat) -> nat {
    total_votes * 60 / 100
}

/// Whether a tally settles a goal as accomplished. With no votes at all the
/// threshold is zero and the goal counts as accomplished.
pub open spec fn is_successful(total_votes: nat, yes_votes: nat) -> bool {
    yes_votes >= success_threshold(total_votes)
}

/// What the creator of an accomplished goal is paid: the stake and a tenth
/// of it, rounded down.
pub open spec fn payout(stake_amount: nat) -> nat {
    stake_amount * 110 / 100
}

/// Whether a vote matched the outcome of a settled goal: in favour of one
/// that was completed, or against one that failed.
pub open spec fn vote_was_correct(vote: bool, status: GoalStatus) -> bool {
    (vote && status == GoalStatus::Completed) || (!vote && status == GoalStatus::Failed)
}

/// A judge's reputation after one vote is scored: ten more for a vote that
/// matched, at most 2000 in all; twenty less for one that did not, at least
/// 100 in all.
pub open spec fn reputation_after(score: nat, was_correct: bool) -> nat {
    if was_correct {
        if score + 10 <= 2000 {
            score + 10
        } else {
            2000
        }
    } else {
        if score - 20 >= 100 {
            (score - 20) as nat
        } else {
            100
        }
    }
}

/// Computes the threshold of votes in favour for `total_votes` votes.
pub fn compute_success_threshold(total_votes: u64) -> (threshold: u64)
    ensures
        threshold == success_threshold(total_votes as nat),
        threshold <= total_votes,
{
    let wide: u128 = (total_votes as u128) * 60 / 100;
    wide as u64
}

/// Decides whether a tally settles a goal as accomplished.
pub fn compute_is_successful(total_votes: u64, yes_votes: u64) -> (successful: bool)
    ensures
        successful == is_successful(total_votes as nat, yes_votes as nat),
{
    yes_votes >= compute_success_threshold(total_votes)
}

/// Computes the payout for a stake that is small enough for the payout to
/// fit a balance.
pub fn compute_payout(stake_amount: u64) -> (amount: u64)
    requires
        payout(stake_amount as nat) <= u64::MAX,
    ensures
        amount == payout(stake_amount as nat),
{
    let wide: u128 = (stake_amount as u128) * 110 / 100;
    wide as u64
}

/// Computes the payout for any stake, or `None` where the payout is more
/// than a balance can hold.
pub fn checked_payout(stake_amount: u64) -> (amount: Option<u64>)
    ensures
        match amount {
            Some(paid) => paid == payout(stake_amount as nat),
            None => payout(stake_amount as nat) > u64::MAX,
        },
{
    let wide: u128 = (stake_amount as u128) * 110 / 100;
    if wide > u64::MAX as u128 {
        None
    } else {
        Some(wide as u64)
    }
}

/// Scores one vote against a judge's reputation.
pub fn adjust_reputation(score: u32, was_correct: bool) -> (adjusted: u32)
    ensures
        adjusted == reputation_after(score as nat, was_correct),
        was_correct && score <= MAX_REPUTATION ==> score <= adjusted <= MAX_REPUTATION,
        !was_correct && score >= MIN_REPUTATION ==> MIN_REPUTATION <= adjusted <= score,
{
    if was_correct {
        if score <= MAX_REPUTATION - REPUTATION_GAIN {
            score + REPUTATION_GAIN
        } else {
            MAX_REPUTATION
        }
    } else {
        if score >= MIN_REPUTATION + REPUTATION_LOSS {
            score - REPUTATION_LOSS
        } else {
            MIN_REPUTATION
        }
    }
}

} // verus!
