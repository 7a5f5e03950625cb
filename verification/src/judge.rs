use crate::clock::{ledger_unix_timestamp, InstructionError};
use crate::error::TimeStakerError;
use crate::events::JudgeRegistered;
use crate::identity::Identity;
use crate::registry::GlobalState;
use crate::rules::{MAX_REPUTATION, MIN_REPUTATION};
use crate::transfer::{Holder, Transfer};
use vstd::prelude::*;

verus! {

/// One judge: who it is, what it has locked, how it stands and how it has
/// voted. The record stays when the judge withdraws.
#[derive(Clone, Copy, Debug, PartialEq, Eq)]
pub struct Judge {
    /// Who the judge is.
    pub judge: Identity,
    /// What the judge locked at registration, in minor units.
    pub stake_amount: u64,
    /// The judge's standing, from 100 to 2000.
    pub reputation_score: u32,
    /// How many of the judge's votes have been scored.
    pub total_votes: u32,
    /// How many of them matched the outcome.
    pub correct_votes: u32,
    /// When the judge registered.
    pub registered_at: i64,
    /// Whether the stake is still locked. Once false it stays false.
    pub is_active: bool,
}

impl Judge {
    /// What holds of every judge that the protocol has registered and
    /// scored: the reputation lies from 100 to 2000, and no more votes
    /// matched than were scored.
    pub open spec fn wf(&self) -> bool {
        &&& MIN_REPUTATION <= self.reputation_score <= MAX_REPUTATION
        &&& self.correct_votes <= self.total_votes
    }

    /// The judge as registration at `now` leaves it for `who`, with `stake`
    /// locked: active, at the starting reputation, with no vote scored.
    pub open spec fn registered(who: Identity, stake: u64, now: i64) -> Judge {
        Judge {
            judge: who,
            stake_amount: stake,
            reputation_score: MIN_REPUTATION,
            total_votes: 0,
            correct_votes: 0,
            registered_at: now,
            is_active: true,
        }
    }
}

impl Default for Judge {
    /// A judge record that nothing has been written to.
    fn default() -> (judge: Judge)
        ensures
            judge.judge.is_zero(),
            judge.stake_amount == 0,
            judge.reputation_score == 0,
            judge.total_votes == 0,
            judge.correct_votes == 0,
            judge.registered_at == 0,
            !judge.is_active,
    {
        Judge {
            judge: Identity::default(),
            stake_amount: 0,
            reputation_score: 0,
            total_votes: 0,
            correct_votes: 0,
            registered_at: 0,
            is_active: false,
        }
    }
}

/// What registering a judge names: the record to fill, the party that
/// registers, and the registry that counts it and sets the stake.
#[derive(Clone, Copy, Debug, PartialEq, Eq)]
pub struct RegisterJudge {
    /// The judge record, to be filled.
    pub judge: Judge,
    /// The party that becomes a judge and pays the stake.
    pub judge_authority: Identity,
    /// The registry.
    pub global_state: GlobalState,
}

/// What withdrawing a judge's stake names: the judge and the party that
/// asks for the stake.
#[derive(Clone, Copy, Debug, PartialEq, Eq)]
pub struct WithdrawJudgeStake {
    /// The judge whose stake is asked for.
    pub judge: Judge,
    /// The party that asks.
    pub judge_authority: Identity,
}

/// What registering a judge at time `now` does. The request is never
/// refused. It fills the judge record, counts the judge in the registry,
/// and orders the registry's current stake moved from the party into the
/// judge's custody.
pub open spec fn register_judge_outcome(
    before: RegisterJudge,
    after: RegisterJudge,
    now: i64,
    result: Result<(JudgeRegistered, Transfer), TimeStakerError>,
) -> bool {
    &&& result matches Ok((event, transfer))
    &&& after.judge == Judge::registered(
        before.judge_authority,
        before.global_state.min_judge_stakes,
        now,
    )
    &&& after.global_state == (GlobalState {
        total_judges: (before.global_state.total_judges + 1) as u64,
        ..before.global_state
    })
    &&& after.judge_authority == before.judge_authority
    &&& event == (JudgeRegistered {
        judge: before.judge_authority,
        stake_amount: before.global_state.min_judge_stakes,
    })
    &&& transfer == (Transfer {
        from: Holder::Wallet(before.judge_authority),
        to: Holder::JudgeEscrow(before.judge_authority),
        amount: before.global_state.min_judge_stakes,
    })
}

/// Registers a judge at time `now`: see `register_judge_outcome`.
pub fn register_judge_at(ctx: &mut RegisterJudge, now: i64) -> (result: Result<
    (JudgeRegistered, Transfer),
    TimeStakerError,
>)
    requires
        old(ctx).global_state.total_judges < u64::MAX,
    ensures
        register_judge_outcome(*old(ctx), *final(ctx), now, result),
        final(ctx).judge.wf(),
{
    let who = ctx.judge_authority;
    let stake = ctx.global_state.min_judge_stakes;
    ctx.judge.judge = who;
    ctx.judge.stake_amount = stake;
    ctx.judge.reputation_score = MIN_REPUTATION;
    ctx.judge.total_votes = 0;
    ctx.judge.correct_votes = 0;
    ctx.judge.registered_at = now;
    ctx.judge.is_active = true;
    ctx.global_state.total_judges = ctx.global_state.total_judges + 1;
    Ok(
        (
            JudgeRegistered { judge: who, stake_amount: stake },
            Transfer { from: Holder::Wallet(who), to: Holder::JudgeEscrow(who), amount: stake },
        ),
    )
}

/// What `register_judge` answers if the ledger's clock shows `now`, or
/// shows nothing. Where the clock cannot be read, or the count of judges is
/// full, nothing changes; otherwise the judge is registered as
/// `register_judge_outcome` says for `now`.
pub open spec fn register_judge_answer(
    before: RegisterJudge,
    after: RegisterJudge,
    now: i64,
    result: Result<(JudgeRegistered, Transfer), InstructionError>,
) -> bool {
    match result {
        Ok(done) => {
            &&& before.global_state.total_judges < u64::MAX
            &&& register_judge_outcome(before, after, now, Ok(done))
        },
        Err(InstructionError::Refused(_)) => false,
        Err(InstructionError::Overflow) => {
            &&& before.global_state.total_judges == u64::MAX
            &&& after == before
        },
        Err(InstructionError::ClockUnavailable(_)) => after == before,
    }
}

/// Registers a judge at the time that the ledger's clock shows: for some
/// time `now`, the answer is what `register_judge_answer` says for it.
pub fn register_judge(ctx: &mut RegisterJudge) -> (result: Result<
    (JudgeRegistered, Transfer),
    InstructionError,
>)
    ensures
        exists|now: i64| register_judge_answer(*old(ctx), *final(ctx), now, result),
        result is Ok ==> final(ctx).judge.wf(),
{
    let now = match ledger_unix_timestamp() {
        Ok(now) => now,
        Err(e) => {
            let result = Err(InstructionError::ClockUnavailable(e));
            assert(register_judge_answer(*old(ctx), *ctx, 0, result));
            return result;
        },
    };
    let result = if ctx.global_state.total_judges == u64::MAX {
        Err(InstructionError::Overflow)
    } else {
        match register_judge_at(ctx, now) {
            Ok(done) => Ok(done),
            Err(refusal) => Err(InstructionError::Refused(refusal)),
        }
    };
    assert(register_judge_answer(*old(ctx), *ctx, now, result));
    result
}

/// Why a judge's stake cannot be withdrawn, if it cannot. The caller is
/// looked at first, then whether the judge is still active.
pub open spec fn withdraw_judge_stake_refusal(judge: Judge, caller: Identity) -> Option<
    TimeStakerError,
> {
    if judge.judge != caller {
        Some(TimeStakerError::Unauthorized)
    } else if !judge.is_active {
        Some(TimeStakerError::JudgeNotActive)
    } else {
        None
    }
}

/// Decides whether a judge's stake can be withdrawn: `None` if it can, the
/// refusal if it cannot.
pub fn check_withdraw_judge_stake(judge: &Judge, caller: &Identity) -> (refusal: Option<
    TimeStakerError,
>)
    ensures
        refusal == withdraw_judge_stake_refusal(*judge, *caller),
{
    if judge.judge != *caller {
        Some(TimeStakerError::Unauthorized)
    } else if !judge.is_active {
        Some(TimeStakerError::JudgeNotActive)
    } else {
        None
    }
}

/// What withdrawing a judge's stake does. A refused request changes
/// nothing. An accepted one orders the whole stake moved from the judge's
/// custody back to the judge and marks the judge inactive for good.
pub open spec fn withdraw_judge_stake_outcome(
    before: WithdrawJudgeStake,
    after: WithdrawJudgeStake,
    result: Result<Transfer, TimeStakerError>,
) -> bool {
    match result {
        Ok(transfer) => {
            &&& withdraw_judge_stake_refusal(before.judge, before.judge_authority) is None
            &&& after.judge == (Judge { is_active: false, ..before.judge })
            &&& after.judge_authority == before.judge_authority
            &&& transfer == (Transfer {
                from: Holder::JudgeEscrow(before.judge.judge),
                to: Holder::Wallet(before.judge_authority),
                amount: before.judge.stake_amount,
            })
        },
        Err(e) => {
            &&& withdraw_judge_stake_refusal(before.judge, before.judge_authority) == Some(e)
            &&& after == before
        },
    }
}

/// Withdraws a judge's stake: see `withdraw_judge_stake_outcome`.
pub fn withdraw_judge_stake(ctx: &mut WithdrawJudgeStake) -> (result: Result<
    Transfer,
    TimeStakerError,
>)
    ensures
        withdraw_judge_stake_outcome(*old(ctx), *final(ctx), result),
        old(ctx).judge.wf() ==> final(ctx).judge.wf(),
{
    if let Some(refusal) = check_withdraw_judge_stake(&ctx.judge, &ctx.judge_authority) {
        return Err(refusal);
    }
    ctx.judge.is_active = false;
    Ok(
        Transfer {
            from: Holder::JudgeEscrow(ctx.judge.judge),
            to: Holder::Wallet(ctx.judge_authority),
            amount: ctx.judge.stake_amount,
        },
    )
}

} // verus!
