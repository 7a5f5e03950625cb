use crate::error::TimeStakerError;
use crate::identity::Identity;
use vstd::prelude::*;

verus! {

/// The stake that a judge locks when the registry is first set up: one unit
/// of the base currency, in minor units.
pub const INITIAL_MIN_JUDGE_STAKE: u64 = 1_000_000_000;

/// The judges' reward rate at set-up, in basis points.
pub const INITIAL_JUDGE_REWARD_RATE: u16 = 500;

/// The one record that every goal and every judge is counted in.
#[derive(Clone, Copy, Debug, PartialEq, Eq)]
pub struct GlobalState {
    /// Who set the registry up.
    pub authority: Identity,
    /// How many goals have been created.
    pub total_goals: u64,
    /// How many judges have registered.
    pub total_judges: u64,
    /// What a judge locks at registration, in minor units.
    pub min_judge_stakes: u64,
    /// Reward rate for judges in basis points. No settlement reads it.
    pub judge_reward_rate: u16,
    /// The forfeited stakes, summed.
    pub reward_pool: u64,
}

impl GlobalState {
    /// The registry as set-up leaves it for `authority`: nothing counted,
    /// nothing forfeited, the initial stake and rate.
    pub open spec fn fresh(authority: Identity) -> GlobalState {
        GlobalState {
            authority,
            total_goals: 0,
            total_judges: 0,
            min_judge_stakes: INITIAL_MIN_JUDGE_STAKE,
            judge_reward_rate: INITIAL_JUDGE_REWARD_RATE,
            reward_pool: 0,
        }
    }
}

impl Default for GlobalState {
    /// A registry record before set-up: all counters zero, nobody in charge.
    fn default() -> (state: GlobalState)
        ensures
            state.authority.is_zero(),
            state.total_goals == 0,
            state.total_judges == 0,
            state.min_judge_stakes == 0,
            state.judge_reward_rate == 0,
            state.reward_pool == 0,
    {
        GlobalState {
            authority: Identity::default(),
            total_goals: 0,
            total_judges: 0,
            min_judge_stakes: 0,
            judge_reward_rate: 0,
            reward_pool: 0,
        }
    }
}

/// What setting the registry up names: the party that asks for it and the
/// record to fill.
#[derive(Clone, Copy, Debug, PartialEq, Eq)]
pub struct Initialize {
    /// The party that asks for the set-up.
    pub authority: Identity,
    /// The registry record, to be filled.
    pub global_state: GlobalState,
}

/// Sets the registry up under `authority`. Whatever the record held is
/// replaced; the request is never refused.
pub fn initialize(ctx: &mut Initialize, authority: Identity) -> (result: Result<
    (),
    TimeStakerError,
>)
    ensures
        result is Ok,
        final(ctx).global_state == GlobalState::fresh(authority),
        final(ctx).authority == old(ctx).authority,
{
    ctx.global_state.authority = authority;
    ctx.global_state.total_goals = 0;
    ctx.global_state.total_judges = 0;
    ctx.global_state.min_judge_stakes = INITIAL_MIN_JUDGE_STAKE;
    ctx.global_state.judge_reward_rate = INITIAL_JUDGE_REWARD_RATE;
    ctx.global_state.reward_pool = 0;
    Ok(())
}

} // verus!
