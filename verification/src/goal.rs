use crate::clock::{ledger_unix_timestamp, InstructionError};
use crate::error::TimeStakerError;
use crate::events::{GoalCreated, ProofSubmitted};
use crate::identity::Identity;
use crate::registry::GlobalState;
use crate::rules::{is_successful, MAX_TEXT_LEN, MIN_GOAL_STAKE, VOTING_PERIOD_SECS};
use crate::transfer::{Holder, Transfer};
use vstd::prelude::*;
use vstd::string::StrSliceExecFns;

verus! {

/// Where a goal stands. A goal only ever moves forward: from `Active` to
/// `PendingVerification`, and from there to `Completed` or to `Failed`.
/// Nothing moves a goal to `Cancelled`, which is kept in reserve.
#[derive(Clone, Copy, Debug, PartialEq, Eq, Structural)]
pub enum GoalStatus {
    Active,
    PendingVerification,
    Completed,
    Failed,
    Cancelled,
}

impl GoalStatus {
    /// Whether the goal has been settled, one way or the other.
    pub open spec fn is_settled(self) -> bool {
        self == GoalStatus::Completed || self == GoalStatus::Failed
    }

    /// How far along its life a goal in this status is.
    pub open spec fn stage(self) -> nat {
        match self {
            GoalStatus::Active => 0,
            GoalStatus::PendingVerification => 1,
            GoalStatus::Completed => 2,
            GoalStatus::Failed => 2,
            GoalStatus::Cancelled => 2,
        }
    }
}

/// What kind of thing a proof is. The tag is stored and never read.
#[derive(Clone, Copy, Debug, PartialEq, Eq, Structural)]
pub enum ProofType {
    Image,
    Document,
    Link,
    Text,
    Video,
}

/// One goal: who committed to what, for how much and until when, what proof
/// was handed in, and how the judges voted.
#[derive(Clone, Debug, PartialEq, Eq)]
pub struct Goal {
    pub creator: Identity,
    pub goal_id: u64,
    pub description: String,
    pub stake_amount: u64,
    pub deadline: i64,
    pub voting_deadline: i64,
    pub status: GoalStatus,
    pub created_at: i64,
    pub finalized_at: Option<i64>,
    pub proof_data: Option<String>,
    pub proof_type: Option<ProofType>,
    pub proof_submitted_at: Option<i64>,
    pub total_votes: u64,
    pub yes_votes: u64,
    /// The seed that the ledger chose for this record's address. Carried,
    /// never read.
    pub bump: u8,
}

/// A goal as a mathematical value, with its texts as sequences of characters.
pub struct GoalView {
    pub creator: Identity,
    pub goal_id: u64,
    pub description: Seq<char>,
    pub stake_amount: u64,
    pub deadline: i64,
    pub voting_deadline: i64,
    pub status: GoalStatus,
    pub created_at: i64,
    pub finalized_at: Option<i64>,
    pub proof_data: Option<Seq<char>>,
    pub proof_type: Option<ProofType>,
    pub proof_submitted_at: Option<i64>,
    pub total_votes: u64,
    pub yes_votes: u64,
    pub bump: u8,
}

impl View for Goal {
    type V = GoalView;

    open spec fn view(&self) -> GoalView {
        GoalView {
            creator: self.creator,
            goal_id: self.goal_id,
            description: self.description@,
            stake_amount: self.stake_amount,
            deadline: self.deadline,
            voting_deadline: self.voting_deadline,
            status: self.status,
            created_at: self.created_at,
            finalized_at: self.finalized_at,
            proof_data: match self.proof_data {
                Some(text) => Some(text@),
                None => None,
            },
            proof_type: self.proof_type,
            proof_submitted_at: self.proof_submitted_at,
            total_votes: self.total_votes,
            yes_votes: self.yes_votes,
            bump: self.bump,
        }
    }
}

impl GoalView {
    /// Whether a proof is on record: its text, within the limit, its kind,
    /// and a time of submission that is not after the deadline.
    pub open spec fn has_proof(self) -> bool {
        &&& self.proof_data matches Some(text) && text.len() <= MAX_TEXT_LEN
        &&& self.proof_type is Some
        &&& self.proof_submitted_at matches Some(at) && at <= self.deadline
    }

    /// Whether no proof is on record.
    pub open spec fn has_no_proof(self) -> bool {
        self.proof_data is None && self.proof_type is None && self.proof_submitted_at is None
    }

    /// Whether two goals agree in what is fixed at creation: the creator,
    /// the id, the description, the stake, the deadline, the close of the
    /// voting window, the time of creation and the address seed.
    pub open spec fn same_terms(self, other: GoalView) -> bool {
        &&& self.creator == other.creator
        &&& self.goal_id == other.goal_id
        &&& self.description == other.description
        &&& self.stake_amount == other.stake_amount
        &&& self.deadline == other.deadline
        &&& self.voting_deadline == other.voting_deadline
        &&& self.created_at == other.created_at
        &&& self.bump == other.bump
    }

    /// What holds of every goal that the protocol has created and worked on:
    /// the stake is at least the minimum, the deadline lay in the future at
    /// creation, the voting window closes exactly 7 days after the deadline,
    /// no more votes are in favour than were cast, and the status agrees
    /// with what else is on record. In particular no such goal is
    /// `Cancelled`.
    pub open spec fn wf(self) -> bool {
        &&& self.stake_amount >= MIN_GOAL_STAKE
        &&& self.description.len() <= MAX_TEXT_LEN
        &&& self.created_at < self.deadline
        &&& self.voting_deadline == self.deadline + VOTING_PERIOD_SECS
        &&& self.yes_votes <= self.total_votes
        &&& match self.status {
            GoalStatus::Active => {
                &&& self.has_no_proof()
                &&& self.finalized_at is None
                &&& self.total_votes == 0
            },
            GoalStatus::PendingVerification => {
                &&& self.has_proof()
                &&& self.finalized_at is None
            },
            GoalStatus::Completed => {
                &&& self.has_proof()
                &&& self.finalized_at matches Some(at) && at > self.voting_deadline
                &&& is_successful(self.total_votes as nat, self.yes_votes as nat)
            },
            GoalStatus::Failed => {
                &&& self.has_proof()
                &&& self.finalized_at matches Some(at) && at > self.voting_deadline
                &&& !is_successful(self.total_votes as nat, self.yes_votes as nat)
            },
            GoalStatus::Cancelled => false,
        }
    }
}

impl Goal {
    /// Whether this goal is one that the protocol can have produced.
    pub open spec fn wf(&self) -> bool {
        self@.wf()
    }
}

impl Default for Goal {
    /// A goal record that nothing has been written to.
    fn default() -> (goal: Goal)
        ensures
            goal.creator.is_zero(),
            goal.goal_id == 0,
            goal.description@.len() == 0,
            goal.stake_amount == 0,
            goal.deadline == 0,
            goal.voting_deadline == 0,
            goal.status == GoalStatus::Active,
            goal.created_at == 0,
            goal.finalized_at is None,
            goal.proof_data is None,
            goal.proof_type is None,
            goal.proof_submitted_at is None,
            goal.total_votes == 0,
            goal.yes_votes == 0,
            goal.bump == 0,
    {
        Goal {
            creator: Identity::default(),
            goal_id: 0,
            description: String::new(),
            stake_amount: 0,
            deadline: 0,
            voting_deadline: 0,
            status: GoalStatus::Active,
            created_at: 0,
            finalized_at: None,
            proof_data: None,
            proof_type: None,
            proof_submitted_at: None,
            total_votes: 0,
            yes_votes: 0,
            bump: 0,
        }
    }
}

/// What creating a goal names: the creator, the record to fill, the
/// registry that counts it, and the address seed of the record.
#[derive(Clone, Debug, PartialEq, Eq)]
pub struct CreateGoal {
    /// The party that commits to the goal and pays the stake.
    pub creator: Identity,
    /// The goal record, to be filled.
    pub goal: Goal,
    /// The registry.
    pub global_state: GlobalState,
    /// The address seed of the goal record.
    pub bump: u8,
}

/// What handing in proof names: the goal and the party that hands it in.
#[derive(Clone, Debug, PartialEq, Eq)]
pub struct SubmitProof {
    /// The goal that the proof is for.
    pub goal: Goal,
    /// The party that hands the proof in.
    pub creator: Identity,
}

/// Why a goal cannot be created, if it cannot. The stake is looked at
/// first, then the deadline, then the description.
pub open spec fn create_goal_refusal(
    description: Seq<char>,
    stake_amount: u64,
    deadline: i64,
    now: i64,
) -> Option<TimeStakerError> {
    if stake_amount < MIN_GOAL_STAKE {
        Some(TimeStakerError::InsufficientStake)
    } else if deadline <= now {
        Some(TimeStakerError::InvalidDeadline)
    } else if description.len() > MAX_TEXT_LEN {
        Some(TimeStakerError::DescriptionTooLong)
    } else {
        None
    }
}

/// Decides whether a goal can be created: `None` if it can, the refusal if
/// it cannot.
pub fn check_create_goal(description: &str, stake_amount: u64, deadline: i64, now: i64) -> (refusal:
    Option<TimeStakerError>)
    ensures
        refusal == create_goal_refusal(description@, stake_amount, deadline, now),
{
    if stake_amount < MIN_GOAL_STAKE {
        Some(TimeStakerError::InsufficientStake)
    } else if deadline <= now {
        Some(TimeStakerError::InvalidDeadline)
    } else if description.unicode_len() > MAX_TEXT_LEN {
        Some(TimeStakerError::DescriptionTooLong)
    } else {
        None
    }
}

/// The goal as its creation leaves it: active, without proof or votes, its
/// voting window closing 7 days after the deadline.
pub open spec fn opened_goal(
    creator: Identity,
    goal_id: u64,
    description: Seq<char>,
    stake_amount: u64,
    deadline: i64,
    now: i64,
    bump: u8,
) -> GoalView {
    GoalView {
        creator,
        goal_id,
        description,
        stake_amount,
        deadline,
        voting_deadline: (deadline + VOTING_PERIOD_SECS) as i64,
        status: GoalStatus::Active,
        created_at: now,
        finalized_at: None,
        proof_data: None,
        proof_type: None,
        proof_submitted_at: None,
        total_votes: 0,
        yes_votes: 0,
        bump,
    }
}

/// Whether the numbers that creating a goal writes fit where they are
/// written: the close of the voting window and the count of goals.
pub open spec fn create_goal_fits(registry: GlobalState, deadline: i64) -> bool {
    deadline + VOTING_PERIOD_SECS <= i64::MAX && registry.total_goals < u64::MAX
}

/// What creating a goal at time `now` does, as a relation between what was
/// named before and after and what is handed back. A refused request
/// changes nothing. An accepted one fills the goal record, counts the goal
/// in the registry, and orders the stake moved from the creator into the
/// goal's custody.
pub open spec fn create_goal_outcome(
    before: CreateGoal,
    after: CreateGoal,
    goal_id: u64,
    description: Seq<char>,
    stake_amount: u64,
    deadline: i64,
    now: i64,
    result: Result<(GoalCreated, Transfer), TimeStakerError>,
) -> bool {
    match result {
        Ok((event, transfer)) => {
            &&& create_goal_refusal(description, stake_amount, deadline, now) is None
            &&& after.goal@ == opened_goal(
                before.creator,
                goal_id,
                description,
                stake_amount,
                deadline,
                now,
                before.bump,
            )
            &&& after.global_state == (GlobalState {
                total_goals: (before.global_state.total_goals + 1) as u64,
                ..before.global_state
            })
            &&& after.creator == before.creator
            &&& after.bump == before.bump
            &&& event == (GoalCreated {
                goal_id,
                creator: before.creator,
                stake_amount,
                deadline,
            })
            &&& transfer == (Transfer {
                from: Holder::Wallet(before.creator),
                to: Holder::GoalEscrow(goal_id),
                amount: stake_amount,
            })
        },
        Err(e) => {
            &&& create_goal_refusal(description, stake_amount, deadline, now) == Some(e)
            &&& after == before
        },
    }
}

/// Creates a goal at time `now`: see `create_goal_outcome`.
pub fn create_goal_at(
    ctx: &mut CreateGoal,
    goal_id: u64,
    description: String,
    stake_amount: u64,
    deadline: i64,
    now: i64,
) -> (result: Result<(GoalCreated, Transfer), TimeStakerError>)
    requires
        create_goal_refusal(description@, stake_amount, deadline, now) is None
            ==> create_goal_fits(old(ctx).global_state, deadline),
    ensures
        create_goal_outcome(
            *old(ctx),
            *final(ctx),
            goal_id,
            description@,
            stake_amount,
            deadline,
            now,
            result,
        ),
        result is Ok ==> final(ctx).goal.wf(),
{
    if let Some(refusal) = check_create_goal(description.as_str(), stake_amount, deadline, now) {
        return Err(refusal);
    }
    let creator = ctx.creator;
    ctx.goal.creator = creator;
    ctx.goal.goal_id = goal_id;
    ctx.goal.description = description;
    ctx.goal.stake_amount = stake_amount;
    ctx.goal.deadline = deadline;
    ctx.goal.status = GoalStatus::Active;
    ctx.goal.created_at = now;
    ctx.goal.total_votes = 0;
    ctx.goal.yes_votes = 0;
    ctx.goal.voting_deadline = deadline + VOTING_PERIOD_SECS;
    ctx.goal.proof_data = None;
    ctx.goal.proof_type = None;
    ctx.goal.proof_submitted_at = None;
    ctx.goal.finalized_at = None;
    ctx.goal.bump = ctx.bump;
    ctx.global_state.total_goals = ctx.global_state.total_goals + 1;
    Ok(
        (
            GoalCreated { goal_id, creator, stake_amount, deadline },
            Transfer {
                from: Holder::Wallet(creator),
                to: Holder::GoalEscrow(goal_id),
                amount: stake_amount,
            },
        ),
    )
}

/// What `create_goal` answers if the ledger's clock shows `now`, or shows
/// nothing. Where the clock cannot be read, or a number would not fit,
/// nothing changes; otherwise the request is decided as
/// `create_goal_outcome` says for `now`.
pub open spec fn create_goal_answer(
    before: CreateGoal,
    after: CreateGoal,
    goal_id: u64,
    description: Seq<char>,
    stake_amount: u64,
    deadline: i64,
    now: i64,
    result: Result<(GoalCreated, Transfer), InstructionError>,
) -> bool {
    match result {
        Ok(done) => {
            &&& create_goal_fits(before.global_state, deadline)
            &&& create_goal_outcome(
                before,
                after,
                goal_id,
                description,
                stake_amount,
                deadline,
                now,
                Ok(done),
            )
        },
        Err(InstructionError::Refused(e)) => create_goal_outcome(
            before,
            after,
            goal_id,
            description,
            stake_amount,
            deadline,
            now,
            Err(e),
        ),
        Err(InstructionError::Overflow) => {
            &&& create_goal_refusal(description, stake_amount, deadline, now) is None
            &&& !create_goal_fits(before.global_state, deadline)
            &&& after == before
        },
        Err(InstructionError::ClockUnavailable(_)) => after == before,
    }
}

/// Creates a goal at the time that the ledger's clock shows. A stake below
/// the minimum is refused with `InsufficientStake` before the clock is read.
/// Otherwise, for some time `now`, the answer is what `create_goal_answer`
/// says for it.
pub fn create_goal(
    ctx: &mut CreateGoal,
    goal_id: u64,
    description: String,
    stake_amount: u64,
    deadline: i64,
) -> (result: Result<(GoalCreated, Transfer), InstructionError>)
    ensures
        exists|now: i64|
            create_goal_answer(
                *old(ctx),
                *final(ctx),
                goal_id,
                description@,
                stake_amount,
                deadline,
                now,
                result,
            ),
        stake_amount < MIN_GOAL_STAKE ==> {
            &&& result == Err::<(GoalCreated, Transfer), InstructionError>(
                InstructionError::Refused(TimeStakerError::InsufficientStake),
            )
            &&& *final(ctx) == *old(ctx)
        },
        result is Ok ==> final(ctx).goal.wf(),
{
    let ghost text = description@;
    if stake_amount < MIN_GOAL_STAKE {
        let result = Err(InstructionError::Refused(TimeStakerError::InsufficientStake));
        assert(create_goal_answer(
            *old(ctx),
            *ctx,
            goal_id,
            text,
            stake_amount,
            deadline,
            0,
            result,
        ));
        return result;
    }
    let now = match ledger_unix_timestamp() {
        Ok(now) => now,
        Err(e) => {
            let result = Err(InstructionError::ClockUnavailable(e));
            assert(create_goal_answer(
                *old(ctx),
                *ctx,
                goal_id,
                text,
                stake_amount,
                deadline,
                0,
                result,
            ));
            return result;
        },
    };
    let result = if let Some(refusal) = check_create_goal(
        description.as_str(),
        stake_amount,
        deadline,
        now,
    ) {
        Err(InstructionError::Refused(refusal))
    } else if deadline > i64::MAX - VOTING_PERIOD_SECS || ctx.global_state.total_goals == u64::MAX {
        Err(InstructionError::Overflow)
    } else {
        match create_goal_at(ctx, goal_id, description, stake_amount, deadline, now) {
            Ok(done) => Ok(done),
            Err(refusal) => Err(InstructionError::Refused(refusal)),
        }
    };
    assert(create_goal_answer(
        *old(ctx),
        *ctx,
        goal_id,
        text,
        stake_amount,
        deadline,
        now,
        result,
    ));
    result
}

/// Why proof cannot be handed in, if it cannot. The caller is looked at
/// first, then the deadline, then the goal's status, then the proof: once
/// the deadline is over the creator is told so, whatever has become of the
/// goal.
pub open spec fn submit_proof_refusal(
    goal: GoalView,
    caller: Identity,
    proof_data: Seq<char>,
    now: i64,
) -> Option<TimeStakerError> {
    if goal.creator != caller {
        Some(TimeStakerError::Unauthorized)
    } else if now > goal.deadline {
        Some(TimeStakerError::DeadlinePassed)
    } else if goal.status != GoalStatus::Active {
        Some(TimeStakerError::InvalidGoalStatus)
    } else if proof_data.len() > MAX_TEXT_LEN {
        Some(TimeStakerError::ProofTooLong)
    } else {
        None
    }
}

/// Decides whether proof can be handed in: `None` if it can, the refusal if
/// it cannot.
pub fn check_submit_proof(goal: &Goal, caller: &Identity, proof_data: &str, now: i64) -> (refusal:
    Option<TimeStakerError>)
    ensures
        refusal == submit_proof_refusal(goal@, *caller, proof_data@, now),
{
    if goal.creator != *caller {
        Some(TimeStakerError::Unauthorized)
    } else if now > goal.deadline {
        Some(TimeStakerError::DeadlinePassed)
    } else if goal.status != GoalStatus::Active {
        Some(TimeStakerError::InvalidGoalStatus)
    } else if proof_data.unicode_len() > MAX_TEXT_LEN {
        Some(TimeStakerError::ProofTooLong)
    } else {
        None
    }
}

/// The goal once proof has been handed in at `now`: the proof is on record
/// and the goal awaits the judges. Nothing else changes.
pub open spec fn goal_with_proof(
    goal: GoalView,
    proof_data: Seq<char>,
    proof_type: ProofType,
    now: i64,
) -> GoalView {
    GoalView {
        proof_data: Some(proof_data),
        proof_type: Some(proof_type),
        proof_submitted_at: Some(now),
        status: GoalStatus::PendingVerification,
        ..goal
    }
}

/// What handing in proof at time `now` does. A refused request changes
/// nothing. An accepted one puts the proof on record and moves the goal to
/// `PendingVerification`. No funds move.
pub open spec fn submit_proof_outcome(
    before: SubmitProof,
    after: SubmitProof,
    proof_data: Seq<char>,
    proof_type: ProofType,
    now: i64,
    result: Result<ProofSubmitted, TimeStakerError>,
) -> bool {
    match result {
        Ok(event) => {
            &&& submit_proof_refusal(before.goal@, before.creator, proof_data, now) is None
            &&& after.goal@ == goal_with_proof(before.goal@, proof_data, proof_type, now)
            &&& after.creator == before.creator
            &&& event == (ProofSubmitted {
                goal_id: before.goal.goal_id,
                creator: before.creator,
                proof_type,
            })
        },
        Err(e) => {
            &&& submit_proof_refusal(before.goal@, before.creator, proof_data, now) == Some(e)
            &&& after == before
        },
    }
}

/// Hands in proof for a goal at time `now`: see `submit_proof_outcome`.
pub fn submit_proof_at(
    ctx: &mut SubmitProof,
    proof_data: String,
    proof_type: ProofType,
    now: i64,
) -> (result: Result<ProofSubmitted, TimeStakerError>)
    ensures
        submit_proof_outcome(*old(ctx), *final(ctx), proof_data@, proof_type, now, result),
        old(ctx).goal.wf() ==> final(ctx).goal.wf(),
{
    if let Some(refusal) = check_submit_proof(&ctx.goal, &ctx.creator, proof_data.as_str(), now) {
        return Err(refusal);
    }
    ctx.goal.proof_data = Some(proof_data);
    ctx.goal.proof_type = Some(proof_type);
    ctx.goal.proof_submitted_at = Some(now);
    ctx.goal.status = GoalStatus::PendingVerification;
    Ok(ProofSubmitted { goal_id: ctx.goal.goal_id, creator: ctx.creator, proof_type })
}

/// What `submit_proof` answers if the ledger's clock shows `now`, or shows
/// nothing. Where the clock cannot be read, nothing changes; otherwise the
/// request is decided as `submit_proof_outcome` says for `now`.
pub open spec fn submit_proof_answer(
    before: SubmitProof,
    after: SubmitProof,
    proof_data: Seq<char>,
    proof_type: ProofType,
    now: i64,
    result: Result<ProofSubmitted, InstructionError>,
) -> bool {
    match result {
        Ok(event) => submit_proof_outcome(before, after, proof_data, proof_type, now, Ok(event)),
        Err(InstructionError::Refused(e)) => submit_proof_outcome(
            before,
            after,
            proof_data,
            proof_type,
            now,
            Err(e),
        ),
        Err(InstructionError::Overflow) => false,
        Err(InstructionError::ClockUnavailable(_)) => after == before,
    }
}

/// Hands in proof for a goal at the time that the ledger's clock shows.
/// Anyone but the goal's creator is refused with `Unauthorized` before the
/// clock is read. Otherwise, for some time `now`, the answer is what
/// `submit_proof_answer` says for it.
pub fn submit_proof(ctx: &mut SubmitProof, proof_data: String, proof_type: ProofType) -> (result:
    Result<ProofSubmitted, InstructionError>)
    ensures
        exists|now: i64|
            submit_proof_answer(*old(ctx), *final(ctx), proof_data@, proof_type, now, result),
        old(ctx).goal.creator != old(ctx).creator ==> {
            &&& result == Err::<ProofSubmitted, InstructionError>(
                InstructionError::Refused(TimeStakerError::Unauthorized),
            )
            &&& *final(ctx) == *old(ctx)
        },
        old(ctx).goal.wf() ==> final(ctx).goal.wf(),
{
    let ghost text = proof_data@;
    if ctx.goal.creator != ctx.creator {
        let result = Err(InstructionError::Refused(TimeStakerError::Unauthorized));
        assert(submit_proof_answer(*old(ctx), *ctx, text, proof_type, 0, result));
        return result;
    }
    let now = match ledger_unix_timestamp() {
        Ok(now) => now,
        Err(e) => {
            let result = Err(InstructionError::ClockUnavailable(e));
            assert(submit_proof_answer(*old(ctx), *ctx, text, proof_type, 0, result));
            return result;
        },
    };
    let result = match submit_proof_at(ctx, proof_data, proof_type, now) {
        Ok(event) => Ok(event),
        Err(refusal) => Err(InstructionError::Refused(refusal)),
    };
    assert(submit_proof_answer(*old(ctx), *ctx, text, proof_type, now, result));
    result
}

} // verus!
