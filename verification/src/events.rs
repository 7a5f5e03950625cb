use crate::goal::ProofType;
use crate::identity::Identity;
use vstd::prelude::*;

verus! {

/// Told when a goal has been created and its stake locked.
#[derive(Clone, Copy, Debug, PartialEq, Eq)]
pub struct GoalCreated {
    pub goal_id: u64,
    pub creator: Identity,
    pub stake_amount: u64,
    pub deadline: i64,
}

/// Told when a creator has handed in proof for a goal.
#[derive(Clone, Copy, Debug, PartialEq, Eq)]
pub struct ProofSubmitted {
    pub goal_id: u64,
    pub creator: Identity,
    pub proof_type: ProofType,
}

/// Told when a judge has registered and locked the stake.
#[derive(Clone, Copy, Debug, PartialEq, Eq)]
pub struct JudgeRegistered {
    pub judge: Identity,
    pub stake_amount: u64,
}

/// Told when a judge has voted on a goal.
#[derive(Clone, Copy, Debug, PartialEq, Eq)]
pub struct VoteCast {
    pub goal_id: u64,
    pub judge: Identity,
    pub vote: bool,
}

/// Told when a goal has been settled, with the tally that settled it.
#[derive(Clone, Copy, Debug, PartialEq, Eq)]
pub struct GoalFinalized {
    pub goal_id: u64,
    pub successful: bool,
    pub final_votes: u64,
    pub yes_votes: u64,
}

} // verus!
