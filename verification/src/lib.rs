pub mod ballot;
pub mod clock;
pub mod error;
pub mod events;
pub mod goal;
pub mod identity;
pub mod judge;
pub mod laws;
pub mod ledger;
pub mod model;
pub mod registry;
pub mod reputation;
pub mod rules;
pub mod settlement;
pub mod table;
pub mod transfer;

pub use ballot::{vote, vote_at, Vote, VoteRecord};
pub use clock::InstructionError;
pub use error::TimeStakerError;
pub use events::{GoalCreated, GoalFinalized, JudgeRegistered, ProofSubmitted, VoteCast};
pub use goal::{
    create_goal, create_goal_at, submit_proof, submit_proof_at, CreateGoal, Goal, GoalStatus,
    ProofType, SubmitProof,
};
pub use identity::Identity;
pub use ledger::Ledger;
pub use model::LedgerError;
pub use judge::{
    register_judge, register_judge_at, withdraw_judge_stake, Judge, RegisterJudge,
    WithdrawJudgeStake,
};
pub use registry::{initialize, GlobalState, Initialize};
pub use reputation::{update_judge_reputation, UpdateJudgeReputation};
pub use settlement::{finalize_goal, finalize_goal_at, FinalizeGoal};
pub use transfer::{Holder, Transfer};
