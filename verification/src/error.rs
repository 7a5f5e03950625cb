use vstd::prelude::*;
use vstd::string::StringExecFns;

verus! {

/// Why the protocol refuses a request. Every refusal is decided before
/// anything is written, so a refused request leaves all records as they were.
#[derive(Clone, Copy, Debug, PartialEq, Eq, Structural)]
pub enum TimeStakerError {
    /// The stake offered for a goal is below the minimum.
    InsufficientStake,
    /// The deadline of a new goal is not in the future.
    InvalidDeadline,
    /// The description of a goal is longer than allowed.
    DescriptionTooLong,
    /// The caller is not the party that the record belongs to.
    Unauthorized,
    /// The goal is not in the state that the request needs.
    InvalidGoalStatus,
    /// The goal's deadline is over.
    DeadlinePassed,
    /// The proof is longer than allowed.
    ProofTooLong,
    /// The judge has withdrawn.
    JudgeNotActive,
    /// The voting window of the goal is closed.
    VotingDeadlinePassed,
    /// The voting window of the goal is still open.
    VotingStillActive,
    /// The goal has not been settled yet.
    GoalNotFinalized,
}

impl TimeStakerError {
    /// The text shown to a caller for this refusal.
    pub open spec fn message_text(self) -> Seq<char> {
        match self {
            TimeStakerError::InsufficientStake => "Insufficient stake amount"@,
            TimeStakerError::InvalidDeadline => "Invalid Deadline"@,
            TimeStakerError::DescriptionTooLong => "Description too long"@,
            TimeStakerError::Unauthorized => "Unauthorized"@,
            TimeStakerError::InvalidGoalStatus => "Invalid goal status"@,
            TimeStakerError::DeadlinePassed => "Deadline has passed"@,
            TimeStakerError::ProofTooLong => "Proof data too long"@,
            TimeStakerError::JudgeNotActive => "Judge not active"@,
            TimeStakerError::VotingDeadlinePassed => "Voting deadline has passed"@,
            TimeStakerError::VotingStillActive => "Voting is still active"@,
            TimeStakerError::GoalNotFinalized => "Goal not finalized"@,
        }
    }

    /// The text shown to a caller for this refusal.
    pub fn message(&self) -> (text: String)
        ensures
            text@ == self.message_text(),
    {
        match self {
            TimeStakerError::InsufficientStake => String::from_str("Insufficient stake amount"),
            TimeStakerError::InvalidDeadline => String::from_str("Invalid Deadline"),
            TimeStakerError::DescriptionTooLong => String::from_str("Description too long"),
            TimeStakerError::Unauthorized => String::from_str("Unauthorized"),
            TimeStakerError::InvalidGoalStatus => String::from_str("Invalid goal status"),
            TimeStakerError::DeadlinePassed => String::from_str("Deadline has passed"),
            TimeStakerError::ProofTooLong => String::from_str("Proof data too long"),
            TimeStakerError::JudgeNotActive => String::from_str("Judge not active"),
            TimeStakerError::VotingDeadlinePassed => String::from_str("Voting deadline has passed"),
            TimeStakerError::VotingStillActive => String::from_str("Voting is still active"),
            TimeStakerError::GoalNotFinalized => String::from_str("Goal not finalized"),
        }
    }
}

} // verus!
