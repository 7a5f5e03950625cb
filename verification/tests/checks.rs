use time_staker::ballot::{check_vote, check_vote_fits};
use time_staker::goal::{check_create_goal, check_submit_proof};
use time_staker::judge::check_withdraw_judge_stake;
use time_staker::reputation::{check_update_judge_reputation, check_update_judge_reputation_fits};
use time_staker::settlement::{check_finalize_goal, check_payout_account};
use time_staker::{
    finalize_goal_at, FinalizeGoal, GlobalState, Goal, GoalStatus, Holder, Identity, Judge,
    TimeStakerError, Transfer,
};

fn checks_test_party(tag: u8) -> Identity {
    Identity::new([tag; 32])
}

fn checks_test_goal(status: GoalStatus) -> Goal {
    Goal {
        creator: checks_test_party(1),
        goal_id: 42,
        description: String::from("run a marathon"),
        stake_amount: 250_000_000,
        deadline: 10_000,
        voting_deadline: 614_800,
        status,
        created_at: 1_000,
        finalized_at: None,
        proof_data: None,
        proof_type: None,
        proof_submitted_at: None,
        total_votes: 0,
        yes_votes: 0,
        bump: 254,
    }
}

fn checks_test_judge(is_active: bool) -> Judge {
    Judge {
        judge: checks_test_party(5),
        stake_amount: 1_000_000_000,
        reputation_score: 100,
        total_votes: 0,
        correct_votes: 0,
        registered_at: 77,
        is_active,
    }
}

#[test]
fn check_create_goal_names_the_first_fault() {
    assert_eq!(check_create_goal("run", 100_000_000, 2, 1), None);
    assert_eq!(check_create_goal("run", 99_999_999, 2, 1), Some(TimeStakerError::InsufficientStake));
    assert_eq!(check_create_goal("run", 0, 1, 1), Some(TimeStakerError::InsufficientStake));
    assert_eq!(check_create_goal("run", u64::MAX, 1, 1), Some(TimeStakerError::InvalidDeadline));
    assert_eq!(
        check_create_goal(&"d".repeat(501), u64::MAX, 2, 1),
        Some(TimeStakerError::DescriptionTooLong)
    );
    assert_eq!(check_create_goal(&"d".repeat(500), u64::MAX, 2, 1), None);
    assert_eq!(check_create_goal("", 100_000_000, i64::MAX, i64::MAX - 1), None);
}

#[test]
fn check_submit_proof_names_the_first_fault() {
    let goal = checks_test_goal(GoalStatus::Active);
    let creator = checks_test_party(1);
    assert_eq!(check_submit_proof(&goal, &creator, "photo", 10_000), None);
    assert_eq!(
        check_submit_proof(&goal, &checks_test_party(2), "photo", 10_000),
        Some(TimeStakerError::Unauthorized)
    );
    assert_eq!(
        check_submit_proof(&goal, &creator, "photo", 10_001),
        Some(TimeStakerError::DeadlinePassed)
    );
    assert_eq!(
        check_submit_proof(&goal, &creator, &"p".repeat(501), 10_000),
        Some(TimeStakerError::ProofTooLong)
    );
    assert_eq!(
        check_submit_proof(&checks_test_goal(GoalStatus::Failed), &creator, "photo", 10_000),
        Some(TimeStakerError::InvalidGoalStatus)
    );
    assert_eq!(
        check_submit_proof(&checks_test_goal(GoalStatus::Failed), &creator, "photo", 10_001),
        Some(TimeStakerError::DeadlinePassed)
    );
    assert_eq!(
        check_submit_proof(
            &checks_test_goal(GoalStatus::Failed),
            &checks_test_party(2),
            "photo",
            10_001
        ),
        Some(TimeStakerError::Unauthorized)
    );
    assert_eq!(
        check_submit_proof(&checks_test_goal(GoalStatus::Failed), &creator, &"p".repeat(501), 1),
        Some(TimeStakerError::InvalidGoalStatus)
    );
}

#[test]
fn check_vote_fits_asks_for_room_where_the_vote_counts() {
    let mut goal = checks_test_goal(GoalStatus::PendingVerification);
    assert!(check_vote_fits(&goal, true));
    assert!(check_vote_fits(&goal, false));
    goal.yes_votes = u64::MAX;
    assert!(!check_vote_fits(&goal, true));
    assert!(check_vote_fits(&goal, false));
    goal.total_votes = u64::MAX;
    goal.yes_votes = 0;
    assert!(!check_vote_fits(&goal, true));
    assert!(!check_vote_fits(&goal, false));
}

#[test]
fn check_update_judge_reputation_fits_asks_for_room_where_the_vote_counts() {
    let mut judge = checks_test_judge(true);
    assert!(check_update_judge_reputation_fits(&judge, true, GoalStatus::Completed));
    judge.correct_votes = u32::MAX;
    assert!(!check_update_judge_reputation_fits(&judge, true, GoalStatus::Completed));
    assert!(!check_update_judge_reputation_fits(&judge, false, GoalStatus::Failed));
    assert!(check_update_judge_reputation_fits(&judge, false, GoalStatus::Completed));
    assert!(check_update_judge_reputation_fits(&judge, true, GoalStatus::Failed));
    judge.correct_votes = 0;
    judge.total_votes = u32::MAX;
    assert!(!check_update_judge_reputation_fits(&judge, false, GoalStatus::Completed));
    assert!(!check_update_judge_reputation_fits(&judge, true, GoalStatus::Completed));
}

#[test]
fn check_payout_account_takes_the_holder_that_the_order_pays() {
    let creator = checks_test_party(1);
    let order = Transfer {
        from: Holder::GoalEscrow(42),
        to: Holder::Wallet(creator),
        amount: 275_000_000,
    };
    assert_eq!(check_payout_account(&order, &creator), None);
    assert_eq!(
        check_payout_account(&order, &checks_test_party(2)),
        Some(TimeStakerError::Unauthorized)
    );
    let to_custody = Transfer { to: Holder::JudgeEscrow(creator), ..order };
    assert_eq!(check_payout_account(&to_custody, &creator), Some(TimeStakerError::Unauthorized));
}

#[test]
fn the_payout_of_a_settlement_can_be_handed_to_the_creator_only() {
    let mut goal = checks_test_goal(GoalStatus::PendingVerification);
    goal.proof_data = Some(String::from("photo"));
    let mut ctx = FinalizeGoal { goal, global_state: GlobalState::default() };
    let (_, payout) = finalize_goal_at(&mut ctx, 700_000).unwrap();
    let order = payout.unwrap();
    assert_eq!(check_payout_account(&order, &checks_test_party(1)), None);
    assert_eq!(
        check_payout_account(&order, &checks_test_party(5)),
        Some(TimeStakerError::Unauthorized)
    );
}

#[test]
fn check_vote_names_the_first_fault() {
    let goal = checks_test_goal(GoalStatus::PendingVerification);
    assert_eq!(check_vote(&goal, &checks_test_judge(true), 614_800), None);
    assert_eq!(
        check_vote(&goal, &checks_test_judge(true), 614_801),
        Some(TimeStakerError::VotingDeadlinePassed)
    );
    assert_eq!(
        check_vote(&goal, &checks_test_judge(false), 614_800),
        Some(TimeStakerError::JudgeNotActive)
    );
    assert_eq!(
        check_vote(&checks_test_goal(GoalStatus::Active), &checks_test_judge(true), 0),
        Some(TimeStakerError::InvalidGoalStatus)
    );
}

#[test]
fn check_finalize_goal_names_the_first_fault() {
    let goal = checks_test_goal(GoalStatus::PendingVerification);
    assert_eq!(check_finalize_goal(&goal, 614_801), None);
    assert_eq!(check_finalize_goal(&goal, 614_800), Some(TimeStakerError::VotingStillActive));
    assert_eq!(
        check_finalize_goal(&checks_test_goal(GoalStatus::Completed), 614_801),
        Some(TimeStakerError::InvalidGoalStatus)
    );
}

#[test]
fn check_update_judge_reputation_asks_for_a_settled_goal() {
    assert_eq!(check_update_judge_reputation(GoalStatus::Completed), None);
    assert_eq!(check_update_judge_reputation(GoalStatus::Failed), None);
    for status in [GoalStatus::Active, GoalStatus::PendingVerification, GoalStatus::Cancelled] {
        assert_eq!(check_update_judge_reputation(status), Some(TimeStakerError::GoalNotFinalized));
    }
}

#[test]
fn check_withdraw_judge_stake_names_the_first_fault() {
    let judge = checks_test_judge(true);
    assert_eq!(check_withdraw_judge_stake(&judge, &checks_test_party(5)), None);
    assert_eq!(
        check_withdraw_judge_stake(&judge, &checks_test_party(6)),
        Some(TimeStakerError::Unauthorized)
    );
    assert_eq!(
        check_withdraw_judge_stake(&checks_test_judge(false), &checks_test_party(5)),
        Some(TimeStakerError::JudgeNotActive)
    );
}
