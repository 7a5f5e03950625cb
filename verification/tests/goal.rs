use time_staker::{
    create_goal_at, submit_proof_at, CreateGoal, GlobalState, Goal, GoalCreated, GoalStatus,
    Holder, Identity, ProofSubmitted, ProofType, SubmitProof, TimeStakerError, Transfer,
};

fn goal_test_party(tag: u8) -> Identity {
    Identity::new([tag; 32])
}

fn goal_test_registry() -> GlobalState {
    GlobalState {
        authority: goal_test_party(9),
        total_goals: 4,
        total_judges: 2,
        min_judge_stakes: 1_000_000_000,
        judge_reward_rate: 500,
        reward_pool: 7,
    }
}

fn goal_test_request() -> CreateGoal {
    CreateGoal {
        creator: goal_test_party(1),
        goal: Goal::default(),
        global_state: goal_test_registry(),
        bump: 254,
    }
}

fn goal_test_active_goal() -> Goal {
    let mut ctx = goal_test_request();
    create_goal_at(&mut ctx, 42, String::from("run a marathon"), 250_000_000, 10_000, 1_000)
        .unwrap();
    ctx.goal
}

#[test]
fn create_goal_fills_the_record_and_orders_the_stake() {
    let mut ctx = goal_test_request();
    let (event, transfer) =
        create_goal_at(&mut ctx, 42, String::from("run a marathon"), 250_000_000, 10_000, 1_000)
            .unwrap();
    assert_eq!(
        ctx.goal,
        Goal {
            creator: goal_test_party(1),
            goal_id: 42,
            description: String::from("run a marathon"),
            stake_amount: 250_000_000,
            deadline: 10_000,
            voting_deadline: 614_800,
            status: GoalStatus::Active,
            created_at: 1_000,
            finalized_at: None,
            proof_data: None,
            proof_type: None,
            proof_submitted_at: None,
            total_votes: 0,
            yes_votes: 0,
            bump: 254,
        }
    );
    assert_eq!(ctx.global_state, GlobalState { total_goals: 5, ..goal_test_registry() });
    assert_eq!(
        event,
        GoalCreated {
            goal_id: 42,
            creator: goal_test_party(1),
            stake_amount: 250_000_000,
            deadline: 10_000
        }
    );
    assert_eq!(
        transfer,
        Transfer {
            from: Holder::Wallet(goal_test_party(1)),
            to: Holder::GoalEscrow(42),
            amount: 250_000_000
        }
    );
}

#[test]
fn create_goal_replaces_whatever_the_record_held() {
    let mut ctx = goal_test_request();
    ctx.goal.total_votes = 9;
    ctx.goal.yes_votes = 9;
    ctx.goal.status = GoalStatus::Failed;
    ctx.goal.finalized_at = Some(3);
    ctx.goal.proof_data = Some(String::from("old"));
    ctx.goal.proof_type = Some(ProofType::Link);
    ctx.goal.proof_submitted_at = Some(2);
    create_goal_at(&mut ctx, 1, String::new(), 100_000_000, 2, 1).unwrap();
    assert_eq!(ctx.goal.status, GoalStatus::Active);
    assert_eq!(ctx.goal.total_votes, 0);
    assert_eq!(ctx.goal.yes_votes, 0);
    assert_eq!(ctx.goal.finalized_at, None);
    assert_eq!(ctx.goal.proof_data, None);
    assert_eq!(ctx.goal.proof_type, None);
    assert_eq!(ctx.goal.proof_submitted_at, None);
    assert_eq!(ctx.goal.voting_deadline, 604_802);
}

#[test]
fn create_goal_accepts_the_minimum_stake() {
    let mut ctx = goal_test_request();
    let (event, transfer) =
        create_goal_at(&mut ctx, 1, String::from("x"), 100_000_000, 5, 4).unwrap();
    assert_eq!(event.stake_amount, 100_000_000);
    assert_eq!(transfer.amount, 100_000_000);
    assert_eq!(ctx.goal.stake_amount, 100_000_000);
}

#[test]
fn create_goal_refuses_a_stake_just_below_the_minimum() {
    let mut ctx = goal_test_request();
    let before = ctx.clone();
    let result = create_goal_at(&mut ctx, 1, String::from("x"), 99_999_999, 5, 4);
    assert_eq!(result, Err(TimeStakerError::InsufficientStake));
    assert_eq!(ctx, before);
}

#[test]
fn create_goal_refuses_a_deadline_that_is_now() {
    let mut ctx = goal_test_request();
    let before = ctx.clone();
    let result = create_goal_at(&mut ctx, 1, String::from("x"), 100_000_000, 4, 4);
    assert_eq!(result, Err(TimeStakerError::InvalidDeadline));
    assert_eq!(ctx, before);
}

#[test]
fn create_goal_refuses_a_deadline_in_the_past() {
    let mut ctx = goal_test_request();
    let result = create_goal_at(&mut ctx, 1, String::from("x"), 100_000_000, -10, 4);
    assert_eq!(result, Err(TimeStakerError::InvalidDeadline));
    let result = create_goal_at(&mut ctx, 1, String::from("x"), 100_000_000, i64::MIN, i64::MAX);
    assert_eq!(result, Err(TimeStakerError::InvalidDeadline));
}

#[test]
fn create_goal_accepts_a_description_of_500_characters() {
    let mut ctx = goal_test_request();
    let result = create_goal_at(&mut ctx, 1, "d".repeat(500), 100_000_000, 5, 4);
    assert!(result.is_ok());
    assert_eq!(ctx.goal.description.len(), 500);
}

#[test]
fn create_goal_refuses_a_description_of_501_characters() {
    let mut ctx = goal_test_request();
    let before = ctx.clone();
    let result = create_goal_at(&mut ctx, 1, "d".repeat(501), 100_000_000, 5, 4);
    assert_eq!(result, Err(TimeStakerError::DescriptionTooLong));
    assert_eq!(ctx, before);
}

#[test]
fn create_goal_measures_the_description_in_characters() {
    let mut ctx = goal_test_request();
    let result = create_goal_at(&mut ctx, 1, "\u{e9}".repeat(500), 100_000_000, 5, 4);
    assert!(result.is_ok());
    let mut ctx = goal_test_request();
    let result = create_goal_at(&mut ctx, 1, "\u{e9}".repeat(501), 100_000_000, 5, 4);
    assert_eq!(result, Err(TimeStakerError::DescriptionTooLong));
}

#[test]
fn create_goal_looks_at_stake_then_deadline_then_description() {
    let mut ctx = goal_test_request();
    let result = create_goal_at(&mut ctx, 1, "d".repeat(501), 1, 4, 4);
    assert_eq!(result, Err(TimeStakerError::InsufficientStake));
    let result = create_goal_at(&mut ctx, 1, "d".repeat(501), 100_000_000, 4, 4);
    assert_eq!(result, Err(TimeStakerError::InvalidDeadline));
}

#[test]
fn create_goal_refuses_before_it_counts_on_a_full_registry() {
    let mut ctx = goal_test_request();
    ctx.global_state.total_goals = u64::MAX;
    let result = create_goal_at(&mut ctx, 1, String::from("x"), 5, i64::MAX, 4);
    assert_eq!(result, Err(TimeStakerError::InsufficientStake));
    assert_eq!(ctx.global_state.total_goals, u64::MAX);
}

#[test]
fn create_goal_accepts_the_latest_deadline_that_fits() {
    let mut ctx = goal_test_request();
    let latest = i64::MAX - 604_800;
    create_goal_at(&mut ctx, 1, String::from("x"), 100_000_000, latest, 0).unwrap();
    assert_eq!(ctx.goal.voting_deadline, i64::MAX);
}

#[test]
fn submit_proof_puts_the_proof_on_record() {
    let mut ctx = SubmitProof { goal: goal_test_active_goal(), creator: goal_test_party(1) };
    let before = ctx.goal.clone();
    let event =
        submit_proof_at(&mut ctx, String::from("https://example.org/finish"), ProofType::Link, 9_000)
            .unwrap();
    assert_eq!(
        event,
        ProofSubmitted { goal_id: 42, creator: goal_test_party(1), proof_type: ProofType::Link }
    );
    assert_eq!(
        ctx.goal,
        Goal {
            status: GoalStatus::PendingVerification,
            proof_data: Some(String::from("https://example.org/finish")),
            proof_type: Some(ProofType::Link),
            proof_submitted_at: Some(9_000),
            ..before
        }
    );
}

#[test]
fn submit_proof_is_accepted_at_the_deadline_itself() {
    let mut ctx = SubmitProof { goal: goal_test_active_goal(), creator: goal_test_party(1) };
    let result = submit_proof_at(&mut ctx, String::from("p"), ProofType::Text, 10_000);
    assert!(result.is_ok());
    assert_eq!(ctx.goal.proof_submitted_at, Some(10_000));
}

#[test]
fn submit_proof_refuses_anyone_but_the_creator() {
    let mut ctx = SubmitProof { goal: goal_test_active_goal(), creator: goal_test_party(2) };
    let before = ctx.clone();
    let result = submit_proof_at(&mut ctx, String::from("p"), ProofType::Text, 9_000);
    assert_eq!(result, Err(TimeStakerError::Unauthorized));
    assert_eq!(ctx, before);
}

#[test]
fn submit_proof_refuses_a_goal_that_is_not_active() {
    for status in [
        GoalStatus::PendingVerification,
        GoalStatus::Completed,
        GoalStatus::Failed,
        GoalStatus::Cancelled,
    ] {
        let mut goal = goal_test_active_goal();
        goal.status = status;
        let mut ctx = SubmitProof { goal, creator: goal_test_party(1) };
        let before = ctx.clone();
        let result = submit_proof_at(&mut ctx, String::from("p"), ProofType::Text, 9_000);
        assert_eq!(result, Err(TimeStakerError::InvalidGoalStatus));
        assert_eq!(ctx, before);
    }
}

#[test]
fn submit_proof_after_the_deadline_fails_with_deadline_passed() {
    let mut ctx = SubmitProof { goal: goal_test_active_goal(), creator: goal_test_party(1) };
    let before = ctx.clone();
    let result = submit_proof_at(&mut ctx, String::from("p"), ProofType::Text, 10_001);
    assert_eq!(result, Err(TimeStakerError::DeadlinePassed));
    assert_eq!(ctx, before);
}

#[test]
fn submit_proof_after_the_deadline_fails_whatever_the_status() {
    for status in [
        GoalStatus::Active,
        GoalStatus::PendingVerification,
        GoalStatus::Completed,
        GoalStatus::Failed,
        GoalStatus::Cancelled,
    ] {
        let mut goal = goal_test_active_goal();
        goal.status = status;
        let mut ctx = SubmitProof { goal, creator: goal_test_party(1) };
        let before = ctx.clone();
        let result = submit_proof_at(&mut ctx, String::from("p"), ProofType::Text, 10_001);
        assert_eq!(result, Err(TimeStakerError::DeadlinePassed));
        assert_eq!(ctx, before);
        let result = submit_proof_at(&mut ctx, "p".repeat(501), ProofType::Text, i64::MAX);
        assert_eq!(result, Err(TimeStakerError::DeadlinePassed));
        assert_eq!(ctx, before);
    }
}

#[test]
fn submit_proof_one_second_late_for_a_pending_goal_is_told_the_deadline() {
    let mut goal = goal_test_active_goal();
    goal.status = GoalStatus::PendingVerification;
    goal.deadline = 1_000;
    let mut ctx = SubmitProof { goal, creator: goal_test_party(1) };
    let before = ctx.clone();
    let result = submit_proof_at(&mut ctx, String::from("x"), ProofType::Text, 1_001);
    assert_eq!(result, Err(TimeStakerError::DeadlinePassed));
    assert_eq!(ctx, before);
    let result = submit_proof_at(&mut ctx, String::from("x"), ProofType::Text, 1_000);
    assert_eq!(result, Err(TimeStakerError::InvalidGoalStatus));
    assert_eq!(ctx, before);
}

#[test]
fn submit_proof_looks_at_the_caller_before_the_deadline() {
    for status in [GoalStatus::Active, GoalStatus::PendingVerification, GoalStatus::Failed] {
        let mut goal = goal_test_active_goal();
        goal.status = status;
        let mut ctx = SubmitProof { goal, creator: goal_test_party(2) };
        let before = ctx.clone();
        let result = submit_proof_at(&mut ctx, String::from("p"), ProofType::Text, 10_001);
        assert_eq!(result, Err(TimeStakerError::Unauthorized));
        assert_eq!(ctx, before);
    }
}

#[test]
fn submit_proof_refuses_a_proof_of_501_characters() {
    let mut ctx = SubmitProof { goal: goal_test_active_goal(), creator: goal_test_party(1) };
    let before = ctx.clone();
    let result = submit_proof_at(&mut ctx, "p".repeat(501), ProofType::Document, 9_000);
    assert_eq!(result, Err(TimeStakerError::ProofTooLong));
    assert_eq!(ctx, before);
    let result = submit_proof_at(&mut ctx, "p".repeat(500), ProofType::Document, 9_000);
    assert!(result.is_ok());
}

#[test]
fn submit_proof_keeps_every_kind_of_proof() {
    for kind in
        [ProofType::Image, ProofType::Document, ProofType::Link, ProofType::Text, ProofType::Video]
    {
        let mut ctx = SubmitProof { goal: goal_test_active_goal(), creator: goal_test_party(1) };
        let event = submit_proof_at(&mut ctx, String::new(), kind, 1_000).unwrap();
        assert_eq!(event.proof_type, kind);
        assert_eq!(ctx.goal.proof_type, Some(kind));
        assert_eq!(ctx.goal.proof_data, Some(String::new()));
    }
}

#[test]
fn a_blank_goal_is_active_and_empty() {
    let goal = Goal::default();
    assert_eq!(goal.creator, Identity::new([0; 32]));
    assert_eq!(goal.goal_id, 0);
    assert_eq!(goal.description, "");
    assert_eq!(goal.stake_amount, 0);
    assert_eq!(goal.status, GoalStatus::Active);
    assert_eq!(goal.finalized_at, None);
    assert_eq!(goal.proof_data, None);
    assert_eq!(goal.total_votes, 0);
    assert_eq!(goal.yes_votes, 0);
}
