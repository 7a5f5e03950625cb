use time_staker::{
    GlobalState, GoalCreated, GoalFinalized, GoalStatus, Holder, Identity, JudgeRegistered, Ledger,
    LedgerError, ProofSubmitted, ProofType, TimeStakerError, VoteCast, VoteRecord,
};

const LEDGER_TEST_UNIT: u64 = 1_000_000_000;

fn ledger_test_party(tag: u8) -> Identity {
    Identity::new([tag; 32])
}

fn ledger_test_set_up() -> Ledger {
    let mut ledger = Ledger::new();
    ledger.initialize(ledger_test_party(9)).unwrap();
    ledger.deposit(Holder::Wallet(ledger_test_party(1)), 5 * LEDGER_TEST_UNIT).unwrap();
    for judge in [5, 6, 7] {
        ledger.deposit(Holder::Wallet(ledger_test_party(judge)), 2 * LEDGER_TEST_UNIT).unwrap();
        ledger.register_judge(ledger_test_party(judge), 50).unwrap();
    }
    ledger
}

fn ledger_test_with_pending_goal() -> Ledger {
    let mut ledger = ledger_test_set_up();
    ledger
        .create_goal(ledger_test_party(1), 42, String::from("run"), LEDGER_TEST_UNIT, 10_000, 1_000)
        .unwrap();
    ledger
        .submit_proof(ledger_test_party(1), 42, String::from("photo"), ProofType::Image, 9_000)
        .unwrap();
    ledger
}

#[test]
fn a_new_ledger_holds_nothing() {
    let ledger = Ledger::new();
    assert_eq!(ledger.registry(), None);
    assert!(ledger.goal(0).is_none());
    assert_eq!(ledger.judge(&ledger_test_party(1)), None);
    assert_eq!(ledger.vote_record(0, &ledger_test_party(1)), None);
    assert_eq!(ledger.balance_of(&Holder::Wallet(ledger_test_party(1))), 0);
    assert_eq!(ledger.balance_of(&Holder::GoalEscrow(0)), 0);
}

#[test]
fn the_registry_is_set_up_once() {
    let mut ledger = Ledger::new();
    assert_eq!(ledger.initialize(ledger_test_party(9)), Ok(()));
    let registry = ledger.registry().unwrap();
    assert_eq!(
        registry,
        GlobalState {
            authority: ledger_test_party(9),
            total_goals: 0,
            total_judges: 0,
            min_judge_stakes: 1_000_000_000,
            judge_reward_rate: 500,
            reward_pool: 0,
        }
    );
    assert_eq!(ledger.initialize(ledger_test_party(8)), Err(LedgerError::Duplicate));
    assert_eq!(ledger.registry(), Some(registry));
}

#[test]
fn deposits_add_up_and_stop_at_the_top() {
    let mut ledger = Ledger::new();
    let wallet = Holder::Wallet(ledger_test_party(1));
    assert_eq!(ledger.deposit(wallet, 5), Ok(()));
    assert_eq!(ledger.deposit(wallet, 7), Ok(()));
    assert_eq!(ledger.balance_of(&wallet), 12);
    assert_eq!(ledger.deposit(wallet, u64::MAX - 11), Err(LedgerError::Overflow));
    assert_eq!(ledger.balance_of(&wallet), 12);
    assert_eq!(ledger.deposit(wallet, u64::MAX - 12), Ok(()));
    assert_eq!(ledger.balance_of(&wallet), u64::MAX);
    assert_eq!(ledger.balance_of(&Holder::JudgeEscrow(ledger_test_party(1))), 0);
}

#[test]
fn creating_a_goal_moves_exactly_the_stake_into_custody() {
    let mut ledger = ledger_test_set_up();
    let creator = ledger_test_party(1);
    ledger.deposit(Holder::GoalEscrow(42), 3).unwrap();
    let event = ledger
        .create_goal(creator, 42, String::from("run"), 250_000_000, 10_000, 1_000)
        .unwrap();
    assert_eq!(
        event,
        GoalCreated { goal_id: 42, creator, stake_amount: 250_000_000, deadline: 10_000 }
    );
    assert_eq!(ledger.balance_of(&Holder::GoalEscrow(42)), 250_000_003);
    assert_eq!(ledger.balance_of(&Holder::Wallet(creator)), 4_750_000_000);
    let goal = ledger.goal(42).unwrap();
    assert_eq!(goal.goal_id, 42);
    assert_eq!(goal.creator, creator);
    assert_eq!(goal.status, GoalStatus::Active);
    assert_eq!(goal.stake_amount, 250_000_000);
    assert_eq!(goal.voting_deadline, 614_800);
    assert_eq!(goal.created_at, 1_000);
    assert_eq!(ledger.registry().unwrap().total_goals, 1);
}

#[test]
fn a_goal_id_is_used_once() {
    let mut ledger = ledger_test_set_up();
    let creator = ledger_test_party(1);
    ledger.create_goal(creator, 42, String::from("run"), 250_000_000, 10_000, 1_000).unwrap();
    let again = ledger.create_goal(creator, 42, String::from("swim"), 300_000_000, 20_000, 2_000);
    assert_eq!(again, Err(LedgerError::Duplicate));
    let bad = ledger.create_goal(creator, 42, String::from("swim"), 1, 20_000, 2_000);
    assert_eq!(bad, Err(LedgerError::Duplicate));
    assert_eq!(ledger.goal(42).unwrap().description, "run");
    assert_eq!(ledger.balance_of(&Holder::GoalEscrow(42)), 250_000_000);
    assert_eq!(ledger.registry().unwrap().total_goals, 1);
    assert!(ledger.create_goal(creator, 43, String::from("swim"), 300_000_000, 20_000, 2_000).is_ok());
    assert_eq!(ledger.registry().unwrap().total_goals, 2);
}

#[test]
fn a_goal_needs_a_registry() {
    let mut ledger = Ledger::new();
    ledger.deposit(Holder::Wallet(ledger_test_party(1)), LEDGER_TEST_UNIT).unwrap();
    let result =
        ledger.create_goal(ledger_test_party(1), 1, String::from("run"), 250_000_000, 10, 1);
    assert_eq!(result, Err(LedgerError::Missing));
    assert_eq!(ledger.register_judge(ledger_test_party(1), 1), Err(LedgerError::Missing));
    assert_eq!(ledger.balance_of(&Holder::Wallet(ledger_test_party(1))), LEDGER_TEST_UNIT);
}

#[test]
fn the_ledger_passes_on_the_refusals_of_create_goal() {
    let mut ledger = ledger_test_set_up();
    let creator = ledger_test_party(1);
    assert_eq!(
        ledger.create_goal(creator, 1, String::from("run"), 99_999_999, 10, 1),
        Err(LedgerError::Refused(TimeStakerError::InsufficientStake))
    );
    assert_eq!(
        ledger.create_goal(creator, 1, String::from("run"), 100_000_000, 1, 1),
        Err(LedgerError::Refused(TimeStakerError::InvalidDeadline))
    );
    assert_eq!(
        ledger.create_goal(creator, 1, "d".repeat(501), 100_000_000, 10, 1),
        Err(LedgerError::Refused(TimeStakerError::DescriptionTooLong))
    );
    assert!(ledger.goal(1).is_none());
    assert_eq!(ledger.balance_of(&Holder::Wallet(creator)), 5 * LEDGER_TEST_UNIT);
    assert_eq!(ledger.registry().unwrap().total_goals, 0);
}

#[test]
fn a_creator_without_the_funds_creates_no_goal() {
    let mut ledger = ledger_test_set_up();
    let poor = ledger_test_party(2);
    ledger.deposit(Holder::Wallet(poor), 249_999_999).unwrap();
    let result = ledger.create_goal(poor, 1, String::from("run"), 250_000_000, 10, 1);
    assert_eq!(result, Err(LedgerError::InsufficientFunds));
    assert!(ledger.goal(1).is_none());
    assert_eq!(ledger.balance_of(&Holder::Wallet(poor)), 249_999_999);
    assert_eq!(ledger.registry().unwrap().total_goals, 0);
}

#[test]
fn a_deadline_too_late_for_a_voting_window_creates_no_goal() {
    let mut ledger = ledger_test_set_up();
    let result = ledger.create_goal(
        ledger_test_party(1),
        1,
        String::from("run"),
        250_000_000,
        i64::MAX - 604_799,
        1,
    );
    assert_eq!(result, Err(LedgerError::Overflow));
    assert!(ledger.goal(1).is_none());
}

#[test]
fn proof_is_handed_in_for_a_goal_on_record() {
    let mut ledger = ledger_test_set_up();
    let creator = ledger_test_party(1);
    assert_eq!(
        ledger.submit_proof(creator, 42, String::from("photo"), ProofType::Image, 9_000),
        Err(LedgerError::Missing)
    );
    ledger.create_goal(creator, 42, String::from("run"), LEDGER_TEST_UNIT, 10_000, 1_000).unwrap();
    assert_eq!(
        ledger.submit_proof(ledger_test_party(2), 42, String::from("photo"), ProofType::Image, 9_000),
        Err(LedgerError::Refused(TimeStakerError::Unauthorized))
    );
    assert_eq!(
        ledger.submit_proof(creator, 42, String::from("photo"), ProofType::Image, 10_001),
        Err(LedgerError::Refused(TimeStakerError::DeadlinePassed))
    );
    assert_eq!(
        ledger.submit_proof(creator, 42, "p".repeat(501), ProofType::Image, 9_000),
        Err(LedgerError::Refused(TimeStakerError::ProofTooLong))
    );
    assert_eq!(ledger.goal(42).unwrap().status, GoalStatus::Active);
    assert_eq!(
        ledger.submit_proof(creator, 42, String::from("photo"), ProofType::Image, 9_000),
        Ok(ProofSubmitted { goal_id: 42, creator, proof_type: ProofType::Image })
    );
    let goal = ledger.goal(42).unwrap();
    assert_eq!(goal.status, GoalStatus::PendingVerification);
    assert_eq!(goal.proof_data, Some(String::from("photo")));
    assert_eq!(goal.proof_type, Some(ProofType::Image));
    assert_eq!(goal.proof_submitted_at, Some(9_000));
    assert_eq!(
        ledger.submit_proof(creator, 42, String::from("photo"), ProofType::Image, 9_000),
        Err(LedgerError::Refused(TimeStakerError::InvalidGoalStatus))
    );
}

#[test]
fn registering_a_judge_moves_the_stake_into_custody() {
    let mut ledger = Ledger::new();
    ledger.initialize(ledger_test_party(9)).unwrap();
    let judge = ledger_test_party(5);
    assert_eq!(ledger.register_judge(judge, 50), Err(LedgerError::InsufficientFunds));
    assert_eq!(ledger.judge(&judge), None);
    ledger.deposit(Holder::Wallet(judge), 3 * LEDGER_TEST_UNIT).unwrap();
    assert_eq!(
        ledger.register_judge(judge, 50),
        Ok(JudgeRegistered { judge, stake_amount: LEDGER_TEST_UNIT })
    );
    assert_eq!(ledger.balance_of(&Holder::Wallet(judge)), 2 * LEDGER_TEST_UNIT);
    assert_eq!(ledger.balance_of(&Holder::JudgeEscrow(judge)), LEDGER_TEST_UNIT);
    let record = ledger.judge(&judge).unwrap();
    assert_eq!(record.judge, judge);
    assert_eq!(record.stake_amount, LEDGER_TEST_UNIT);
    assert_eq!(record.reputation_score, 100);
    assert_eq!(record.registered_at, 50);
    assert!(record.is_active);
    assert_eq!(ledger.registry().unwrap().total_judges, 1);
    assert_eq!(ledger.register_judge(judge, 60), Err(LedgerError::Duplicate));
    assert_eq!(ledger.balance_of(&Holder::Wallet(judge)), 2 * LEDGER_TEST_UNIT);
    assert_eq!(ledger.registry().unwrap().total_judges, 1);
}

#[test]
fn a_judge_votes_on_a_goal_once() {
    let mut ledger = ledger_test_with_pending_goal();
    let judge = ledger_test_party(5);
    assert_eq!(
        ledger.vote(judge, 42, true, 20_000),
        Ok(VoteCast { goal_id: 42, judge, vote: true })
    );
    assert_eq!(
        ledger.vote_record(42, &judge),
        Some(VoteRecord { goal_id: 42, judge, vote: true, voted_at: 20_000 })
    );
    assert_eq!(ledger.vote(judge, 42, true, 20_001), Err(LedgerError::Duplicate));
    assert_eq!(ledger.vote(judge, 42, false, 20_002), Err(LedgerError::Duplicate));
    assert_eq!(ledger.vote(judge, 42, false, 700_000), Err(LedgerError::Duplicate));
    let goal = ledger.goal(42).unwrap();
    assert_eq!(goal.total_votes, 1);
    assert_eq!(goal.yes_votes, 1);
    assert_eq!(
        ledger.vote_record(42, &judge),
        Some(VoteRecord { goal_id: 42, judge, vote: true, voted_at: 20_000 })
    );
    assert!(ledger.vote(ledger_test_party(6), 42, false, 20_003).is_ok());
    let goal = ledger.goal(42).unwrap();
    assert_eq!(goal.total_votes, 2);
    assert_eq!(goal.yes_votes, 1);
}

#[test]
fn a_vote_needs_a_goal_and_a_judge_on_record() {
    let mut ledger = ledger_test_with_pending_goal();
    assert_eq!(ledger.vote(ledger_test_party(5), 43, true, 20_000), Err(LedgerError::Missing));
    assert_eq!(ledger.vote(ledger_test_party(1), 42, true, 20_000), Err(LedgerError::Missing));
    assert_eq!(ledger.goal(42).unwrap().total_votes, 0);
}

#[test]
fn the_ledger_passes_on_the_refusals_of_vote() {
    let mut ledger = ledger_test_set_up();
    let creator = ledger_test_party(1);
    let judge = ledger_test_party(5);
    ledger.create_goal(creator, 42, String::from("run"), LEDGER_TEST_UNIT, 10_000, 1_000).unwrap();
    assert_eq!(
        ledger.vote(judge, 42, true, 2_000),
        Err(LedgerError::Refused(TimeStakerError::InvalidGoalStatus))
    );
    ledger.submit_proof(creator, 42, String::from("photo"), ProofType::Image, 9_000).unwrap();
    assert_eq!(
        ledger.vote(judge, 42, true, 614_801),
        Err(LedgerError::Refused(TimeStakerError::VotingDeadlinePassed))
    );
    ledger.withdraw_judge_stake(judge, judge).unwrap();
    assert_eq!(
        ledger.vote(judge, 42, true, 20_000),
        Err(LedgerError::Refused(TimeStakerError::JudgeNotActive))
    );
    assert_eq!(ledger.vote_record(42, &judge), None);
    assert_eq!(ledger.goal(42).unwrap().total_votes, 0);
}

#[test]
fn a_completed_goal_pays_its_creator_from_its_custody() {
    let mut ledger = ledger_test_with_pending_goal();
    let creator = ledger_test_party(1);
    ledger.vote(ledger_test_party(5), 42, true, 20_000).unwrap();
    ledger.deposit(Holder::GoalEscrow(42), 150_000_000).unwrap();
    let wallet_before = ledger.balance_of(&Holder::Wallet(creator));
    assert_eq!(
        ledger.finalize_goal(42, 614_801),
        Ok(GoalFinalized { goal_id: 42, successful: true, final_votes: 1, yes_votes: 1 })
    );
    assert_eq!(ledger.balance_of(&Holder::Wallet(creator)), wallet_before + 1_100_000_000);
    assert_eq!(ledger.balance_of(&Holder::GoalEscrow(42)), 50_000_000);
    let goal = ledger.goal(42).unwrap();
    assert_eq!(goal.status, GoalStatus::Completed);
    assert_eq!(goal.finalized_at, Some(614_801));
    assert_eq!(ledger.registry().unwrap().reward_pool, 0);
    assert_eq!(
        ledger.finalize_goal(42, 614_802),
        Err(LedgerError::Refused(TimeStakerError::InvalidGoalStatus))
    );
    assert_eq!(ledger.balance_of(&Holder::Wallet(creator)), wallet_before + 1_100_000_000);
}

#[test]
fn a_custody_that_holds_only_the_stake_cannot_pay_the_bonus() {
    let mut ledger = ledger_test_with_pending_goal();
    let creator = ledger_test_party(1);
    let wallet_before = ledger.balance_of(&Holder::Wallet(creator));
    assert_eq!(ledger.finalize_goal(42, 614_801), Err(LedgerError::InsufficientFunds));
    assert_eq!(ledger.goal(42).unwrap().status, GoalStatus::PendingVerification);
    assert_eq!(ledger.goal(42).unwrap().finalized_at, None);
    assert_eq!(ledger.balance_of(&Holder::Wallet(creator)), wallet_before);
    assert_eq!(ledger.balance_of(&Holder::GoalEscrow(42)), LEDGER_TEST_UNIT);
    ledger.deposit(Holder::GoalEscrow(42), 99_999_999).unwrap();
    assert_eq!(ledger.finalize_goal(42, 614_801), Err(LedgerError::InsufficientFunds));
    ledger.deposit(Holder::GoalEscrow(42), 1).unwrap();
    assert!(ledger.finalize_goal(42, 614_801).is_ok());
    assert_eq!(ledger.balance_of(&Holder::GoalEscrow(42)), 0);
}

#[test]
fn a_failed_goal_keeps_its_stake_in_custody_and_counts_it_in_the_pool() {
    let mut ledger = ledger_test_with_pending_goal();
    let creator = ledger_test_party(1);
    ledger.vote(ledger_test_party(5), 42, false, 20_000).unwrap();
    ledger.vote(ledger_test_party(6), 42, false, 20_000).unwrap();
    let wallet_before = ledger.balance_of(&Holder::Wallet(creator));
    assert_eq!(
        ledger.finalize_goal(42, 614_801),
        Ok(GoalFinalized { goal_id: 42, successful: false, final_votes: 2, yes_votes: 0 })
    );
    assert_eq!(ledger.goal(42).unwrap().status, GoalStatus::Failed);
    assert_eq!(ledger.goal(42).unwrap().finalized_at, Some(614_801));
    assert_eq!(ledger.registry().unwrap().reward_pool, LEDGER_TEST_UNIT);
    assert_eq!(ledger.balance_of(&Holder::Wallet(creator)), wallet_before);
    assert_eq!(ledger.balance_of(&Holder::GoalEscrow(42)), LEDGER_TEST_UNIT);
    assert_eq!(
        ledger.finalize_goal(42, 614_802),
        Err(LedgerError::Refused(TimeStakerError::InvalidGoalStatus))
    );
    assert_eq!(ledger.registry().unwrap().reward_pool, LEDGER_TEST_UNIT);
}

#[test]
fn the_ledger_passes_on_the_refusals_of_finalize_goal() {
    let mut ledger = ledger_test_with_pending_goal();
    assert_eq!(ledger.finalize_goal(43, 614_801), Err(LedgerError::Missing));
    assert_eq!(
        ledger.finalize_goal(42, 614_800),
        Err(LedgerError::Refused(TimeStakerError::VotingStillActive))
    );
    assert_eq!(ledger.goal(42).unwrap().status, GoalStatus::PendingVerification);
}

#[test]
fn a_vote_is_scored_against_the_outcome() {
    let mut ledger = ledger_test_with_pending_goal();
    let right = ledger_test_party(5);
    let wrong = ledger_test_party(6);
    let absent = ledger_test_party(7);
    ledger.vote(right, 42, true, 20_000).unwrap();
    ledger.vote(wrong, 42, false, 20_000).unwrap();
    assert_eq!(
        ledger.update_judge_reputation(right, 42),
        Err(LedgerError::Refused(TimeStakerError::GoalNotFinalized))
    );
    ledger.deposit(Holder::GoalEscrow(42), 100_000_000).unwrap();
    ledger.finalize_goal(42, 614_801).unwrap();
    assert_eq!(ledger.goal(42).unwrap().status, GoalStatus::Completed);
    assert_eq!(ledger.update_judge_reputation(right, 42), Ok(()));
    assert_eq!(ledger.update_judge_reputation(wrong, 42), Ok(()));
    assert_eq!(ledger.update_judge_reputation(absent, 42), Err(LedgerError::Missing));
    assert_eq!(ledger.update_judge_reputation(right, 43), Err(LedgerError::Missing));
    assert_eq!(ledger.update_judge_reputation(ledger_test_party(1), 42), Err(LedgerError::Missing));
    let right_record = ledger.judge(&right).unwrap();
    assert_eq!(right_record.reputation_score, 110);
    assert_eq!(right_record.total_votes, 1);
    assert_eq!(right_record.correct_votes, 1);
    let wrong_record = ledger.judge(&wrong).unwrap();
    assert_eq!(wrong_record.reputation_score, 100);
    assert_eq!(wrong_record.total_votes, 1);
    assert_eq!(wrong_record.correct_votes, 0);
    let absent_record = ledger.judge(&absent).unwrap();
    assert_eq!(absent_record.total_votes, 0);
    assert_eq!(ledger.update_judge_reputation(right, 42), Ok(()));
    assert_eq!(ledger.judge(&right).unwrap().reputation_score, 120);
    assert_eq!(ledger.judge(&right).unwrap().total_votes, 2);
}

#[test]
fn a_withdrawal_returns_the_stake_and_ends_the_judge() {
    let mut ledger = ledger_test_with_pending_goal();
    let judge = ledger_test_party(5);
    let stranger = ledger_test_party(6);
    ledger.vote(judge, 42, true, 20_000).unwrap();
    assert_eq!(
        ledger.withdraw_judge_stake(stranger, judge),
        Err(LedgerError::Refused(TimeStakerError::Unauthorized))
    );
    assert_eq!(ledger.withdraw_judge_stake(ledger_test_party(1), ledger_test_party(1)), Err(LedgerError::Missing));
    assert_eq!(ledger.balance_of(&Holder::JudgeEscrow(judge)), LEDGER_TEST_UNIT);
    assert_eq!(ledger.balance_of(&Holder::Wallet(judge)), LEDGER_TEST_UNIT);
    assert_eq!(ledger.withdraw_judge_stake(judge, judge), Ok(()));
    assert_eq!(ledger.balance_of(&Holder::JudgeEscrow(judge)), 0);
    assert_eq!(ledger.balance_of(&Holder::Wallet(judge)), 2 * LEDGER_TEST_UNIT);
    let record = ledger.judge(&judge).unwrap();
    assert!(!record.is_active);
    assert_eq!(record.stake_amount, LEDGER_TEST_UNIT);
    assert_eq!(
        ledger.withdraw_judge_stake(judge, judge),
        Err(LedgerError::Refused(TimeStakerError::JudgeNotActive))
    );
    assert_eq!(ledger.balance_of(&Holder::Wallet(judge)), 2 * LEDGER_TEST_UNIT);
    ledger
        .create_goal(ledger_test_party(1), 43, String::from("swim"), LEDGER_TEST_UNIT, 10_000, 1_000)
        .unwrap();
    ledger
        .submit_proof(ledger_test_party(1), 43, String::from("photo"), ProofType::Video, 9_000)
        .unwrap();
    assert_eq!(
        ledger.vote(judge, 43, true, 20_000),
        Err(LedgerError::Refused(TimeStakerError::JudgeNotActive))
    );
    assert_eq!(ledger.goal(42).unwrap().total_votes, 1);
    assert_eq!(ledger.goal(42).unwrap().yes_votes, 1);
    assert_eq!(ledger.register_judge(judge, 70), Err(LedgerError::Duplicate));
}

#[test]
fn a_wallet_that_is_full_takes_no_payout() {
    let mut ledger = ledger_test_with_pending_goal();
    let creator = ledger_test_party(1);
    ledger.deposit(Holder::GoalEscrow(42), 100_000_000).unwrap();
    let room = u64::MAX - ledger.balance_of(&Holder::Wallet(creator));
    ledger.deposit(Holder::Wallet(creator), room - 1_099_999_999).unwrap();
    assert_eq!(ledger.finalize_goal(42, 614_801), Err(LedgerError::Overflow));
    assert_eq!(ledger.goal(42).unwrap().status, GoalStatus::PendingVerification);
    assert_eq!(ledger.balance_of(&Holder::GoalEscrow(42)), 1_100_000_000);
}

#[test]
fn proof_after_the_deadline_is_told_the_deadline_whatever_the_status() {
    let mut ledger = ledger_test_with_pending_goal();
    let creator = ledger_test_party(1);
    assert_eq!(
        ledger.submit_proof(creator, 42, String::from("late"), ProofType::Text, 10_001),
        Err(LedgerError::Refused(TimeStakerError::DeadlinePassed))
    );
    ledger.deposit(Holder::GoalEscrow(42), 100_000_000).unwrap();
    ledger.finalize_goal(42, 614_801).unwrap();
    assert_eq!(ledger.goal(42).unwrap().status, GoalStatus::Completed);
    assert_eq!(
        ledger.submit_proof(creator, 42, String::from("late"), ProofType::Text, 614_802),
        Err(LedgerError::Refused(TimeStakerError::DeadlinePassed))
    );
    assert_eq!(
        ledger.submit_proof(ledger_test_party(2), 42, String::from("late"), ProofType::Text, 614_802),
        Err(LedgerError::Refused(TimeStakerError::Unauthorized))
    );
    assert_eq!(ledger.goal(42).unwrap().proof_data, Some(String::from("photo")));
}
