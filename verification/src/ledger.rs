use crate::ballot::{check_vote, check_vote_fits, vote_at, Vote, VoteRecord};
use crate::events::{GoalCreated, GoalFinalized, JudgeRegistered, ProofSubmitted, VoteCast};
use crate::goal::{
    check_create_goal, check_submit_proof, create_goal_at, submit_proof_at, CreateGoal, Goal,
    GoalView, ProofType, SubmitProof,
};
use crate::identity::Identity;
use crate::judge::{
    check_withdraw_judge_stake, register_judge_at, withdraw_judge_stake, Judge, RegisterJudge,
    WithdrawJudgeStake,
};
use crate::laws::law_ledger_stays_in_order;
use crate::model::{LedgerError, LedgerView, Request};
use crate::registry::{initialize, GlobalState, Initialize};
use crate::reputation::{
    check_update_judge_reputation, check_update_judge_reputation_fits, update_judge_reputation,
    UpdateJudgeReputation,
};
use crate::rules::{checked_payout, compute_is_successful, VOTING_PERIOD_SECS};
use crate::settlement::{check_finalize_goal, finalize_goal_at, goal_succeeds, FinalizeGoal};
use crate::table::{
    lemma_rows_at, lemma_rows_missing, lemma_rows_push, lemma_rows_update, rows_distinct,
    rows_table,
};
use crate::transfer::{Holder, Transfer};
use vstd::prelude::*;

verus! {

/// What one holder has.
struct Account {
    holder: Holder,
    balance: u64,
}

/// A ledger in memory: the registry, the goals, the judges, the votes and
/// the balances, with the protocol's operations carried out on them whole or
/// not at all. Each kind of record is kept in a list in which no key occurs
/// twice: no two goals share an id, no two judges an identity, no two votes
/// a goal and a judge, no two accounts a holder.
pub struct Ledger {
    registry: Option<GlobalState>,
    goals: Vec<Goal>,
    judges: Vec<Judge>,
    votes: Vec<VoteRecord>,
    accounts: Vec<Account>,
}

/// The key under which a goal is kept: its id.
spec fn goal_key() -> spec_fn(Goal) -> u64 {
    |goal: Goal| goal.goal_id
}

/// What a goal stands for.
spec fn goal_val() -> spec_fn(Goal) -> GoalView {
    |goal: Goal| goal@
}

/// The key under which a judge is kept: its identity.
spec fn judge_key() -> spec_fn(Judge) -> Identity {
    |judge: Judge| judge.judge
}

/// What a judge stands for: itself.
spec fn judge_val() -> spec_fn(Judge) -> Judge {
    |judge: Judge| judge
}

/// The key under which a vote is kept: its goal and its judge.
spec fn vote_key() -> spec_fn(VoteRecord) -> (u64, Identity) {
    |record: VoteRecord| (record.goal_id, record.judge)
}

/// What a vote stands for: itself.
spec fn vote_val() -> spec_fn(VoteRecord) -> VoteRecord {
    |record: VoteRecord| record
}

/// The key under which an account is kept: its holder.
spec fn account_key() -> spec_fn(Account) -> Holder {
    |account: Account| account.holder
}

/// What an account stands for: its balance.
spec fn account_val() -> spec_fn(Account) -> u64 {
    |account: Account| account.balance
}

impl View for Ledger {
    type V = LedgerView;

    closed spec fn view(&self) -> LedgerView {
        LedgerView {
            registry: self.registry,
            goals: rows_table(self.goals@, goal_key(), goal_val()),
            judges: rows_table(self.judges@, judge_key(), judge_val()),
            votes: rows_table(self.votes@, vote_key(), vote_val()),
            balances: rows_table(self.accounts@, account_key(), account_val()),
        }
    }
}

impl Ledger {
    /// Whether no key occurs twice in any of the lists.
    pub closed spec fn distinct(&self) -> bool {
        &&& rows_distinct(self.goals@, goal_key())
        &&& rows_distinct(self.judges@, judge_key())
        &&& rows_distinct(self.votes@, vote_key())
        &&& rows_distinct(self.accounts@, account_key())
    }

    /// Whether the ledger is in order: no key occurs twice in any list, and
    /// what the lists stand for is in order as `LedgerView::wf` says.
    pub open spec fn wf(&self) -> bool {
        self.distinct() && self@.wf()
    }

    /// A ledger that holds nothing.
    pub fn new() -> (ledger: Ledger)
        ensures
            ledger.wf(),
            ledger@ == LedgerView::empty(),
    {
        let ledger = Ledger {
            registry: None,
            goals: Vec::new(),
            judges: Vec::new(),
            votes: Vec::new(),
            accounts: Vec::new(),
        };
        proof {
            assert(ledger@.goals =~= Map::<u64, GoalView>::empty());
            assert(ledger@.judges =~= Map::<Identity, Judge>::empty());
            assert(ledger@.votes =~= Map::<(u64, Identity), VoteRecord>::empty());
            assert(ledger@.balances =~= Map::<Holder, u64>::empty());
        }
        ledger
    }

    /// Where the account of `holder` is kept, if the ledger has one.
    fn find_account(&self, holder: &Holder) -> (found: Option<usize>)
        ensures
            match found {
                Some(i) => i < self.accounts.len() && self.accounts[i as int].holder == *holder,
                None => forall|j: int|
                    0 <= j < self.accounts.len() ==> (#[trigger] self.accounts[j]).holder
                        != *holder,
            },
    {
        let mut i: usize = 0;
        while i < self.accounts.len()
            invariant
                i <= self.accounts.len(),
                forall|j: int| 0 <= j < i ==> (#[trigger] self.accounts[j]).holder != *holder,
            decreases self.accounts.len() - i,
        {
            if self.accounts[i].holder == *holder {
                return Some(i);
            }
            i = i + 1;
        }
        None
    }

    /// What `holder` has, read off the list of accounts.
    fn balance_at(&self, holder: &Holder) -> (balance: u64)
        requires
            self.distinct(),
        ensures
            balance == self@.balance_of(*holder),
    {
        match self.find_account(holder) {
            Some(i) => {
                proof {
                    lemma_rows_at(self.accounts@, account_key(), account_val(), i as int);
                }
                self.accounts[i].balance
            },
            None => {
                proof {
                    lemma_rows_missing(self.accounts@, account_key(), account_val(), *holder);
                }
                0
            },
        }
    }

    /// What `holder` has.
    pub fn balance_of(&self, holder: &Holder) -> (balance: u64)
        requires
            self.wf(),
        ensures
            balance == self@.balance_of(*holder),
    {
        self.balance_at(holder)
    }

    /// Writes down that `holder` has `balance`.
    fn set_balance(&mut self, holder: Holder, balance: u64)
        requires
            old(self).distinct(),
        ensures
            final(self).distinct(),
            final(self)@ == (LedgerView {
                balances: old(self)@.balances.insert(holder, balance),
                ..old(self)@
            }),
    {
        match self.find_account(&holder) {
            Some(i) => {
                proof {
                    lemma_rows_update(
                        self.accounts@,
                        account_key(),
                        account_val(),
                        i as int,
                        Account { holder, balance },
                    );
                }
                self.accounts.set(i, Account { holder, balance });
            },
            None => {
                proof {
                    lemma_rows_push(
                        self.accounts@,
                        account_key(),
                        account_val(),
                        Account { holder, balance },
                    );
                }
                self.accounts.push(Account { holder, balance });
            },
        }
    }

    /// Decides whether an order can be carried out: `None` if it can, the
    /// refusal if it cannot.
    fn check_transfer(&self, order: &Transfer) -> (refusal: Option<LedgerError>)
        requires
            self.distinct(),
        ensures
            refusal == self@.transfer_refusal(*order),
    {
        if self.balance_at(&order.from) < order.amount {
            Some(LedgerError::InsufficientFunds)
        } else if order.to != order.from && self.balance_at(&order.to) > u64::MAX - order.amount {
            Some(LedgerError::Overflow)
        } else {
            None
        }
    }

    /// Carries out an order that can be carried out.
    fn pay(&mut self, order: Transfer)
        requires
            old(self).distinct(),
            old(self)@.transfer_refusal(order) is None,
        ensures
            final(self).distinct(),
            final(self)@ == old(self)@.after_transfer(order),
    {
        let from_balance = self.balance_at(&order.from);
        self.set_balance(order.from, from_balance - order.amount);
        let to_balance = self.balance_at(&order.to);
        self.set_balance(order.to, to_balance + order.amount);
    }

    /// Pays `amount` in to `holder` from outside the protocol. Refused, with
    /// nothing changed, where the balance would pass what it can hold.
    pub fn deposit(&mut self, holder: Holder, amount: u64) -> (result: Result<(), LedgerError>)
        requires
            old(self).wf(),
        ensures
            final(self).wf(),
            match result {
                Ok(_) => {
                    &&& old(self)@.deposit_refusal(holder, amount) is None
                    &&& final(self)@ == old(self)@.after_deposit(holder, amount)
                },
                Err(e) => {
                    &&& old(self)@.deposit_refusal(holder, amount) == Some(e)
                    &&& final(self)@ == old(self)@
                },
            },
    {
        let balance = self.balance_at(&holder);
        if balance > u64::MAX - amount {
            return Err(LedgerError::Overflow);
        }
        self.set_balance(holder, balance + amount);
        proof {
            law_ledger_stays_in_order(old(self)@, Request::Deposit { holder, amount }, 0);
        }
        Ok(())
    }

    /// The registry, once it is set up.
    pub fn registry(&self) -> (registry: Option<GlobalState>)
        ensures
            registry == self@.registry,
    {
        self.registry
    }

    /// Sets the registry up under `authority`. Refused, with nothing
    /// changed, where it is set up already.
    pub fn initialize(&mut self, authority: Identity) -> (result: Result<(), LedgerError>)
        requires
            old(self).wf(),
        ensures
            final(self).wf(),
            match result {
                Ok(_) => {
                    &&& old(self)@.initialize_refusal() is None
                    &&& final(self)@ == old(self)@.after_initialize(authority)
                },
                Err(e) => {
                    &&& old(self)@.initialize_refusal() == Some(e)
                    &&& final(self)@ == old(self)@
                },
            },
    {
        if self.registry.is_some() {
            return Err(LedgerError::Duplicate);
        }
        let mut ctx = Initialize { authority, global_state: GlobalState::default() };
        let _ = initialize(&mut ctx, authority);
        self.registry = Some(ctx.global_state);
        Ok(())
    }
    /// Where the goal with this id is kept, if the ledger has one.
    fn find_goal(&self, goal_id: u64) -> (found: Option<usize>)
        ensures
            match found {
                Some(i) => i < self.goals.len() && self.goals[i as int].goal_id == goal_id,
                None => forall|j: int|
                    0 <= j < self.goals.len() ==> (#[trigger] self.goals[j]).goal_id != goal_id,
            },
    {
        let mut i: usize = 0;
        while i < self.goals.len()
            invariant
                i <= self.goals.len(),
                forall|j: int| 0 <= j < i ==> (#[trigger] self.goals[j]).goal_id != goal_id,
            decreases self.goals.len() - i,
        {
            if self.goals[i].goal_id == goal_id {
                return Some(i);
            }
            i = i + 1;
        }
        None
    }

    /// Where the judge with this identity is kept, if the ledger has one.
    fn find_judge(&self, who: &Identity) -> (found: Option<usize>)
        ensures
            match found {
                Some(i) => i < self.judges.len() && self.judges[i as int].judge == *who,
                None => forall|j: int|
                    0 <= j < self.judges.len() ==> (#[trigger] self.judges[j]).judge != *who,
            },
    {
        let mut i: usize = 0;
        while i < self.judges.len()
            invariant
                i <= self.judges.len(),
                forall|j: int| 0 <= j < i ==> (#[trigger] self.judges[j]).judge != *who,
            decreases self.judges.len() - i,
        {
            if self.judges[i].judge == *who {
                return Some(i);
            }
            i = i + 1;
        }
        None
    }

    /// Where the vote of this judge on this goal is kept, if the ledger has
    /// one.
    fn find_vote(&self, goal_id: u64, judge: &Identity) -> (found: Option<usize>)
        ensures
            match found {
                Some(i) => {
                    &&& i < self.votes.len()
                    &&& self.votes[i as int].goal_id == goal_id
                    &&& self.votes[i as int].judge == *judge
                },
                None => forall|j: int|
                    0 <= j < self.votes.len() ==> !((#[trigger] self.votes[j]).goal_id == goal_id
                        && self.votes[j].judge == *judge),
            },
    {
        let mut i: usize = 0;
        while i < self.votes.len()
            invariant
                i <= self.votes.len(),
                forall|j: int|
                    0 <= j < i ==> !((#[trigger] self.votes[j]).goal_id == goal_id
                        && self.votes[j].judge == *judge),
            decreases self.votes.len() - i,
        {
            if self.votes[i].goal_id == goal_id && self.votes[i].judge == *judge {
                return Some(i);
            }
            i = i + 1;
        }
        None
    }

    /// The goal with this id, if the ledger has one.
    pub fn goal(&self, goal_id: u64) -> (goal: Option<&Goal>)
        requires
            self.wf(),
        ensures
            match goal {
                Some(found) => self@.goals.dom().contains(goal_id) && found@
                    == self@.goals[goal_id],
                None => !self@.goals.dom().contains(goal_id),
            },
    {
        match self.find_goal(goal_id) {
            Some(i) => {
                proof {
                    lemma_rows_at(self.goals@, goal_key(), goal_val(), i as int);
                }
                Some(&self.goals[i])
            },
            None => {
                proof {
                    lemma_rows_missing(self.goals@, goal_key(), goal_val(), goal_id);
                }
                None
            },
        }
    }

    /// The judge with this identity, if the ledger has one.
    pub fn judge(&self, who: &Identity) -> (judge: Option<Judge>)
        requires
            self.wf(),
        ensures
            match judge {
                Some(found) => self@.judges.dom().contains(*who) && found == self@.judges[*who],
                None => !self@.judges.dom().contains(*who),
            },
    {
        match self.find_judge(who) {
            Some(i) => {
                proof {
                    lemma_rows_at(self.judges@, judge_key(), judge_val(), i as int);
                }
                Some(self.judges[i])
            },
            None => {
                proof {
                    lemma_rows_missing(self.judges@, judge_key(), judge_val(), *who);
                }
                None
            },
        }
    }

    /// The vote of this judge on this goal, if the ledger has one.
    pub fn vote_record(&self, goal_id: u64, judge: &Identity) -> (record: Option<VoteRecord>)
        requires
            self.wf(),
        ensures
            match record {
                Some(found) => self@.votes.dom().contains((goal_id, *judge)) && found
                    == self@.votes[(goal_id, *judge)],
                None => !self@.votes.dom().contains((goal_id, *judge)),
            },
    {
        match self.find_vote(goal_id, judge) {
            Some(i) => {
                proof {
                    lemma_rows_at(self.votes@, vote_key(), vote_val(), i as int);
                }
                Some(self.votes[i])
            },
            None => {
                proof {
                    lemma_rows_missing(self.votes@, vote_key(), vote_val(), (goal_id, *judge));
                }
                None
            },
        }
    }

    /// Creates a goal for `creator` at time `now` and moves the stake from
    /// the creator into the goal's custody, or refuses and changes nothing.
    pub fn create_goal(
        &mut self,
        creator: Identity,
        goal_id: u64,
        description: String,
        stake_amount: u64,
        deadline: i64,
        now: i64,
    ) -> (result: Result<GoalCreated, LedgerError>)
        requires
            old(self).wf(),
        ensures
            final(self).wf(),
            match result {
                Ok(event) => {
                    &&& old(self)@.create_goal_refusal(
                        creator,
                        goal_id,
                        description@,
                        stake_amount,
                        deadline,
                        now,
                    ) is None
                    &&& final(self)@ == old(self)@.after_create_goal(
                        creator,
                        goal_id,
                        description@,
                        stake_amount,
                        deadline,
                        now,
                    )
                    &&& event == (GoalCreated { goal_id, creator, stake_amount, deadline })
                },
                Err(e) => {
                    &&& old(self)@.create_goal_refusal(
                        creator,
                        goal_id,
                        description@,
                        stake_amount,
                        deadline,
                        now,
                    ) == Some(e)
                    &&& final(self)@ == old(self)@
                },
            },
    {
        let registry = match self.registry {
            Some(registry) => registry,
            None => {
                return Err(LedgerError::Missing);
            },
        };
        match self.find_goal(goal_id) {
            Some(at) => {
                proof {
                    lemma_rows_at(self.goals@, goal_key(), goal_val(), at as int);
                }
                return Err(LedgerError::Duplicate);
            },
            None => {
                proof {
                    lemma_rows_missing(self.goals@, goal_key(), goal_val(), goal_id);
                }
            },
        }
        if let Some(refusal) = check_create_goal(description.as_str(), stake_amount, deadline, now) {
            return Err(LedgerError::Refused(refusal));
        }
        if deadline > i64::MAX - VOTING_PERIOD_SECS || registry.total_goals == u64::MAX {
            return Err(LedgerError::Overflow);
        }
        let order = Transfer {
            from: Holder::Wallet(creator),
            to: Holder::GoalEscrow(goal_id),
            amount: stake_amount,
        };
        if let Some(refusal) = self.check_transfer(&order) {
            return Err(refusal);
        }
        let mut ctx = CreateGoal { creator, goal: Goal::default(), global_state: registry, bump: 0 };
        let ghost text = description@;
        match create_goal_at(&mut ctx, goal_id, description, stake_amount, deadline, now) {
            Ok((event, transfer)) => {
                proof {
                    lemma_rows_push(self.goals@, goal_key(), goal_val(), ctx.goal);
                }
                self.goals.push(ctx.goal);
                self.registry = Some(ctx.global_state);
                self.pay(transfer);
                proof {
                    law_ledger_stays_in_order(
                        old(self)@,
                        Request::CreateGoal {
                            creator,
                            goal_id,
                            description: text,
                            stake_amount,
                            deadline,
                        },
                        now,
                    );
                }
                Ok(event)
            },
            Err(refusal) => Err(LedgerError::Refused(refusal)),
        }
    }

    /// Hands in proof for a goal at time `now`, or refuses and changes
    /// nothing.
    pub fn submit_proof(
        &mut self,
        caller: Identity,
        goal_id: u64,
        proof_data: String,
        proof_type: ProofType,
        now: i64,
    ) -> (result: Result<ProofSubmitted, LedgerError>)
        requires
            old(self).wf(),
        ensures
            final(self).wf(),
            match result {
                Ok(event) => {
                    &&& old(self)@.submit_proof_refusal(caller, goal_id, proof_data@, now) is None
                    &&& final(self)@ == old(self)@.after_submit_proof(
                        goal_id,
                        proof_data@,
                        proof_type,
                        now,
                    )
                    &&& event == (ProofSubmitted { goal_id, creator: caller, proof_type })
                },
                Err(e) => {
                    &&& old(self)@.submit_proof_refusal(caller, goal_id, proof_data@, now) == Some(
                        e,
                    )
                    &&& final(self)@ == old(self)@
                },
            },
    {
        let at = match self.find_goal(goal_id) {
            Some(at) => at,
            None => {
                proof {
                    lemma_rows_missing(self.goals@, goal_key(), goal_val(), goal_id);
                }
                return Err(LedgerError::Missing);
            },
        };
        proof {
            lemma_rows_at(self.goals@, goal_key(), goal_val(), at as int);
        }
        if let Some(refusal) = check_submit_proof(
            &self.goals[at],
            &caller,
            proof_data.as_str(),
            now,
        ) {
            return Err(LedgerError::Refused(refusal));
        }
        let goal = self.goals.remove(at);
        let ghost text = proof_data@;
        let mut ctx = SubmitProof { goal, creator: caller };
        let decided = submit_proof_at(&mut ctx, proof_data, proof_type, now);
        proof {
            lemma_rows_update(old(self).goals@, goal_key(), goal_val(), at as int, ctx.goal);
            assert(old(self).goals@.remove(at as int).insert(at as int, ctx.goal) =~= old(
                self,
            ).goals@.update(at as int, ctx.goal));
        }
        self.goals.insert(at, ctx.goal);
        match decided {
            Ok(event) => Ok(event),
            Err(refusal) => Err(LedgerError::Refused(refusal)),
        }
    }
    /// Registers `who` as a judge at time `now` and moves the registry's
    /// current stake from the party into the judge's custody, or refuses
    /// and changes nothing.
    pub fn register_judge(&mut self, who: Identity, now: i64) -> (result: Result<
        JudgeRegistered,
        LedgerError,
    >)
        requires
            old(self).wf(),
        ensures
            final(self).wf(),
            match result {
                Ok(event) => {
                    &&& old(self)@.register_judge_refusal(who) is None
                    &&& final(self)@ == old(self)@.after_register_judge(who, now)
                    &&& event == (JudgeRegistered {
                        judge: who,
                        stake_amount: old(self)@.registry->Some_0.min_judge_stakes,
                    })
                },
                Err(e) => {
                    &&& old(self)@.register_judge_refusal(who) == Some(e)
                    &&& final(self)@ == old(self)@
                },
            },
    {
        let registry = match self.registry {
            Some(registry) => registry,
            None => {
                return Err(LedgerError::Missing);
            },
        };
        match self.find_judge(&who) {
            Some(at) => {
                proof {
                    lemma_rows_at(self.judges@, judge_key(), judge_val(), at as int);
                }
                return Err(LedgerError::Duplicate);
            },
            None => {
                proof {
                    lemma_rows_missing(self.judges@, judge_key(), judge_val(), who);
                }
            },
        }
        if registry.total_judges == u64::MAX {
            return Err(LedgerError::Overflow);
        }
        let order = Transfer {
            from: Holder::Wallet(who),
            to: Holder::JudgeEscrow(who),
            amount: registry.min_judge_stakes,
        };
        if let Some(refusal) = self.check_transfer(&order) {
            return Err(refusal);
        }
        let mut ctx = RegisterJudge {
            judge: Judge::default(),
            judge_authority: who,
            global_state: registry,
        };
        match register_judge_at(&mut ctx, now) {
            Ok((event, transfer)) => {
                proof {
                    lemma_rows_push(self.judges@, judge_key(), judge_val(), ctx.judge);
                }
                self.judges.push(ctx.judge);
                self.registry = Some(ctx.global_state);
                self.pay(transfer);
                proof {
                    law_ledger_stays_in_order(old(self)@, Request::RegisterJudge { who }, now);
                }
                Ok(event)
            },
            Err(refusal) => Err(LedgerError::Refused(refusal)),
        }
    }

    /// Casts the vote of `judge` on a goal at time `now`, or refuses and
    /// changes nothing. A judge votes on a goal once.
    pub fn vote(&mut self, judge: Identity, goal_id: u64, in_favour: bool, now: i64) -> (result:
        Result<VoteCast, LedgerError>)
        requires
            old(self).wf(),
        ensures
            final(self).wf(),
            match result {
                Ok(event) => {
                    &&& old(self)@.vote_refusal(judge, goal_id, in_favour, now) is None
                    &&& final(self)@ == old(self)@.after_vote(judge, goal_id, in_favour, now)
                    &&& event == (VoteCast { goal_id, judge, vote: in_favour })
                },
                Err(e) => {
                    &&& old(self)@.vote_refusal(judge, goal_id, in_favour, now) == Some(e)
                    &&& final(self)@ == old(self)@
                },
            },
    {
        let goal_at = match self.find_goal(goal_id) {
            Some(at) => at,
            None => {
                proof {
                    lemma_rows_missing(self.goals@, goal_key(), goal_val(), goal_id);
                }
                return Err(LedgerError::Missing);
            },
        };
        let judge_at = match self.find_judge(&judge) {
            Some(at) => at,
            None => {
                proof {
                    lemma_rows_missing(self.judges@, judge_key(), judge_val(), judge);
                }
                return Err(LedgerError::Missing);
            },
        };
        proof {
            lemma_rows_at(self.goals@, goal_key(), goal_val(), goal_at as int);
            lemma_rows_at(self.judges@, judge_key(), judge_val(), judge_at as int);
        }
        match self.find_vote(goal_id, &judge) {
            Some(at) => {
                proof {
                    lemma_rows_at(self.votes@, vote_key(), vote_val(), at as int);
                }
                return Err(LedgerError::Duplicate);
            },
            None => {
                proof {
                    lemma_rows_missing(self.votes@, vote_key(), vote_val(), (goal_id, judge));
                }
            },
        }
        let judge_record = self.judges[judge_at];
        if let Some(refusal) = check_vote(&self.goals[goal_at], &judge_record, now) {
            return Err(LedgerError::Refused(refusal));
        }
        if !check_vote_fits(&self.goals[goal_at], in_favour) {
            return Err(LedgerError::Overflow);
        }
        let goal = self.goals.remove(goal_at);
        let mut ctx = Vote {
            goal,
            judge: judge_record,
            vote_record: VoteRecord::default(),
            judge_authority: judge,
        };
        let decided = vote_at(&mut ctx, in_favour, now);
        proof {
            lemma_rows_update(old(self).goals@, goal_key(), goal_val(), goal_at as int, ctx.goal);
            assert(old(self).goals@.remove(goal_at as int).insert(goal_at as int, ctx.goal)
                =~= old(self).goals@.update(goal_at as int, ctx.goal));
            lemma_rows_push(self.votes@, vote_key(), vote_val(), ctx.vote_record);
        }
        self.goals.insert(goal_at, ctx.goal);
        self.votes.push(ctx.vote_record);
        proof {
            law_ledger_stays_in_order(
                old(self)@,
                Request::Vote { judge, goal_id, in_favour },
                now,
            );
        }
        match decided {
            Ok(event) => Ok(event),
            Err(refusal) => Err(LedgerError::Refused(refusal)),
        }
    }

    /// Settles a goal at time `now` and moves the payout, if there is one,
    /// from the goal's custody to its creator, or refuses and changes
    /// nothing.
    pub fn finalize_goal(&mut self, goal_id: u64, now: i64) -> (result: Result<
        GoalFinalized,
        LedgerError,
    >)
        requires
            old(self).wf(),
        ensures
            final(self).wf(),
            match result {
                Ok(event) => {
                    &&& old(self)@.finalize_goal_refusal(goal_id, now) is None
                    &&& final(self)@ == old(self)@.after_finalize_goal(goal_id, now)
                    &&& event == (GoalFinalized {
                        goal_id,
                        successful: goal_succeeds(old(self)@.goals[goal_id]),
                        final_votes: old(self)@.goals[goal_id].total_votes,
                        yes_votes: old(self)@.goals[goal_id].yes_votes,
                    })
                },
                Err(e) => {
                    &&& old(self)@.finalize_goal_refusal(goal_id, now) == Some(e)
                    &&& final(self)@ == old(self)@
                },
            },
    {
        let registry = match self.registry {
            Some(registry) => registry,
            None => {
                return Err(LedgerError::Missing);
            },
        };
        let at = match self.find_goal(goal_id) {
            Some(at) => at,
            None => {
                proof {
                    lemma_rows_missing(self.goals@, goal_key(), goal_val(), goal_id);
                }
                return Err(LedgerError::Missing);
            },
        };
        proof {
            lemma_rows_at(self.goals@, goal_key(), goal_val(), at as int);
        }
        if let Some(refusal) = check_finalize_goal(&self.goals[at], now) {
            return Err(LedgerError::Refused(refusal));
        }
        let stake = self.goals[at].stake_amount;
        if compute_is_successful(self.goals[at].total_votes, self.goals[at].yes_votes) {
            let amount = match checked_payout(stake) {
                Some(amount) => amount,
                None => {
                    return Err(LedgerError::Overflow);
                },
            };
            let order = Transfer {
                from: Holder::GoalEscrow(goal_id),
                to: Holder::Wallet(self.goals[at].creator),
                amount,
            };
            if let Some(refusal) = self.check_transfer(&order) {
                return Err(refusal);
            }
        } else {
            if registry.reward_pool > u64::MAX - stake {
                return Err(LedgerError::Overflow);
            }
        }
        let goal = self.goals.remove(at);
        let mut ctx = FinalizeGoal { goal, global_state: registry };
        let decided = finalize_goal_at(&mut ctx, now);
        proof {
            lemma_rows_update(old(self).goals@, goal_key(), goal_val(), at as int, ctx.goal);
            assert(old(self).goals@.remove(at as int).insert(at as int, ctx.goal) =~= old(
                self,
            ).goals@.update(at as int, ctx.goal));
        }
        self.goals.insert(at, ctx.goal);
        self.registry = Some(ctx.global_state);
        proof {
            law_ledger_stays_in_order(old(self)@, Request::FinalizeGoal { goal_id }, now);
        }
        match decided {
            Ok((event, Some(transfer))) => {
                self.pay(transfer);
                Ok(event)
            },
            Ok((event, None)) => Ok(event),
            Err(refusal) => Err(LedgerError::Refused(refusal)),
        }
    }

    /// Scores the vote of `judge` on a goal against the goal's outcome, or
    /// refuses and changes nothing. Nothing keeps a vote from being scored
    /// more than once.
    pub fn update_judge_reputation(&mut self, judge: Identity, goal_id: u64) -> (result: Result<
        (),
        LedgerError,
    >)
        requires
            old(self).wf(),
        ensures
            final(self).wf(),
            match result {
                Ok(_) => {
                    &&& old(self)@.update_judge_reputation_refusal(judge, goal_id) is None
                    &&& final(self)@ == old(self)@.after_update_judge_reputation(judge, goal_id)
                },
                Err(e) => {
                    &&& old(self)@.update_judge_reputation_refusal(judge, goal_id) == Some(e)
                    &&& final(self)@ == old(self)@
                },
            },
    {
        let judge_at = match self.find_judge(&judge) {
            Some(at) => at,
            None => {
                proof {
                    lemma_rows_missing(self.judges@, judge_key(), judge_val(), judge);
                }
                return Err(LedgerError::Missing);
            },
        };
        let goal_at = match self.find_goal(goal_id) {
            Some(at) => at,
            None => {
                proof {
                    lemma_rows_missing(self.goals@, goal_key(), goal_val(), goal_id);
                }
                return Err(LedgerError::Missing);
            },
        };
        let vote_at = match self.find_vote(goal_id, &judge) {
            Some(at) => at,
            None => {
                proof {
                    lemma_rows_missing(self.votes@, vote_key(), vote_val(), (goal_id, judge));
                }
                return Err(LedgerError::Missing);
            },
        };
        proof {
            lemma_rows_at(self.judges@, judge_key(), judge_val(), judge_at as int);
            lemma_rows_at(self.goals@, goal_key(), goal_val(), goal_at as int);
            lemma_rows_at(self.votes@, vote_key(), vote_val(), vote_at as int);
        }
        let status = self.goals[goal_at].status;
        if let Some(refusal) = check_update_judge_reputation(status) {
            return Err(LedgerError::Refused(refusal));
        }
        let judge_record = self.judges[judge_at];
        if !check_update_judge_reputation_fits(&judge_record, self.votes[vote_at].vote, status) {
            return Err(LedgerError::Overflow);
        }
        let goal = self.goals.remove(goal_at);
        let mut ctx = UpdateJudgeReputation {
            judge: judge_record,
            vote_record: self.votes[vote_at],
            goal,
        };
        let decided = update_judge_reputation(&mut ctx);
        proof {
            assert(old(self).goals@.remove(goal_at as int).insert(goal_at as int, ctx.goal)
                =~= old(self).goals@);
            lemma_rows_update(
                self.judges@,
                judge_key(),
                judge_val(),
                judge_at as int,
                ctx.judge,
            );
        }
        self.goals.insert(goal_at, ctx.goal);
        self.judges.set(judge_at, ctx.judge);
        proof {
            law_ledger_stays_in_order(
                old(self)@,
                Request::UpdateJudgeReputation { judge, goal_id },
                0,
            );
        }
        match decided {
            Ok(_) => Ok(()),
            Err(refusal) => Err(LedgerError::Refused(refusal)),
        }
    }

    /// Withdraws the stake of `judge` at the request of `caller` and moves
    /// it from the judge's custody to the caller, or refuses and changes
    /// nothing.
    pub fn withdraw_judge_stake(&mut self, caller: Identity, judge: Identity) -> (result: Result<
        (),
        LedgerError,
    >)
        requires
            old(self).wf(),
        ensures
            final(self).wf(),
            match result {
                Ok(_) => {
                    &&& old(self)@.withdraw_judge_stake_refusal(caller, judge) is None
                    &&& final(self)@ == old(self)@.after_withdraw_judge_stake(caller, judge)
                },
                Err(e) => {
                    &&& old(self)@.withdraw_judge_stake_refusal(caller, judge) == Some(e)
                    &&& final(self)@ == old(self)@
                },
            },
    {
        let at = match self.find_judge(&judge) {
            Some(at) => at,
            None => {
                proof {
                    lemma_rows_missing(self.judges@, judge_key(), judge_val(), judge);
                }
                return Err(LedgerError::Missing);
            },
        };
        proof {
            lemma_rows_at(self.judges@, judge_key(), judge_val(), at as int);
        }
        let judge_record = self.judges[at];
        if let Some(refusal) = check_withdraw_judge_stake(&judge_record, &caller) {
            return Err(LedgerError::Refused(refusal));
        }
        let order = Transfer {
            from: Holder::JudgeEscrow(judge),
            to: Holder::Wallet(caller),
            amount: judge_record.stake_amount,
        };
        if let Some(refusal) = self.check_transfer(&order) {
            return Err(refusal);
        }
        let mut ctx = WithdrawJudgeStake { judge: judge_record, judge_authority: caller };
        match withdraw_judge_stake(&mut ctx) {
            Ok(transfer) => {
                proof {
                    lemma_rows_update(
                        self.judges@,
                        judge_key(),
                        judge_val(),
                        at as int,
                        ctx.judge,
                    );
                }
                self.judges.set(at, ctx.judge);
                self.pay(transfer);
                proof {
                    law_ledger_stays_in_order(
                        old(self)@,
                        Request::WithdrawJudgeStake { caller, judge },
                        0,
                    );
                }
                Ok(())
            },
            Err(refusal) => Err(LedgerError::Refused(refusal)),
        }
    }
}

} // verus!
