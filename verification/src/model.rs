use crate::ballot::{goal_with_vote, vote_fits, vote_refusal, VoteRecord};
use crate::error::TimeStakerError;
use crate::goal::{
    create_goal_fits, create_goal_refusal, goal_with_proof, opened_goal, submit_proof_refusal,
    GoalStatus, GoalView, ProofType,
};
use crate::identity::Identity;
use crate::judge::{withdraw_judge_stake_refusal, Judge};
use crate::registry::GlobalState;
use crate::reputation::{
    scored_judge, update_judge_reputation_fits, update_judge_reputation_refusal,
};
use crate::settlement::{
    finalize_goal_fits, finalize_goal_refusal, registry_after_settlement, settled_goal,
    settlement_transfer,
};
use crate::transfer::{Holder, Transfer};
use vstd::prelude::*;

verus! {

/// Why the ledger turns a request down.
#[derive(Clone, Copy, Debug, PartialEq, Eq)]
pub enum LedgerError {
    /// A record that the request names does not exist.
    Missing,
    /// The record that the request would create exists already.
    Duplicate,
    /// The protocol refused the request.
    Refused(TimeStakerError),
    /// A counter, a time or a balance would pass what it can hold.
    Overflow,
    /// The holder that would pay does not hold enough.
    InsufficientFunds,
}

/// Everything the ledger holds, as a mathematical value: the registry once
/// it is set up, each goal under its id, each judge under its identity,
/// each vote under its goal and judge, and what each holder has.
pub struct LedgerView {
    pub registry: Option<GlobalState>,
    pub goals: Map<u64, GoalView>,
    pub judges: Map<Identity, Judge>,
    pub votes: Map<(u64, Identity), VoteRecord>,
    pub balances: Map<Holder, u64>,
}

impl LedgerView {
    /// The ledger that holds nothing.
    pub open spec fn empty() -> LedgerView {
        LedgerView {
            registry: None,
            goals: Map::empty(),
            judges: Map::empty(),
            votes: Map::empty(),
            balances: Map::empty(),
        }
    }

    /// What `holder` has; nothing where the ledger has never heard of it.
    pub open spec fn balance_of(self, holder: Holder) -> nat {
        if self.balances.dom().contains(holder) {
            self.balances[holder] as nat
        } else {
            0
        }
    }

    /// Whether every record is stored under its own key, and every goal and
    /// every judge is one that the protocol can have produced.
    pub open spec fn records_wf(self) -> bool {
        &&& forall|id: u64| #[trigger]
            self.goals.dom().contains(id) ==> self.goals[id].goal_id == id && self.goals[id].wf()
        &&& forall|who: Identity| #[trigger]
            self.judges.dom().contains(who) ==> self.judges[who].judge == who
                && self.judges[who].wf()
        &&& forall|id: u64, who: Identity| #[trigger]
            self.votes.dom().contains((id, who)) ==> self.votes[(id, who)].goal_id == id
                && self.votes[(id, who)].judge == who
    }

    /// Whether every vote on record is the vote of a judge on record on a
    /// goal on record that has left `Active`.
    pub open spec fn votes_wf(self) -> bool {
        forall|id: u64, who: Identity| #[trigger]
            self.votes.dom().contains((id, who)) ==> {
                &&& self.goals.dom().contains(id)
                &&& self.goals[id].status != GoalStatus::Active
                &&& self.judges.dom().contains(who)
            }
    }

    /// Whether every custody holds what it owes: the custody of a goal
    /// holds at least the goal's stake until the goal is completed, and the
    /// custody of a judge holds at least the judge's stake while the judge
    /// is active.
    pub open spec fn custody_wf(self) -> bool {
        &&& forall|id: u64| #[trigger]
            self.goals.dom().contains(id) && self.goals[id].status != GoalStatus::Completed
                ==> self.balance_of(Holder::GoalEscrow(id)) >= self.goals[id].stake_amount
        &&& forall|who: Identity| #[trigger]
            self.judges.dom().contains(who) && self.judges[who].is_active ==> self.balance_of(
                Holder::JudgeEscrow(who),
            ) >= self.judges[who].stake_amount
    }

    /// Whether the registry counts what is on record: before it is set up
    /// there is no goal and no judge, and from then on it counts every goal
    /// and every judge exactly once.
    pub open spec fn counts_wf(self) -> bool {
        &&& self.goals.dom().finite()
        &&& self.judges.dom().finite()
        &&& match self.registry {
            Some(registry) => {
                &&& registry.total_goals == self.goals.dom().len()
                &&& registry.total_judges == self.judges.dom().len()
            },
            None => self.goals.dom().len() == 0 && self.judges.dom().len() == 0,
        }
    }

    /// The judges that have voted on the goal with this id.
    pub open spec fn voters(self, goal_id: u64) -> Set<Identity> {
        Set::new(|who: Identity| self.votes.dom().contains((goal_id, who)))
    }

    /// The judges that have voted in favour of the goal with this id.
    pub open spec fn voters_in_favour(self, goal_id: u64) -> Set<Identity> {
        Set::new(
            |who: Identity|
                self.votes.dom().contains((goal_id, who)) && self.votes[(goal_id, who)].vote,
        )
    }

    /// Whether every goal counts its votes right: as many votes as judges
    /// have voted on it, and as many in favour as judges have voted in
    /// favour. Every vote that was accepted is counted exactly once.
    pub open spec fn tallies_wf(self) -> bool {
        forall|id: u64| #[trigger]
            self.goals.dom().contains(id) ==> {
                &&& self.voters(id).finite()
                &&& self.voters(id).len() == self.goals[id].total_votes
                &&& self.voters_in_favour(id).finite()
                &&& self.voters_in_favour(id).len() == self.goals[id].yes_votes
            }
    }

    /// What holds of every ledger that the operations below have produced
    /// from the empty one: the records are in order, the votes belong to
    /// goals and judges on record, every custody holds what it owes, the
    /// registry counts what is on record, and every goal counts its votes
    /// right.
    pub open spec fn wf(self) -> bool {
        &&& self.records_wf()
        &&& self.votes_wf()
        &&& self.custody_wf()
        &&& self.counts_wf()
        &&& self.tallies_wf()
    }

    /// Why an order cannot be carried out, if it cannot: the payer lacks the
    /// funds, or the payee's balance would pass what a balance can hold.
    pub open spec fn transfer_refusal(self, order: Transfer) -> Option<LedgerError> {
        if self.balance_of(order.from) < order.amount {
            Some(LedgerError::InsufficientFunds)
        } else if order.to != order.from && self.balance_of(order.to) + order.amount > u64::MAX {
            Some(LedgerError::Overflow)
        } else {
            None
        }
    }

    /// The ledger once an order is carried out: the payer has that much
    /// less, the payee that much more, everyone else what they had.
    pub open spec fn after_transfer(self, order: Transfer) -> LedgerView {
        let debited = LedgerView {
            balances: self.balances.insert(
                order.from,
                (self.balance_of(order.from) - order.amount) as u64,
            ),
            ..self
        };
        LedgerView {
            balances: debited.balances.insert(
                order.to,
                (debited.balance_of(order.to) + order.amount) as u64,
            ),
            ..debited
        }
    }

    /// Why funds cannot be paid in to `holder`, if they cannot.
    pub open spec fn deposit_refusal(self, holder: Holder, amount: u64) -> Option<LedgerError> {
        if self.balance_of(holder) + amount > u64::MAX {
            Some(LedgerError::Overflow)
        } else {
            None
        }
    }

    /// The ledger once `amount` is paid in to `holder` from outside.
    pub open spec fn after_deposit(self, holder: Holder, amount: u64) -> LedgerView {
        LedgerView {
            balances: self.balances.insert(holder, (self.balance_of(holder) + amount) as u64),
            ..self
        }
    }

    /// Why the registry cannot be set up, if it cannot: it is set up
    /// already.
    pub open spec fn initialize_refusal(self) -> Option<LedgerError> {
        if self.registry is Some {
            Some(LedgerError::Duplicate)
        } else {
            None
        }
    }

    /// The ledger once the registry is set up under `authority`.
    pub open spec fn after_initialize(self, authority: Identity) -> LedgerView {
        LedgerView { registry: Some(GlobalState::fresh(authority)), ..self }
    }

    /// The order that creating a goal gives: the stake, from the creator
    /// into the goal's custody.
    pub open spec fn goal_stake_order(creator: Identity, goal_id: u64, stake_amount: u64) -> Transfer {
        Transfer {
            from: Holder::Wallet(creator),
            to: Holder::GoalEscrow(goal_id),
            amount: stake_amount,
        }
    }

    /// Why a goal cannot be created, if it cannot. In this order: there is
    /// no registry; the id is taken; the protocol refuses; a number would
    /// not fit; the stake cannot be moved.
    pub open spec fn create_goal_refusal(
        self,
        creator: Identity,
        goal_id: u64,
        description: Seq<char>,
        stake_amount: u64,
        deadline: i64,
        now: i64,
    ) -> Option<LedgerError> {
        if self.registry is None {
            Some(LedgerError::Missing)
        } else if self.goals.dom().contains(goal_id) {
            Some(LedgerError::Duplicate)
        } else if let Some(e) = create_goal_refusal(description, stake_amount, deadline, now) {
            Some(LedgerError::Refused(e))
        } else if !create_goal_fits(self.registry->Some_0, deadline) {
            Some(LedgerError::Overflow)
        } else {
            self.transfer_refusal(Self::goal_stake_order(creator, goal_id, stake_amount))
        }
    }

    /// The ledger once a goal is created: the goal is on record, counted in
    /// the registry, and its stake has moved into its custody.
    pub open spec fn after_create_goal(
        self,
        creator: Identity,
        goal_id: u64,
        description: Seq<char>,
        stake_amount: u64,
        deadline: i64,
        now: i64,
    ) -> LedgerView {
        let registry = self.registry->Some_0;
        LedgerView {
            registry: Some(
                GlobalState { total_goals: (registry.total_goals + 1) as u64, ..registry },
            ),
            goals: self.goals.insert(
                goal_id,
                opened_goal(creator, goal_id, description, stake_amount, deadline, now, 0),
            ),
            ..self
        }.after_transfer(Self::goal_stake_order(creator, goal_id, stake_amount))
    }

    /// Why proof cannot be handed in, if it cannot: there is no such goal,
    /// or the protocol refuses.
    pub open spec fn submit_proof_refusal(
        self,
        caller: Identity,
        goal_id: u64,
        proof_data: Seq<char>,
        now: i64,
    ) -> Option<LedgerError> {
        if !self.goals.dom().contains(goal_id) {
            Some(LedgerError::Missing)
        } else if let Some(e) = submit_proof_refusal(self.goals[goal_id], caller, proof_data, now) {
            Some(LedgerError::Refused(e))
        } else {
            None
        }
    }

    /// The ledger once proof is handed in for a goal.
    pub open spec fn after_submit_proof(
        self,
        goal_id: u64,
        proof_data: Seq<char>,
        proof_type: ProofType,
        now: i64,
    ) -> LedgerView {
        LedgerView {
            goals: self.goals.insert(
                goal_id,
                goal_with_proof(self.goals[goal_id], proof_data, proof_type, now),
            ),
            ..self
        }
    }

    /// The order that registering a judge gives: the stake, from the party
    /// into the judge's custody.
    pub open spec fn judge_stake_order(who: Identity, stake_amount: u64) -> Transfer {
        Transfer { from: Holder::Wallet(who), to: Holder::JudgeEscrow(who), amount: stake_amount }
    }

    /// Why a judge cannot be registered, if it cannot. In this order: there
    /// is no registry; the party is a judge already; the count of judges
    /// would not fit; the stake cannot be moved.
    pub open spec fn register_judge_refusal(self, who: Identity) -> Option<LedgerError> {
        if self.registry is None {
            Some(LedgerError::Missing)
        } else if self.judges.dom().contains(who) {
            Some(LedgerError::Duplicate)
        } else if self.registry->Some_0.total_judges == u64::MAX {
            Some(LedgerError::Overflow)
        } else {
            self.transfer_refusal(
                Self::judge_stake_order(who, self.registry->Some_0.min_judge_stakes),
            )
        }
    }

    /// The ledger once a judge is registered: the judge is on record,
    /// counted in the registry, and the stake has moved into custody.
    pub open spec fn after_register_judge(self, who: Identity, now: i64) -> LedgerView {
        let registry = self.registry->Some_0;
        LedgerView {
            registry: Some(
                GlobalState { total_judges: (registry.total_judges + 1) as u64, ..registry },
            ),
            judges: self.judges.insert(
                who,
                Judge::registered(who, registry.min_judge_stakes, now),
            ),
            ..self
        }.after_transfer(Self::judge_stake_order(who, registry.min_judge_stakes))
    }

    /// Why a vote cannot be cast, if it cannot. In this order: there is no
    /// such goal or no such judge; the judge has voted on the goal already;
    /// the protocol refuses; a counter that the vote raises is full.
    pub open spec fn vote_refusal(
        self,
        judge: Identity,
        goal_id: u64,
        in_favour: bool,
        now: i64,
    ) -> Option<LedgerError> {
        if !self.goals.dom().contains(goal_id) || !self.judges.dom().contains(judge) {
            Some(LedgerError::Missing)
        } else if self.votes.dom().contains((goal_id, judge)) {
            Some(LedgerError::Duplicate)
        } else if let Some(e) = vote_refusal(self.goals[goal_id], self.judges[judge], now) {
            Some(LedgerError::Refused(e))
        } else if !vote_fits(self.goals[goal_id], in_favour) {
            Some(LedgerError::Overflow)
        } else {
            None
        }
    }

    /// The ledger once a vote is cast: the vote is on record and counted on
    /// the goal.
    pub open spec fn after_vote(self, judge: Identity, goal_id: u64, in_favour: bool, now: i64) -> LedgerView {
        LedgerView {
            goals: self.goals.insert(goal_id, goal_with_vote(self.goals[goal_id], in_favour)),
            votes: self.votes.insert(
                (goal_id, judge),
                VoteRecord { goal_id, judge, vote: in_favour, voted_at: now },
            ),
            ..self
        }
    }

    /// Why a goal cannot be settled, if it cannot. In this order: there is
    /// no registry or no such goal; the protocol refuses; a number would not
    /// fit; the payout cannot be moved.
    pub open spec fn finalize_goal_refusal(self, goal_id: u64, now: i64) -> Option<LedgerError> {
        if self.registry is None || !self.goals.dom().contains(goal_id) {
            Some(LedgerError::Missing)
        } else if let Some(e) = finalize_goal_refusal(self.goals[goal_id], now) {
            Some(LedgerError::Refused(e))
        } else if !finalize_goal_fits(self.goals[goal_id], self.registry->Some_0) {
            Some(LedgerError::Overflow)
        } else if let Some(order) = settlement_transfer(self.goals[goal_id]) {
            self.transfer_refusal(order)
        } else {
            None
        }
    }

    /// The ledger once a goal is settled: the goal is completed or failed,
    /// a forfeited stake is counted in the reward pool, a payout has moved.
    pub open spec fn after_finalize_goal(self, goal_id: u64, now: i64) -> LedgerView {
        let goal = self.goals[goal_id];
        let settled = LedgerView {
            registry: Some(registry_after_settlement(self.registry->Some_0, goal)),
            goals: self.goals.insert(goal_id, settled_goal(goal, now)),
            ..self
        };
        match settlement_transfer(goal) {
            Some(order) => settled.after_transfer(order),
            None => settled,
        }
    }

    /// Why a vote cannot be scored, if it cannot. In this order: there is
    /// no such judge, goal or vote; the protocol refuses; a counter that
    /// the scoring raises is full.
    pub open spec fn update_judge_reputation_refusal(self, judge: Identity, goal_id: u64) -> Option<
        LedgerError,
    > {
        if !self.judges.dom().contains(judge) || !self.goals.dom().contains(goal_id)
            || !self.votes.dom().contains((goal_id, judge)) {
            Some(LedgerError::Missing)
        } else if let Some(e) = update_judge_reputation_refusal(self.goals[goal_id].status) {
            Some(LedgerError::Refused(e))
        } else if !update_judge_reputation_fits(
            self.judges[judge],
            self.votes[(goal_id, judge)].vote,
            self.goals[goal_id].status,
        ) {
            Some(LedgerError::Overflow)
        } else {
            None
        }
    }

    /// The ledger once a judge's vote on a goal is scored.
    pub open spec fn after_update_judge_reputation(self, judge: Identity, goal_id: u64) -> LedgerView {
        LedgerView {
            judges: self.judges.insert(
                judge,
                scored_judge(
                    self.judges[judge],
                    self.votes[(goal_id, judge)].vote,
                    self.goals[goal_id].status,
                ),
            ),
            ..self
        }
    }

    /// The order that a withdrawal gives: the judge's whole stake, from the
    /// judge's custody to the party that asks.
    pub open spec fn withdrawal_order(self, caller: Identity, judge: Identity) -> Transfer {
        Transfer {
            from: Holder::JudgeEscrow(judge),
            to: Holder::Wallet(caller),
            amount: self.judges[judge].stake_amount,
        }
    }

    /// Why a judge's stake cannot be withdrawn, if it cannot. In this
    /// order: there is no such judge; the protocol refuses; the stake cannot
    /// be moved.
    pub open spec fn withdraw_judge_stake_refusal(self, caller: Identity, judge: Identity) -> Option<
        LedgerError,
    > {
        if !self.judges.dom().contains(judge) {
            Some(LedgerError::Missing)
        } else if let Some(e) = withdraw_judge_stake_refusal(self.judges[judge], caller) {
            Some(LedgerError::Refused(e))
        } else {
            self.transfer_refusal(self.withdrawal_order(caller, judge))
        }
    }

    /// The ledger once a judge's stake is withdrawn: the judge is inactive
    /// and the stake has moved back.
    pub open spec fn after_withdraw_judge_stake(self, caller: Identity, judge: Identity) -> LedgerView {
        LedgerView {
            judges: self.judges.insert(judge, Judge { is_active: false, ..self.judges[judge] }),
            ..self
        }.after_transfer(self.withdrawal_order(caller, judge))
    }
}

/// One request to the ledger, with what it asks for.
pub enum Request {
    Deposit { holder: Holder, amount: u64 },
    Initialize { authority: Identity },
    CreateGoal {
        creator: Identity,
        goal_id: u64,
        description: Seq<char>,
        stake_amount: u64,
        deadline: i64,
    },
    SubmitProof { caller: Identity, goal_id: u64, proof_data: Seq<char>, proof_type: ProofType },
    RegisterJudge { who: Identity },
    Vote { judge: Identity, goal_id: u64, in_favour: bool },
    FinalizeGoal { goal_id: u64 },
    UpdateJudgeReputation { judge: Identity, goal_id: u64 },
    WithdrawJudgeStake { caller: Identity, judge: Identity },
}

impl LedgerView {
    /// Why the ledger turns `request` down at time `now`, if it does.
    pub open spec fn refusal(self, request: Request, now: i64) -> Option<LedgerError> {
        match request {
            Request::Deposit { holder, amount } => self.deposit_refusal(holder, amount),
            Request::Initialize { authority } => self.initialize_refusal(),
            Request::CreateGoal { creator, goal_id, description, stake_amount, deadline } =>
                self.create_goal_refusal(
                creator,
                goal_id,
                description,
                stake_amount,
                deadline,
                now,
            ),
            Request::SubmitProof { caller, goal_id, proof_data, proof_type } =>
                self.submit_proof_refusal(caller, goal_id, proof_data, now),
            Request::RegisterJudge { who } => self.register_judge_refusal(who),
            Request::Vote { judge, goal_id, in_favour } => self.vote_refusal(
                judge,
                goal_id,
                in_favour,
                now,
            ),
            Request::FinalizeGoal { goal_id } => self.finalize_goal_refusal(goal_id, now),
            Request::UpdateJudgeReputation { judge, goal_id } =>
                self.update_judge_reputation_refusal(judge, goal_id),
            Request::WithdrawJudgeStake { caller, judge } => self.withdraw_judge_stake_refusal(
                caller,
                judge,
            ),
        }
    }

    /// The ledger once `request` is carried out at time `now`.
    pub open spec fn after(self, request: Request, now: i64) -> LedgerView {
        match request {
            Request::Deposit { holder, amount } => self.after_deposit(holder, amount),
            Request::Initialize { authority } => self.after_initialize(authority),
            Request::CreateGoal { creator, goal_id, description, stake_amount, deadline } =>
                self.after_create_goal(creator, goal_id, description, stake_amount, deadline, now),
            Request::SubmitProof { caller, goal_id, proof_data, proof_type } =>
                self.after_submit_proof(goal_id, proof_data, proof_type, now),
            Request::RegisterJudge { who } => self.after_register_judge(who, now),
            Request::Vote { judge, goal_id, in_favour } => self.after_vote(
                judge,
                goal_id,
                in_favour,
                now,
            ),
            Request::FinalizeGoal { goal_id } => self.after_finalize_goal(goal_id, now),
            Request::UpdateJudgeReputation { judge, goal_id } =>
                self.after_update_judge_reputation(judge, goal_id),
            Request::WithdrawJudgeStake { caller, judge } => self.after_withdraw_judge_stake(
                caller,
                judge,
            ),
        }
    }

    /// The order that carrying out `request` at time `now` moves funds by,
    /// if it moves any: the stake of a goal or of a judge on its way into
    /// custody, the payout of a completed goal, the stake of a judge on its
    /// way back. A deposit moves nothing between holders.
    pub open spec fn order_of(self, request: Request, now: i64) -> Option<Transfer> {
        match request {
            Request::CreateGoal { creator, goal_id, stake_amount, .. } => Some(
                Self::goal_stake_order(creator, goal_id, stake_amount),
            ),
            Request::RegisterJudge { who } => Some(
                Self::judge_stake_order(who, self.registry->Some_0.min_judge_stakes),
            ),
            Request::FinalizeGoal { goal_id } => settlement_transfer(self.goals[goal_id]),
            Request::WithdrawJudgeStake { caller, judge } => Some(
                self.withdrawal_order(caller, judge),
            ),
            _ => None,
        }
    }

    /// What the ledger answers to `request` at time `now`, and as what it
    /// goes on: unchanged where it turns the request down.
    pub open spec fn step(self, request: Request, now: i64) -> LedgerView {
        if self.refusal(request, now) is None {
            self.after(request, now)
        } else {
            self
        }
    }
}

} // verus!
