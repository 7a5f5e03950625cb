use crate::identity::Identity;
use vstd::prelude::*;
use vstd::std_specs::cmp::PartialEqSpecImpl;

verus! {

/// A place where funds rest: a party's own balance, or the custody that is
/// tied to one goal or to one judge.
#[derive(Clone, Copy, Debug, Eq)]
pub enum Holder {
    /// The free balance of a party.
    Wallet(Identity),
    /// The custody of the goal with this id.
    GoalEscrow(u64),
    /// The custody of the judge with this identity.
    JudgeEscrow(Identity),
}

impl PartialEq for Holder {
    fn eq(&self, other: &Holder) -> (same: bool) {
        match (self, other) {
            (Holder::Wallet(a), Holder::Wallet(b)) => *a == *b,
            (Holder::GoalEscrow(a), Holder::GoalEscrow(b)) => *a == *b,
            (Holder::JudgeEscrow(a), Holder::JudgeEscrow(b)) => *a == *b,
            _ => false,
        }
    }
}

impl PartialEqSpecImpl for Holder {
    open spec fn obeys_eq_spec() -> bool {
        true
    }

    open spec fn eq_spec(&self, other: &Holder) -> bool {
        *self == *other
    }
}

/// An order to move `amount` minor units from one holder to another. The
/// protocol decides such orders; the ledger carries them out.
#[derive(Clone, Copy, Debug, PartialEq, Eq)]
pub struct Transfer {
    /// Where the funds are taken.
    pub from: Holder,
    /// Where the funds arrive.
    pub to: Holder,
    /// How much is moved, in minor units.
    pub amount: u64,
}

impl Transfer {
    /// What `holder` has once this order is carried out, if it had `before`.
    /// An order from a holder to itself leaves its balance as it was.
    pub open spec fn balance_after(self, holder: Holder, before: int) -> int {
        before + (if self.to == holder {
            self.amount as int
        } else {
            0
        }) - (if self.from == holder {
            self.amount as int
        } else {
            0
        })
    }
}

} // verus!
