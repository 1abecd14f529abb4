//! The mathematical account and its transition function.
//!
//! Balances here are unbounded integers. The executable [`crate::client::Client`]
//! follows [`Account::apply`], which is [`Account::step`] wherever the result
//! still fits the machine representation.

use vstd::prelude::*;
use crate::kind::Type;
use crate::record::{ClientTransaction, Transaction};

verus! {

/// An account as a mathematical value.
pub struct Account {
    pub id: u16,
    pub available: int,
    pub held: int,
    pub total: int,
    pub locked: bool,
    pub history: Map<u32, Transaction>,
}

impl Account {
    /// The account a client has before any transaction: all zero, unlocked, no history.
    pub open spec fn new(id: u16) -> Account {
        Account { id, available: 0, held: 0, total: 0, locked: false, history: Map::empty() }
    }

    /// `total` is the sum of `available` and `held`.
    pub open spec fn balanced(self) -> bool {
        self.total == self.available + self.held
    }

    /// Every remembered amount is non-negative.
    pub open spec fn amounts_non_negative(self) -> bool {
        forall|tx: u32| #[trigger] self.history.contains_key(tx) ==> self.history[tx].amount >= 0
    }

    /// The invariant every reachable account satisfies.
    pub open spec fn wf(self) -> bool {
        self.balanced() && self.amounts_non_negative()
    }

    /// All three balances fit a signed 64-bit integer.
    pub open spec fn in_range(self) -> bool {
        &&& i64::MIN <= self.available <= i64::MAX
        &&& i64::MIN <= self.held <= i64::MAX
        &&& i64::MIN <= self.total <= i64::MAX
    }

    /// The transaction `tx` is remembered and not flagged as disputed.
    pub open spec fn is_undisputed(self, tx: u32) -> bool {
        self.history.contains_key(tx) && !self.history[tx].is_under_dispute
    }

    /// The transaction `tx` is remembered and flagged as disputed.
    pub open spec fn is_disputed(self, tx: u32) -> bool {
        self.history.contains_key(tx) && self.history[tx].is_under_dispute
    }

    /// A transaction is discarded before its kind is looked at: the account is
    /// locked, or the row carries a negative amount.
    pub open spec fn discards(self, t: ClientTransaction) -> bool {
        self.locked || t.has_negative_amount()
    }

    /// Credit `amount` and remember it under `tx`.
    pub open spec fn deposit(self, tx: u32, amount: i64) -> Account {
        Account {
            available: self.available + amount,
            total: self.total + amount,
            history: self.history.insert(tx, Transaction { amount, is_under_dispute: false }),
            ..self
        }
    }

    /// Debit `amount` and remember it under `tx`.
    pub open spec fn withdraw(self, tx: u32, amount: i64) -> Account {
        Account {
            available: self.available - amount,
            total: self.total - amount,
            history: self.history.insert(tx, Transaction { amount, is_under_dispute: false }),
            ..self
        }
    }

    /// Move the amount of `tx` from available to held and flag it.
    pub open spec fn dispute(self, tx: u32) -> Account {
        let amount = self.history[tx].amount;
        Account {
            available: self.available - amount,
            held: self.held + amount,
            history: self.history.insert(tx, Transaction { amount, is_under_dispute: true }),
            ..self
        }
    }

    /// Move the amount of `tx` from held back to available; the flag stays.
    pub open spec fn resolve(self, tx: u32) -> Account {
        let amount = self.history[tx].amount;
        Account { available: self.available + amount, held: self.held - amount, ..self }
    }

    /// Remove the held amount of `tx` for good and lock the account.
    pub open spec fn chargeback(self, tx: u32) -> Account {
        let amount = self.history[tx].amount;
        Account { held: self.held - amount, total: self.total - amount, locked: true, ..self }
    }

    /// The transition function on unbounded balances: the account after `t`.
    ///
    /// Every failed precondition leaves the account as it is.
    pub open spec fn step(self, t: ClientTransaction) -> Account {
        if self.discards(t) {
            self
        } else {
            match t.transaction_type {
                Type::Deposit => match t.amount {
                    Some(amount) => if self.history.contains_key(t.tx) {
                        self
                    } else {
                        self.deposit(t.tx, amount)
                    },
                    None => self,
                },
                Type::Withdrawal => match t.amount {
                    Some(amount) => if self.history.contains_key(t.tx) || self.available < amount {
                        self
                    } else {
                        self.withdraw(t.tx, amount)
                    },
                    None => self,
                },
                Type::Dispute => if self.is_undisputed(t.tx) {
                    self.dispute(t.tx)
                } else {
                    self
                },
                Type::Resolve => if self.is_disputed(t.tx) {
                    self.resolve(t.tx)
                } else {
                    self
                },
                Type::ChargeBack => if self.is_disputed(t.tx) {
                    self.chargeback(t.tx)
                } else {
                    self
                },
            }
        }
    }

    /// The transaction takes effect and takes more out of a balance than the
    /// balance holds: a dispute over more than is available, or a resolve or
    /// chargeback over more than is held.
    pub open spec fn overdraws(self, t: ClientTransaction) -> bool {
        !self.discards(t) && match t.transaction_type {
            Type::Dispute => self.is_undisputed(t.tx) && self.history[t.tx].amount
                > self.available,
            Type::Resolve => self.is_disputed(t.tx) && self.history[t.tx].amount > self.held,
            Type::ChargeBack => self.is_disputed(t.tx) && self.history[t.tx].amount > self.held,
            _ => false,
        }
    }

    /// The transaction overdraws and is not dropped for leaving the 64-bit range.
    pub open spec fn overdrawn_by(self, t: ClientTransaction) -> bool {
        self.overdraws(t) && self.step(t).in_range()
    }

    /// Neither available nor held funds are negative.
    pub open spec fn solvent(self) -> bool {
        self.available >= 0 && self.held >= 0
    }

    /// What the executable account does: [`Account::step`], unless a balance
    /// would leave the 64-bit range, in which case the transaction is dropped.
    pub open spec fn apply(self, t: ClientTransaction) -> Account {
        if self.step(t).in_range() {
            self.step(t)
        } else {
            self
        }
    }
}

} // verus!
