//! The executable account of one client.

use std::collections::HashMap;
use vstd::prelude::*;
use crate::account::Account;
use crate::kind::Type;
use crate::laws::lemma_step_keeps_invariant;
use crate::record::{ClientTransaction, Transaction};

verus! {

broadcast use vstd::std_specs::hash::group_hash_axioms;

/// Balances, lock flag and transaction history of one client.
#[derive(Debug)]
pub struct Client {
    id: u16,
    available: i64,
    held: i64,
    total: i64,
    locked: bool,
    transations_history: HashMap<u32, Transaction>,
}

impl View for Client {
    type V = Account;

    closed spec fn view(&self) -> Account {
        Account {
            id: self.id,
            available: self.available as int,
            held: self.held as int,
            total: self.total as int,
            locked: self.locked,
            history: self.transations_history@,
        }
    }
}

impl Default for Client {
    /// The fresh account of client 0.
    fn default() -> (client: Client)
        ensures
            client@ == Account::new(0),
            client.wf(),
    {
        Client::new(0)
    }
}

impl Client {
    /// The account's invariant; every constructor gives it and every method keeps it.
    pub open spec fn wf(&self) -> bool {
        self@.wf() && self@.in_range()
    }

    /// A fresh account for `id`.
    pub fn new(id: u16) -> (client: Client)
        ensures
            client@ == Account::new(id),
            client.wf(),
    {
        Client {
            id,
            available: 0,
            held: 0,
            total: 0,
            locked: false,
            transations_history: HashMap::new(),
        }
    }

    /// Applies one transaction to the account.
    ///
    /// The account afterwards is `apply` of the account before. The result is
    /// `false` exactly when the transaction had to be dropped because a balance
    /// would not fit 64 bits; the account is then unchanged.
    pub fn apply_transaction(&mut self, transaction: &ClientTransaction) -> (within_limits: bool)
        requires
            old(self).wf(),
        ensures
            final(self).wf(),
            final(self)@ == old(self)@.apply(*transaction),
            within_limits == old(self)@.step(*transaction).in_range(),
    {
        proof {
            lemma_step_keeps_invariant(old(self)@, *transaction);
        }
        if self.locked || transaction.is_negative() {
            return true;
        }
        let tx: u32 = transaction.tx;
        match transaction.transaction_type {
            Type::Deposit => {
                if self.transations_history.contains_key(&tx) {
                    return true;
                }
                match transaction.amount {
                    Some(amount) => {
                        match (self.available.checked_add(amount), self.total.checked_add(amount)) {
                            (Some(available), Some(total)) => {
                                self.available = available;
                                self.total = total;
                                self.transations_history.insert(
                                    tx,
                                    Transaction { amount, is_under_dispute: false },
                                );
                                true
                            },
                            _ => false,
                        }
                    },
                    None => true,
                }
            },
            Type::Withdrawal => {
                if self.transations_history.contains_key(&tx) {
                    return true;
                }
                match transaction.amount {
                    Some(amount) => {
                        if self.available < amount {
                            return true;
                        }
                        match (self.available.checked_sub(amount), self.total.checked_sub(amount)) {
                            (Some(available), Some(total)) => {
                                self.available = available;
                                self.total = total;
                                self.transations_history.insert(
                                    tx,
                                    Transaction { amount, is_under_dispute: false },
                                );
                                true
                            },
                            _ => false,
                        }
                    },
                    None => true,
                }
            },
            Type::Dispute => {
                match self.undisputed_amount(tx) {
                    Some(amount) => {
                        match (self.held.checked_add(amount), self.available.checked_sub(amount)) {
                            (Some(held), Some(available)) => {
                                self.held = held;
                                self.available = available;
                                self.transations_history.insert(
                                    tx,
                                    Transaction { amount, is_under_dispute: true },
                                );
                                true
                            },
                            _ => false,
                        }
                    },
                    None => true,
                }
            },
            Type::Resolve => {
                match self.disputed_amount(tx) {
                    Some(amount) => {
                        match (self.held.checked_sub(amount), self.available.checked_add(amount)) {
                            (Some(held), Some(available)) => {
                                self.held = held;
                                self.available = available;
                                true
                            },
                            _ => false,
                        }
                    },
                    None => true,
                }
            },
            Type::ChargeBack => {
                match self.disputed_amount(tx) {
                    Some(amount) => {
                        match (self.held.checked_sub(amount), self.total.checked_sub(amount)) {
                            (Some(held), Some(total)) => {
                                self.held = held;
                                self.total = total;
                                self.locked = true;
                                true
                            },
                            _ => false,
                        }
                    },
                    None => true,
                }
            },
        }
    }

    /// The amount of `tx` if it is remembered and not flagged as disputed.
    fn undisputed_amount(&self, tx: u32) -> (r: Option<i64>)
        ensures
            r is Some <==> self@.is_undisputed(tx),
            r matches Some(amount) ==> amount == self@.history[tx].amount,
    {
        match self.transations_history.get(&tx) {
            Some(entry) => if entry.is_under_dispute {
                None
            } else {
                Some(entry.amount)
            },
            None => None,
        }
    }

    /// The amount of `tx` if it is remembered and flagged as disputed.
    fn disputed_amount(&self, tx: u32) -> (r: Option<i64>)
        ensures
            r is Some <==> self@.is_disputed(tx),
            r matches Some(amount) ==> amount == self@.history[tx].amount,
    {
        match self.transations_history.get(&tx) {
            Some(entry) => if entry.is_under_dispute {
                Some(entry.amount)
            } else {
                None
            },
            None => None,
        }
    }

    /// The account a client has after its first transaction: a fresh account
    /// to which that transaction was applied.
    pub fn from(client_transaction: ClientTransaction) -> (client: Client)
        ensures
            client.wf(),
            client@ == Account::new(client_transaction.id).step(client_transaction),
    {
        let mut client = Client::new(client_transaction.id);
        client.apply_transaction(&client_transaction);
        client
    }

    /// The client's identifier.
    pub fn id(&self) -> (r: u16)
        ensures
            r == self@.id,
    {
        self.id
    }

    /// Funds not held by a dispute, in ten-thousandths.
    pub fn available(&self) -> (r: i64)
        ensures
            r == self@.available,
    {
        self.available
    }

    /// Funds frozen by disputes, in ten-thousandths.
    pub fn held(&self) -> (r: i64)
        ensures
            r == self@.held,
    {
        self.held
    }

    /// Available and held together, in ten-thousandths.
    pub fn total(&self) -> (r: i64)
        ensures
            r == self@.total,
    {
        self.total
    }

    /// Whether a chargeback has frozen the account.
    pub fn locked(&self) -> (r: bool)
        ensures
            r == self@.locked,
    {
        self.locked
    }

    /// What the account remembers of `tx`, if it accepted it.
    pub fn transaction(&self, tx: u32) -> (r: Option<Transaction>)
        ensures
            r == (if self@.history.contains_key(tx) {
                Some(self@.history[tx])
            } else {
                None
            }),
    {
        match self.transations_history.get(&tx) {
            Some(entry) => Some(*entry),
            None => None,
        }
    }
}

} // verus!
