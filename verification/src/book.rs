//! The mathematical ledger: accounts by client, in order of first appearance.

use vstd::prelude::*;
use crate::account::Account;
use crate::record::ClientTransaction;

verus! {

/// The externally visible part of an account.
#[derive(Clone, Copy, Debug, PartialEq, Eq, Structural)]
pub struct AccountSnapshot {
    pub id: u16,
    /// In ten-thousandths, like every amount.
    pub available: i64,
    pub held: i64,
    pub total: i64,
    pub locked: bool,
}

/// The snapshot of an account whose balances fit 64 bits.
pub open spec fn summary(a: Account) -> AccountSnapshot
    recommends
        a.in_range(),
{
    AccountSnapshot {
        id: a.id,
        available: a.available as i64,
        held: a.held as i64,
        total: a.total as i64,
        locked: a.locked,
    }
}

/// A ledger as a mathematical value.
pub struct Book {
    /// The clients seen so far, each once, in order of first appearance.
    pub order: Seq<u16>,
    /// The account of each client seen so far.
    pub accounts: Map<u16, Account>,
}

impl Book {
    /// The ledger before any transaction.
    pub open spec fn empty() -> Book {
        Book { order: Seq::empty(), accounts: Map::empty() }
    }

    /// The invariant of every reachable ledger: the order lists exactly the
    /// clients that have an account, each once; every account carries its
    /// client's identifier, keeps the account invariant and fits 64 bits.
    pub open spec fn wf(self) -> bool {
        &&& self.order.no_duplicates()
        &&& forall|id: u16| self.order.contains(id) <==> #[trigger] self.accounts.contains_key(id)
        &&& forall|id: u16| #[trigger]
            self.accounts.contains_key(id) ==> {
                &&& self.accounts[id].id == id
                &&& self.accounts[id].wf()
                &&& self.accounts[id].in_range()
            }
    }

    /// The account of `id`, or the fresh one it would get.
    pub open spec fn account_or_new(self, id: u16) -> Account {
        if self.accounts.contains_key(id) {
            self.accounts[id]
        } else {
            Account::new(id)
        }
    }

    /// The ledger after one record: the addressed account, created if the
    /// client is new, takes the transaction; a new client goes to the end of
    /// the order; nothing else changes.
    pub open spec fn step(self, t: ClientTransaction) -> Book {
        Book {
            order: if self.accounts.contains_key(t.id) {
                self.order
            } else {
                self.order.push(t.id)
            },
            accounts: self.accounts.insert(t.id, self.account_or_new(t.id).apply(t)),
        }
    }

    /// The ledger after all of `records`, applied first to last to the empty ledger.
    pub open spec fn replay(records: Seq<ClientTransaction>) -> Book
        decreases records.len(),
    {
        if records.len() == 0 {
            Book::empty()
        } else {
            Book::replay(records.drop_last()).step(records.last())
        }
    }

    /// No account has negative available or held funds.
    pub open spec fn solvent(self) -> bool {
        forall|id: u16| #[trigger] self.accounts.contains_key(id) ==> self.accounts[id].solvent()
    }

    /// No record of the sequence, at its place in the replay, overdraws the
    /// account it addresses.
    pub open spec fn never_overdraws(records: Seq<ClientTransaction>) -> bool
        decreases records.len(),
    {
        records.len() == 0 || {
            &&& Book::never_overdraws(records.drop_last())
            &&& !Book::replay(records.drop_last()).account_or_new(
                records.last().id,
            ).overdrawn_by(records.last())
        }
    }

    /// One snapshot per client, in order of first appearance.
    pub open spec fn snapshot(self) -> Seq<AccountSnapshot> {
        Seq::new(self.order.len(), |i: int| summary(self.accounts[self.order[i]]))
    }
}

} // verus!
