//! The executable ledger.

use std::collections::HashMap;
use vstd::prelude::*;
use crate::book::{summary, AccountSnapshot, Book};
use crate::client::Client;
use crate::laws::lemma_book_step_keeps_invariant;
use crate::record::ClientTransaction;

verus! {

broadcast use vstd::std_specs::hash::group_hash_axioms;

/// All accounts, by client.
#[derive(Debug)]
pub struct Ledger {
    accounts: HashMap<u16, Client>,
    order: Vec<u16>,
}

impl View for Ledger {
    type V = Book;

    closed spec fn view(&self) -> Book {
        Book { order: self.order@, accounts: self.accounts@.map_values(|c: Client| c@) }
    }
}

impl Ledger {
    /// The ledger's invariant; `new` gives it and every method keeps it.
    pub open spec fn wf(&self) -> bool {
        self@.wf()
    }

    /// A ledger without accounts.
    pub fn new() -> (ledger: Ledger)
        ensures
            ledger.wf(),
            ledger@ == Book::empty(),
    {
        let ledger = Ledger { accounts: HashMap::new(), order: Vec::new() };
        assert(ledger@.accounts =~= Map::empty());
        ledger
    }

    /// Applies one record to the account it addresses, creating the account
    /// on first sight.
    ///
    /// The result is `false` exactly when the record had to be dropped because
    /// a balance would not fit 64 bits; the ledger then only has the account.
    pub fn apply(&mut self, record: &ClientTransaction) -> (within_limits: bool)
        requires
            old(self).wf(),
        ensures
            final(self).wf(),
            final(self)@ == old(self)@.step(*record),
            within_limits == old(self)@.account_or_new(record.id).step(*record).in_range(),
    {
        let id: u16 = record.id;
        proof {
            lemma_book_step_keeps_invariant(old(self)@, *record);
        }
        match self.accounts.remove(&id) {
            Some(client) => {
                let mut client = client;
                let within_limits = client.apply_transaction(record);
                self.accounts.insert(id, client);
                assert(final(self)@.accounts =~= old(self)@.step(*record).accounts);
                within_limits
            },
            None => {
                let client = Client::from(*record);
                self.accounts.insert(id, client);
                self.order.push(id);
                assert(final(self)@.accounts =~= old(self)@.step(*record).accounts);
                true
            },
        }
    }

    /// The current state of every account, one row per client in order of
    /// first appearance.
    pub fn snapshot(&self) -> (rows: Vec<AccountSnapshot>)
        requires
            self.wf(),
        ensures
            rows@ == self@.snapshot(),
    {
        let mut rows: Vec<AccountSnapshot> = Vec::new();
        let mut i: usize = 0;
        while i < self.order.len()
            invariant
                self.wf(),
                i <= self.order.len(),
                rows.len() == i,
                forall|j: int| 0 <= j < i ==> rows[j] == #[trigger] self@.snapshot()[j],
            decreases self.order.len() - i,
        {
            let id: u16 = self.order[i];
            assert(self@.order.contains(id));
            assert(self@.accounts.contains_key(id));
            match self.accounts.get(&id) {
                Some(client) => {
                    rows.push(
                        AccountSnapshot {
                            id: client.id(),
                            available: client.available(),
                            held: client.held(),
                            total: client.total(),
                            locked: client.locked(),
                        },
                    );
                },
                None => {},
            }
            i += 1;
        }
        assert(rows@ =~= self@.snapshot());
        rows
    }

    /// The account of `id` as it stands, if the client was seen.
    pub fn account(&self, id: u16) -> (r: Option<AccountSnapshot>)
        requires
            self.wf(),
        ensures
            r == (if self@.accounts.contains_key(id) {
                Some(summary(self@.accounts[id]))
            } else {
                None
            }),
    {
        match self.accounts.get(&id) {
            Some(client) => Some(
                AccountSnapshot {
                    id: client.id(),
                    available: client.available(),
                    held: client.held(),
                    total: client.total(),
                    locked: client.locked(),
                },
            ),
            None => None,
        }
    }

    /// The client's account itself, if the client was seen.
    pub fn client(&self, id: u16) -> (r: Option<&Client>)
        requires
            self.wf(),
        ensures
            r is Some <==> self@.accounts.contains_key(id),
            r matches Some(c) ==> c@ == self@.accounts[id] && c.wf(),
    {
        let r = self.accounts.get(&id);
        assert(r matches Some(c) ==> self@.accounts.contains_key(id) && c@ == self@.accounts[id]);
        r
    }

    /// The number of clients seen.
    pub fn len(&self) -> (n: usize)
        requires
            self.wf(),
        ensures
            n == self@.order.len(),
    {
        self.order.len()
    }
}

/// Replays `records`, first to last, into a new ledger.
pub fn replay(records: &Vec<ClientTransaction>) -> (ledger: Ledger)
    ensures
        ledger.wf(),
        ledger@ == Book::replay(records@),
{
    let mut ledger = Ledger::new();
    let mut i: usize = 0;
    while i < records.len()
        invariant
            i <= records.len(),
            ledger.wf(),
            ledger@ == Book::replay(records@.take(i as int)),
        decreases records.len() - i,
    {
        ledger.apply(&records[i]);
        proof {
            let next = records@.take(i + 1);
            assert(next.drop_last() =~= records@.take(i as int));
            assert(next.last() == records@[i as int]);
        }
        i += 1;
    }
    assert(records@.take(records.len() as int) =~= records@);
    ledger
}

/// Replays `records` and reports the final state of every account they
/// address, one row per client in order of first appearance.
pub fn apply_transaction(records: &Vec<ClientTransaction>) -> (rows: Vec<AccountSnapshot>)
    ensures
        rows@ == Book::replay(records@).snapshot(),
{
    let ledger = replay(records);
    ledger.snapshot()
}

} // verus!
