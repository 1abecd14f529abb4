//! Laws of the account transition function and of the ledger built on it.

use vstd::prelude::*;
use crate::account::Account;
use crate::book::{summary, Book};
use crate::kind::Type;
use crate::record::{ClientTransaction, Transaction};

verus! {

/// Whatever the transaction, an account whose total is the sum of available
/// and held, and whose remembered amounts are non-negative, is again such an
/// account afterwards.
pub proof fn lemma_step_keeps_invariant(a: Account, t: ClientTransaction)
    requires
        a.wf(),
    ensures
        a.step(t).wf(),
        a.apply(t).wf(),
        a.step(t).id == a.id,
{
    let b = a.step(t);
    assert forall|tx: u32| #[trigger] b.history.contains_key(tx) implies b.history[tx].amount
        >= 0 by {
        if tx != t.tx {
            assert(a.history.contains_key(tx));
        } else if a.history.contains_key(tx) {
            assert(a.history[tx].amount >= 0);
        }
    }
}

/// Starting from non-negative available and held funds, both are non-negative
/// after a transaction exactly when the transaction does not overdraw. Deposits
/// and withdrawals never overdraw.
pub proof fn lemma_step_non_negative(a: Account, t: ClientTransaction)
    requires
        a.wf(),
        a.solvent(),
    ensures
        a.step(t).solvent() <==> !a.overdraws(t),
        a.apply(t).solvent() <==> !a.overdrawn_by(t),
        t.transaction_type.is_monetary() ==> !a.overdraws(t),
{
    if a.history.contains_key(t.tx) {
        assert(a.history[t.tx].amount >= 0);
    }
}

/// Replaying the same deposit or withdrawal changes nothing the second time.
pub proof fn lemma_monetary_replay_is_noop(a: Account, t: ClientTransaction)
    requires
        t.transaction_type.is_monetary(),
    ensures
        a.step(t).step(t) == a.step(t),
        a.apply(t).apply(t) == a.apply(t),
{
}

/// A dispute that refers to a transaction the account does not remember
/// changes nothing, and so does a resolve or a chargeback.
pub proof fn lemma_unknown_reference_is_noop(a: Account, t: ClientTransaction)
    requires
        !t.transaction_type.is_monetary(),
        !a.history.contains_key(t.tx),
    ensures
        a.step(t) == a,
        a.apply(t) == a,
{
}

/// Order matters: a dispute placed before the deposit it refers to is lost and
/// leaves the deposit available, while the same dispute placed after it moves
/// the deposit to held funds and flags it.
pub proof fn lemma_dispute_order(
    a: Account,
    deposit: ClientTransaction,
    dispute: ClientTransaction,
    amount: i64,
)
    requires
        !a.locked,
        deposit.transaction_type == Type::Deposit,
        deposit.amount == Some(amount),
        amount >= 0,
        !a.history.contains_key(deposit.tx),
        dispute.transaction_type == Type::Dispute,
        dispute.tx == deposit.tx,
        !dispute.has_negative_amount(),
    ensures
        a.step(dispute).step(deposit) == a.deposit(deposit.tx, amount),
        a.step(deposit).step(dispute) == (Account {
            held: a.held + amount,
            total: a.total + amount,
            history: a.history.insert(
                deposit.tx,
                Transaction { amount, is_under_dispute: true },
            ),
            ..a
        }),
{
    let tx = deposit.tx;
    let after = a.step(deposit).step(dispute);
    assert(a.step(deposit) == a.deposit(tx, amount));
    assert(a.deposit(tx, amount).is_undisputed(tx));
    assert(after.history =~= a.history.insert(tx, Transaction { amount, is_under_dispute: true }));
}

/// A locked account is never changed again, whatever the transaction.
pub proof fn lemma_locked_is_terminal(a: Account, t: ClientTransaction)
    requires
        a.locked,
    ensures
        a.step(t) == a,
        a.apply(t) == a,
{
}

/// A chargeback that takes effect locks the account, and no later transaction
/// changes it.
pub proof fn lemma_chargeback_is_final(a: Account, t: ClientTransaction, later: ClientTransaction)
    requires
        t.transaction_type == Type::ChargeBack,
        !a.discards(t),
        a.is_disputed(t.tx),
    ensures
        a.step(t).locked,
        a.step(t).step(later) == a.step(t),
        a.apply(t).locked ==> a.apply(t).apply(later) == a.apply(t),
{
}

/// No transaction unlocks an account.
pub proof fn lemma_lock_is_kept(a: Account, t: ClientTransaction)
    ensures
        a.locked ==> a.step(t).locked,
        a.step(t).locked ==> a.locked || (t.transaction_type == Type::ChargeBack
            && a.is_disputed(t.tx)),
{
}

/// A ledger that keeps its invariant keeps it through every record; in
/// particular every account's total stays the sum of its available and held
/// funds.
pub proof fn lemma_book_step_keeps_invariant(b: Book, t: ClientTransaction)
    requires
        b.wf(),
    ensures
        b.step(t).wf(),
{
    let c = b.step(t);
    lemma_step_keeps_invariant(b.account_or_new(t.id), t);
    assert(c.order.no_duplicates()) by {
        if !b.accounts.contains_key(t.id) {
            assert(!b.order.contains(t.id));
            assert forall|i: int, j: int|
                0 <= i < c.order.len() && 0 <= j < c.order.len() && i != j implies c.order[i]
                != c.order[j] by {
                if i < b.order.len() {
                    assert(b.order.contains(b.order[i]));
                }
                if j < b.order.len() {
                    assert(b.order.contains(b.order[j]));
                }
            }
        }
    }
    assert forall|id: u16| c.order.contains(id) <==> #[trigger] c.accounts.contains_key(id) by {
        if b.accounts.contains_key(t.id) {
            assert(b.order.contains(t.id));
        } else {
            assert(c.order.last() == t.id);
            if c.order.contains(id) && id != t.id {
                let i = choose|i: int| 0 <= i < c.order.len() && c.order[i] == id;
                assert(b.order[i] == id);
                assert(b.order.contains(id));
            }
            if b.order.contains(id) {
                let i = choose|i: int| 0 <= i < b.order.len() && b.order[i] == id;
                assert(c.order[i] == id);
            }
        }
        assert(b.order.contains(id) <==> b.accounts.contains_key(id));
    }
    assert forall|id: u16| #[trigger] c.accounts.contains_key(id) implies {
        &&& c.accounts[id].id == id
        &&& c.accounts[id].wf()
        &&& c.accounts[id].in_range()
    } by {
        if id != t.id {
            assert(b.accounts.contains_key(id));
        }
    }
}

/// After any sequence of records the ledger keeps its invariant: for every
/// account, total is the sum of available and held.
pub proof fn lemma_replay_keeps_invariant(records: Seq<ClientTransaction>)
    ensures
        Book::replay(records).wf(),
        forall|id: u16| #[trigger]
            Book::replay(records).accounts.contains_key(id) ==> Book::replay(
                records,
            ).accounts[id].balanced(),
    decreases records.len(),
{
    if records.len() > 0 {
        lemma_replay_keeps_invariant(records.drop_last());
        lemma_book_step_keeps_invariant(Book::replay(records.drop_last()), records.last());
    }
}

/// A record touches only the account it addresses.
pub proof fn lemma_book_step_frame(b: Book, t: ClientTransaction, id: u16)
    requires
        id != t.id,
    ensures
        b.step(t).accounts.contains_key(id) == b.accounts.contains_key(id),
        b.accounts.contains_key(id) ==> b.step(t).accounts[id] == b.accounts[id],
{
}

/// Once an account in the ledger is locked, no record changes the ledger.
pub proof fn lemma_book_locked_is_terminal(b: Book, t: ClientTransaction)
    requires
        b.accounts.contains_key(t.id),
        b.accounts[t.id].locked,
    ensures
        b.step(t) == b,
{
    assert(b.step(t).accounts =~= b.accounts);
}

/// While no record overdraws the account it addresses, no account has
/// negative available or held funds, at any point of the replay.
pub proof fn lemma_replay_non_negative(records: Seq<ClientTransaction>, k: int)
    requires
        Book::never_overdraws(records),
        0 <= k <= records.len(),
    ensures
        Book::replay(records.take(k)).solvent(),
    decreases records.len(),
{
    if k < records.len() {
        assert(records.drop_last().take(k) =~= records.take(k));
        lemma_replay_non_negative(records.drop_last(), k);
    } else if records.len() > 0 {
        assert(records.take(k) =~= records);
        assert(records.drop_last().take(k - 1) =~= records.drop_last());
        let before = Book::replay(records.drop_last());
        let t = records.last();
        lemma_replay_non_negative(records.drop_last(), k - 1);
        lemma_replay_keeps_invariant(records.drop_last());
        lemma_step_non_negative(before.account_or_new(t.id), t);
        let after = before.step(t);
        assert forall|id: u16| #[trigger]
            after.accounts.contains_key(id) implies after.accounts[id].solvent() by {
            if id != t.id {
                assert(before.accounts.contains_key(id));
            }
        }
    } else {
        assert(records.take(k) =~= records);
    }
}

/// A client has an account exactly when some record so far addressed it.
pub proof fn lemma_replay_accounts(records: Seq<ClientTransaction>, id: u16)
    ensures
        Book::replay(records).accounts.contains_key(id) <==> exists|i: int|
            0 <= i < records.len() && (#[trigger] records[i]).id == id,
    decreases records.len(),
{
    if records.len() > 0 {
        let front = records.drop_last();
        lemma_replay_accounts(front, id);
        if Book::replay(records).accounts.contains_key(id) {
            if records.last().id == id {
                assert(records[records.len() - 1].id == id);
            } else {
                let i = choose|i: int| 0 <= i < front.len() && (#[trigger] front[i]).id == id;
                assert(records[i].id == id);
            }
        }
        if exists|i: int| 0 <= i < records.len() && (#[trigger] records[i]).id == id {
            let i = choose|i: int| 0 <= i < records.len() && (#[trigger] records[i]).id == id;
            if i < front.len() {
                assert(front[i].id == id);
            }
        }
    }
}

/// The snapshot of a ledger has one row for each client that has an account,
/// and no two rows for the same client.
pub proof fn lemma_snapshot_one_row_per_client(b: Book)
    requires
        b.wf(),
    ensures
        b.snapshot().len() == b.order.len(),
        forall|id: u16| #[trigger]
            b.accounts.contains_key(id) ==> b.snapshot().contains(summary(b.accounts[id])),
        forall|i: int, j: int|
            0 <= i < j < b.snapshot().len() ==> (#[trigger] b.snapshot()[i]).id != (
            #[trigger] b.snapshot()[j]).id,
{
    assert forall|id: u16| #[trigger] b.accounts.contains_key(id) implies b.snapshot().contains(
        summary(b.accounts[id]),
    ) by {
        assert(b.order.contains(id));
        let i = choose|i: int| 0 <= i < b.order.len() && b.order[i] == id;
        assert(b.snapshot()[i] == summary(b.accounts[id]));
    }
    assert forall|i: int, j: int| 0 <= i < j < b.snapshot().len() implies (
    #[trigger] b.snapshot()[i]).id != (#[trigger] b.snapshot()[j]).id by {
        assert(b.order.contains(b.order[i]));
        assert(b.order.contains(b.order[j]));
        assert(b.accounts.contains_key(b.order[i]));
        assert(b.accounts.contains_key(b.order[j]));
    }
}

/// Replaying the same deposit or withdrawal record changes the ledger only once.
pub proof fn lemma_book_monetary_replay_is_noop(b: Book, t: ClientTransaction)
    requires
        t.transaction_type.is_monetary(),
    ensures
        b.step(t).step(t) == b.step(t),
{
    lemma_monetary_replay_is_noop(b.account_or_new(t.id), t);
    assert(b.step(t).step(t).accounts =~= b.step(t).accounts);
}

} // verus!
