use ledger_replay::book::AccountSnapshot;
use ledger_replay::client::Client;
use ledger_replay::kind::{Error, Type};
use ledger_replay::ledger::{apply_transaction, replay, Ledger};
use ledger_replay::money::four_decimals;
use ledger_replay::record::{ClientTransaction, Transaction};

fn record(kind: Type, id: u16, tx: u32, amount: Option<i64>) -> ClientTransaction {
    ClientTransaction { id, transaction_type: kind, tx, amount }
}

fn deposit(id: u16, tx: u32, amount: i64) -> ClientTransaction {
    record(Type::Deposit, id, tx, Some(amount))
}

fn withdrawal(id: u16, tx: u32, amount: i64) -> ClientTransaction {
    record(Type::Withdrawal, id, tx, Some(amount))
}

fn dispute(id: u16, tx: u32) -> ClientTransaction {
    record(Type::Dispute, id, tx, None)
}

fn resolve(id: u16, tx: u32) -> ClientTransaction {
    record(Type::Resolve, id, tx, None)
}

fn chargeback(id: u16, tx: u32) -> ClientTransaction {
    record(Type::ChargeBack, id, tx, None)
}

fn row(id: u16, available: i64, held: i64, total: i64, locked: bool) -> AccountSnapshot {
    AccountSnapshot { id, available, held, total, locked }
}

fn state(client: &Client) -> (i64, i64, i64, bool) {
    (client.available(), client.held(), client.total(), client.locked())
}

#[test]
fn deposits_then_withdrawal() {
    let rows = apply_transaction(&vec![
        deposit(1, 1, 50_000),
        deposit(1, 2, 30_000),
        withdrawal(1, 3, 40_000),
    ]);
    assert_eq!(rows, vec![row(1, 40_000, 0, 40_000, false)]);
    assert_eq!(four_decimals(rows[0].available), "4.0000");
    assert_eq!(four_decimals(rows[0].held), "0.0000");
    assert_eq!(four_decimals(rows[0].total), "4.0000");
}

#[test]
fn withdrawal_without_funds_is_dropped() {
    let rows = apply_transaction(&vec![deposit(1, 1, 50_000), withdrawal(1, 2, 90_000)]);
    assert_eq!(rows, vec![row(1, 50_000, 0, 50_000, false)]);
    assert_eq!(four_decimals(rows[0].available), "5.0000");
    assert_eq!(four_decimals(rows[0].total), "5.0000");
}

#[test]
fn dispute_then_chargeback_locks() {
    let rows = apply_transaction(&vec![deposit(1, 1, 50_000), dispute(1, 1), chargeback(1, 1)]);
    assert_eq!(rows, vec![row(1, 0, 0, 0, true)]);
    assert_eq!(four_decimals(rows[0].available), "0.0000");
}

#[test]
fn dispute_of_unknown_transaction_creates_empty_account() {
    let rows = apply_transaction(&vec![dispute(1, 99)]);
    assert_eq!(rows, vec![row(1, 0, 0, 0, false)]);
}

#[test]
fn empty_input_gives_no_rows() {
    let rows = apply_transaction(&Vec::new());
    assert!(rows.is_empty());
    assert_eq!(Ledger::new().len(), 0);
}

#[test]
fn total_is_available_plus_held_after_every_record() {
    let records = vec![
        deposit(1, 1, 50_000),
        deposit(2, 2, 12_345),
        withdrawal(1, 3, 20_000),
        dispute(1, 1),
        dispute(2, 2),
        resolve(2, 2),
        withdrawal(2, 4, 345),
        chargeback(1, 1),
        deposit(1, 5, 10_000),
    ];
    let mut ledger = Ledger::new();
    for record in &records {
        assert!(ledger.apply(record));
        for snapshot in ledger.snapshot() {
            assert_eq!(snapshot.total, snapshot.available + snapshot.held);
        }
    }
    assert_eq!(
        ledger.snapshot(),
        vec![row(1, -20_000, 0, -20_000, true), row(2, 12_000, 0, 12_000, false)]
    );
}

#[test]
fn balances_stay_non_negative_without_overdraw() {
    let records = vec![
        deposit(7, 1, 100),
        dispute(7, 1),
        withdrawal(7, 2, 1),
        resolve(7, 1),
        withdrawal(7, 3, 60),
    ];
    let mut ledger = Ledger::new();
    for record in &records {
        ledger.apply(record);
        let account = ledger.account(7).unwrap();
        assert!(account.available >= 0);
        assert!(account.held >= 0);
    }
    assert_eq!(ledger.account(7), Some(row(7, 40, 0, 40, false)));
}

#[test]
fn dispute_over_more_than_available_goes_negative() {
    let mut client = Client::new(3);
    client.apply_transaction(&deposit(3, 1, 50_000));
    client.apply_transaction(&withdrawal(3, 2, 50_000));
    client.apply_transaction(&dispute(3, 1));
    assert_eq!(state(&client), (-50_000, 50_000, 0, false));
}

#[test]
fn repeated_monetary_record_counts_once() {
    let mut client = Client::new(1);
    client.apply_transaction(&deposit(1, 1, 25_000));
    let once = state(&client);
    client.apply_transaction(&deposit(1, 1, 25_000));
    assert_eq!(state(&client), once);
    assert_eq!(once, (25_000, 0, 25_000, false));

    client.apply_transaction(&withdrawal(1, 2, 5_000));
    let once = state(&client);
    client.apply_transaction(&withdrawal(1, 2, 5_000));
    assert_eq!(state(&client), once);
    assert_eq!(once, (20_000, 0, 20_000, false));
}

#[test]
fn repeated_identifier_never_overwrites() {
    let mut client = Client::new(1);
    client.apply_transaction(&deposit(1, 1, 25_000));
    client.apply_transaction(&deposit(1, 1, 99_000));
    client.apply_transaction(&withdrawal(1, 1, 1_000));
    assert_eq!(state(&client), (25_000, 0, 25_000, false));
    assert_eq!(
        client.transaction(1),
        Some(Transaction { amount: 25_000, is_under_dispute: false })
    );
}

#[test]
fn dispute_before_deposit_is_lost() {
    let early = apply_transaction(&vec![dispute(1, 1), deposit(1, 1, 50_000)]);
    assert_eq!(early, vec![row(1, 50_000, 0, 50_000, false)]);
    let late = apply_transaction(&vec![deposit(1, 1, 50_000), dispute(1, 1)]);
    assert_eq!(late, vec![row(1, 0, 50_000, 50_000, false)]);
}

#[test]
fn locked_account_ignores_everything() {
    let mut client = Client::new(1);
    client.apply_transaction(&deposit(1, 1, 50_000));
    client.apply_transaction(&deposit(1, 2, 10_000));
    client.apply_transaction(&dispute(1, 1));
    client.apply_transaction(&dispute(1, 2));
    client.apply_transaction(&chargeback(1, 1));
    let frozen = state(&client);
    assert_eq!(frozen, (0, 10_000, 10_000, true));
    for later in [
        deposit(1, 3, 70_000),
        withdrawal(1, 4, 1),
        dispute(1, 2),
        resolve(1, 2),
        chargeback(1, 2),
    ] {
        assert!(client.apply_transaction(&later));
        assert_eq!(state(&client), frozen);
    }
    assert_eq!(client.transaction(3), None);
}

#[test]
fn negative_amount_is_discarded_but_creates_the_account() {
    let rows = apply_transaction(&vec![deposit(4, 1, -1), withdrawal(5, 2, -10_000)]);
    assert_eq!(rows, vec![row(4, 0, 0, 0, false), row(5, 0, 0, 0, false)]);
    let ledger = replay(&vec![deposit(4, 1, -1)]);
    assert_eq!(ledger.client(4).unwrap().transaction(1), None);
}

#[test]
fn negative_amount_on_a_dispute_discards_it() {
    let rows = apply_transaction(&vec![
        deposit(1, 1, 50_000),
        record(Type::Dispute, 1, 1, Some(-1)),
    ]);
    assert_eq!(rows, vec![row(1, 50_000, 0, 50_000, false)]);
}

#[test]
fn monetary_record_without_amount_is_dropped() {
    let rows = apply_transaction(&vec![
        record(Type::Deposit, 1, 1, None),
        deposit(1, 2, 10),
        record(Type::Withdrawal, 1, 3, None),
    ]);
    assert_eq!(rows, vec![row(1, 10, 0, 10, false)]);
    let ledger = replay(&vec![record(Type::Deposit, 1, 1, None)]);
    assert_eq!(ledger.client(1).unwrap().transaction(1), None);
}

#[test]
fn resolve_returns_held_funds_and_keeps_the_flag() {
    let mut client = Client::new(1);
    client.apply_transaction(&deposit(1, 1, 50_000));
    client.apply_transaction(&dispute(1, 1));
    assert_eq!(state(&client), (0, 50_000, 50_000, false));
    client.apply_transaction(&resolve(1, 1));
    assert_eq!(state(&client), (50_000, 0, 50_000, false));
    assert_eq!(
        client.transaction(1),
        Some(Transaction { amount: 50_000, is_under_dispute: true })
    );
    // The flag is still set: a second dispute is refused, a second resolve is not.
    client.apply_transaction(&dispute(1, 1));
    assert_eq!(state(&client), (50_000, 0, 50_000, false));
    client.apply_transaction(&resolve(1, 1));
    assert_eq!(state(&client), (100_000, -50_000, 50_000, false));
}

#[test]
fn resolve_and_chargeback_need_a_dispute() {
    let rows = apply_transaction(&vec![deposit(1, 1, 50_000), resolve(1, 1), chargeback(1, 1)]);
    assert_eq!(rows, vec![row(1, 50_000, 0, 50_000, false)]);
}

#[test]
fn disputed_withdrawal_moves_its_amount() {
    let rows = apply_transaction(&vec![
        deposit(1, 1, 50_000),
        withdrawal(1, 2, 20_000),
        dispute(1, 2),
    ]);
    assert_eq!(rows, vec![row(1, 10_000, 20_000, 30_000, false)]);
}

#[test]
fn records_touch_only_their_client() {
    let mut ledger = Ledger::new();
    ledger.apply(&deposit(1, 1, 10));
    ledger.apply(&deposit(2, 1, 20));
    ledger.apply(&dispute(2, 1));
    ledger.apply(&chargeback(2, 1));
    ledger.apply(&deposit(1, 2, 5));
    assert_eq!(ledger.account(1), Some(row(1, 15, 0, 15, false)));
    assert_eq!(ledger.account(2), Some(row(2, 0, 0, 0, true)));
    assert_eq!(ledger.account(3), None);
    assert!(ledger.client(3).is_none());
    assert_eq!(ledger.len(), 2);
}

#[test]
fn snapshot_lists_clients_in_order_of_first_appearance() {
    let rows = apply_transaction(&vec![
        deposit(9, 1, 1),
        deposit(3, 2, 2),
        deposit(9, 3, 3),
        dispute(5, 1),
        deposit(3, 4, 4),
    ]);
    assert_eq!(rows, vec![row(9, 4, 0, 4, false), row(3, 6, 0, 6, false), row(5, 0, 0, 0, false)]);
}

#[test]
fn first_transaction_is_applied_to_a_fresh_account() {
    let client = Client::from(deposit(8, 1, 70_000));
    assert_eq!(client.id(), 8);
    assert_eq!(state(&client), (70_000, 0, 70_000, false));
    assert_eq!(
        client.transaction(1),
        Some(Transaction { amount: 70_000, is_under_dispute: false })
    );
    let client = Client::from(withdrawal(8, 1, 70_000));
    assert_eq!(state(&client), (0, 0, 0, false));
    assert_eq!(client.transaction(1), None);
    let client = Client::from(chargeback(8, 1));
    assert_eq!(state(&client), (0, 0, 0, false));
}

#[test]
fn record_that_would_overflow_is_reported_and_dropped() {
    let mut ledger = Ledger::new();
    assert!(ledger.apply(&deposit(1, 1, i64::MAX)));
    assert!(!ledger.apply(&deposit(1, 2, 1)));
    assert_eq!(ledger.account(1), Some(row(1, i64::MAX, 0, i64::MAX, false)));
    assert_eq!(ledger.client(1).unwrap().transaction(2), None);
    assert!(ledger.apply(&withdrawal(1, 3, i64::MAX)));
    assert_eq!(ledger.account(1), Some(row(1, 0, 0, 0, false)));

    let mut client = Client::new(2);
    assert!(client.apply_transaction(&deposit(2, 1, i64::MAX)));
    assert!(client.apply_transaction(&dispute(2, 1)));
    assert_eq!(state(&client), (0, i64::MAX, i64::MAX, false));
    assert!(client.apply_transaction(&resolve(2, 1)));
    assert_eq!(state(&client), (i64::MAX, 0, i64::MAX, false));
    assert!(!client.apply_transaction(&resolve(2, 1)));
    assert_eq!(state(&client), (i64::MAX, 0, i64::MAX, false));
}

#[test]
fn kinds_are_read_from_their_names() {
    assert_eq!(Type::from_str("deposit").unwrap(), Type::Deposit);
    assert_eq!(Type::from_str("withdrawal").unwrap(), Type::Withdrawal);
    assert_eq!(Type::from_str("dispute").unwrap(), Type::Dispute);
    assert_eq!(Type::from_str("resolve").unwrap(), Type::Resolve);
    assert_eq!(Type::from_str("chargeback").unwrap(), Type::ChargeBack);
}

#[test]
fn unknown_kind_is_rejected_with_its_text() {
    for text in ["Deposit", "", " deposit", "charge_back", "transfer", "deposit "] {
        match Type::from_str(text) {
            Err(Error::InvalidTransactionType(token)) => assert_eq!(token, text),
            Ok(kind) => panic!("{:?} read as {:?}", text, kind),
        }
    }
    let error = Type::from_str("refund").unwrap_err();
    assert_eq!(error.message(), "Invalid transation type refund");
}

#[test]
fn names_round_trip() {
    for kind in [Type::Deposit, Type::Withdrawal, Type::Dispute, Type::Resolve, Type::ChargeBack] {
        assert_eq!(Type::from_str(&kind.as_string()).unwrap(), kind);
    }
    assert_eq!(Type::ChargeBack.as_string(), "chargeback");
    assert_eq!(Type::Deposit.as_string(), "deposit");
}

#[test]
fn amounts_are_written_with_four_fractional_digits() {
    assert_eq!(four_decimals(0), "0.0000");
    assert_eq!(four_decimals(1), "0.0001");
    assert_eq!(four_decimals(-1), "-0.0001");
    assert_eq!(four_decimals(12_345), "1.2345");
    assert_eq!(four_decimals(-98_760_500), "-9876.0500");
    assert_eq!(four_decimals(10_000), "1.0000");
    assert_eq!(four_decimals(1_234_567_890), "123456.7890");
    assert_eq!(four_decimals(i64::MAX), "922337203685477.5807");
    assert_eq!(four_decimals(i64::MIN), "-922337203685477.5808");
}

#[test]
fn negative_check_looks_only_at_the_amount() {
    assert!(deposit(1, 1, -1).is_negative());
    assert!(!deposit(1, 1, 0).is_negative());
    assert!(!dispute(1, 1).is_negative());
}
