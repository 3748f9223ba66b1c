use transaction::entry::{TransactionEntry, TransactionEntryType};
use transaction::error::PaymentError;
use transaction::payments_engine::PaymentEngine;
use transaction::processor::{process_entry, process_stream};
use transaction::transaction::{
    ConvertionError, Transaction, TransactionStatus, TransactionType,
};

// Amounts are fixed-point values in units of 1/10000: 1_000_000 units are
// the decimal amount 100.0000.

fn deposit(account_id: u16, tx_id: u32, amount: u64) -> TransactionEntry {
    TransactionEntry {
        entry_type: TransactionEntryType::Deposit,
        account_id,
        tx_id,
        amount: Some(amount),
    }
}

fn withdrawal(account_id: u16, tx_id: u32, amount: u64) -> TransactionEntry {
    TransactionEntry {
        entry_type: TransactionEntryType::Withdrawal,
        account_id,
        tx_id,
        amount: Some(amount),
    }
}

fn workflow(kind: TransactionEntryType, account_id: u16, tx_id: u32) -> TransactionEntry {
    TransactionEntry {
        entry_type: kind,
        account_id,
        tx_id,
        amount: None,
    }
}

#[test]
fn test_default_engine_is_empty() {
    let engine = PaymentEngine::default();
    assert_eq!(engine.accounts().len(), 0);
    assert_eq!(engine.report(), "client, available, held, total, locked\n");
}

#[test]
fn test_deposit_withdrawal_round_trip() {
    let mut engine = PaymentEngine::new();
    process_entry(&mut engine, deposit(1, 1, 1_000_000)).unwrap();
    process_entry(&mut engine, withdrawal(1, 2, 1_000_000)).unwrap();

    let account = engine.get_account(1).unwrap();
    assert_eq!(account.available, 0);
    assert_eq!(account.total, 0);
    assert_eq!(account.held, 0);
    assert!(!account.locked);
}

#[test]
fn test_chargeback_locks_account_for_good() {
    let mut engine = PaymentEngine::new();
    process_entry(&mut engine, deposit(1, 1, 1_000_000)).unwrap();
    process_entry(&mut engine, deposit(1, 2, 10_000)).unwrap();

    process_entry(&mut engine, workflow(TransactionEntryType::Dispute, 1, 2)).unwrap();
    assert_eq!(engine.get_account(1).unwrap().held, 10_000);

    process_entry(&mut engine, workflow(TransactionEntryType::Chargeback, 1, 2)).unwrap();
    let account = engine.get_account(1).unwrap();
    assert_eq!(account.held, 0);
    assert_eq!(account.total, 1_000_000);
    assert_eq!(account.available, 1_000_000);
    assert!(account.locked);

    // Every further operation on the account is rejected as locked and
    // changes nothing.
    let locked = Err(PaymentError::AccountLocked(1));
    assert_eq!(process_entry(&mut engine, deposit(1, 3, 10_000)), locked);
    assert_eq!(process_entry(&mut engine, withdrawal(1, 4, 10_000)), locked);
    assert_eq!(
        process_entry(&mut engine, workflow(TransactionEntryType::Dispute, 1, 1)),
        locked
    );
    assert_eq!(
        process_entry(&mut engine, workflow(TransactionEntryType::Resolve, 1, 1)),
        locked
    );
    assert_eq!(
        process_entry(&mut engine, workflow(TransactionEntryType::Chargeback, 1, 1)),
        locked
    );

    let account = engine.get_account(1).unwrap();
    assert_eq!(account.available, 1_000_000);
    assert_eq!(account.held, 0);
    assert_eq!(account.total, 1_000_000);
    assert!(account.locked);
    assert!(engine.get_transaction(1, 3).is_none());
    assert!(engine.get_transaction(1, 4).is_none());
    assert_eq!(
        engine.get_transaction(1, 1).unwrap().status,
        TransactionStatus::Completed
    );
}

#[test]
fn test_dispute_resolve_cycle_restores_available() {
    let mut engine = PaymentEngine::new();
    process_entry(&mut engine, deposit(1, 1, 300_000)).unwrap();
    engine.update_account_balance(1, 700_000, 0, 700_000).unwrap();
    process_entry(&mut engine, withdrawal(1, 2, 500_000)).unwrap();
    assert_eq!(engine.get_account(1).unwrap().available, 500_000);

    process_entry(&mut engine, workflow(TransactionEntryType::Dispute, 1, 1)).unwrap();
    let account = engine.get_account(1).unwrap();
    assert_eq!(account.available, 200_000);
    assert_eq!(account.held, 300_000);
    assert_eq!(account.total, 500_000);

    process_entry(&mut engine, workflow(TransactionEntryType::Resolve, 1, 1)).unwrap();
    let account = engine.get_account(1).unwrap();
    assert_eq!(account.available, 500_000);
    assert_eq!(account.held, 0);
    assert_eq!(account.total, 500_000);
    assert_eq!(
        engine.get_transaction(1, 1).unwrap().status,
        TransactionStatus::Resolved
    );
}

#[test]
fn test_error_kinds_of_dispute_workflow() {
    let mut engine = PaymentEngine::new();
    process_entry(&mut engine, deposit(1, 1, 1_000_000)).unwrap();
    process_entry(&mut engine, withdrawal(1, 2, 100_000)).unwrap();

    // A withdrawal cannot be disputed.
    assert_eq!(
        process_entry(&mut engine, workflow(TransactionEntryType::Dispute, 1, 2)),
        Err(PaymentError::InvalidTransactionType)
    );
    // Resolving or charging back a transaction never disputed.
    assert_eq!(
        process_entry(&mut engine, workflow(TransactionEntryType::Resolve, 1, 1)),
        Err(PaymentError::TransactionIsNotDisputed)
    );
    assert_eq!(
        process_entry(&mut engine, workflow(TransactionEntryType::Chargeback, 1, 1)),
        Err(PaymentError::TransactionIsNotDisputed)
    );
    // An unknown (account, tx id) pair.
    assert_eq!(
        process_entry(&mut engine, workflow(TransactionEntryType::Dispute, 1, 42)),
        Err(PaymentError::TransactionNotFound)
    );
    // A duplicate monetary event.
    assert_eq!(
        process_entry(&mut engine, deposit(1, 1, 1_000_000)),
        Err(PaymentError::TransactionAlreadyExists)
    );

    // A disputed deposit refuses a second dispute; once resolved, further
    // resolves and chargebacks report the terminal state.
    process_entry(&mut engine, deposit(1, 3, 50_000)).unwrap();
    process_entry(&mut engine, workflow(TransactionEntryType::Dispute, 1, 3)).unwrap();
    assert_eq!(
        process_entry(&mut engine, workflow(TransactionEntryType::Dispute, 1, 3)),
        Err(PaymentError::TransactionAlreadyDisputed)
    );
    process_entry(&mut engine, workflow(TransactionEntryType::Resolve, 1, 3)).unwrap();
    assert_eq!(
        process_entry(&mut engine, workflow(TransactionEntryType::Resolve, 1, 3)),
        Err(PaymentError::TransactionAlreadyDisputed)
    );
    assert_eq!(
        process_entry(&mut engine, workflow(TransactionEntryType::Chargeback, 1, 3)),
        Err(PaymentError::TransactionAlreadyDisputed)
    );
}

#[test]
fn test_entry_conversion_errors() {
    // A monetary entry without an amount is rejected before it reaches the
    // ledger.
    let mut engine = PaymentEngine::new();
    let no_amount = TransactionEntry {
        entry_type: TransactionEntryType::Deposit,
        account_id: 1,
        tx_id: 1,
        amount: None,
    };
    assert_eq!(
        process_entry(&mut engine, no_amount),
        Err(PaymentError::InvalidEntryForConversion(
            ConvertionError::MissingAmount
        ))
    );
    assert!(engine.get_account(1).is_none());

    assert_eq!(
        Transaction::try_from(no_amount),
        Err(ConvertionError::MissingAmount)
    );
    assert_eq!(
        TransactionType::try_from(TransactionEntryType::Dispute),
        Err(ConvertionError::InvalidTransactionType)
    );
    assert_eq!(
        TransactionType::try_from(TransactionEntryType::Deposit),
        Ok(TransactionType::Deposit)
    );

    let converted = Transaction::try_from(deposit(3, 9, 42)).unwrap();
    assert_eq!(converted.account_id, 3);
    assert_eq!(converted.tx_id, 9);
    assert_eq!(converted.amount, 42);
    assert_eq!(converted.tx_type, TransactionType::Deposit);
    assert_eq!(converted.status, TransactionStatus::Completed);
}

#[test]
fn test_replay_identical_to_single_application() {
    // Replaying the identical deposit twice: one success, one rejection,
    // and the state equals the single-application state.
    let mut once = PaymentEngine::new();
    process_entry(&mut once, deposit(1, 1, 250_000)).unwrap();

    let mut twice = PaymentEngine::new();
    let results = process_stream(
        &mut twice,
        &vec![deposit(1, 1, 250_000), deposit(1, 1, 250_000)],
    );
    assert_eq!(results.len(), 2);
    assert_eq!(results[0], Ok(()));
    assert_eq!(results[1], Err(PaymentError::TransactionAlreadyExists));

    assert_eq!(once.get_account(1), twice.get_account(1));
    assert_eq!(once.get_transaction(1, 1), twice.get_transaction(1, 1));
}

#[test]
fn test_report_renders_exact_fixed_point_values() {
    let mut engine = PaymentEngine::new();
    engine.get_or_create_account(65535);
    engine
        .update_account_balance(65535, 1, 10_000, 10_001)
        .unwrap();
    let output = engine.report();
    assert_eq!(
        output,
        "client, available, held, total, locked\n65535, 0.0001, 1.0000, 1.0001, false\n"
    );

    let mut big = PaymentEngine::new();
    let huge = Transaction {
        tx_type: TransactionType::Deposit,
        account_id: 1,
        tx_id: 1,
        amount: u64::MAX,
        status: TransactionStatus::Completed,
    };
    big.process_transaction(huge).unwrap();
    assert_eq!(
        big.report(),
        "client, available, held, total, locked\n1, 1844674407370955.1615, 0.0000, 1844674407370955.1615, false\n"
    );
}
