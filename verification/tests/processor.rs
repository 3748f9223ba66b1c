use transaction::entry::{TransactionEntry, TransactionEntryType};
use transaction::payments_engine::PaymentEngine;
use transaction::processor::{process_entry, process_stream};
use transaction::transaction::TransactionStatus;

// Amounts are fixed-point values in units of 1/10000: 1_000_000 units are
// the decimal amount 100.0000.

#[test]
fn test_process_stream() {
    let mut engine = PaymentEngine::new();
    let transactions = vec![
        TransactionEntry {
            entry_type: TransactionEntryType::Deposit,
            account_id: 1,
            tx_id: 1,
            amount: Some(1_000_000),
        },
        TransactionEntry {
            entry_type: TransactionEntryType::Withdrawal,
            account_id: 1,
            tx_id: 2,
            amount: Some(500_000),
        },
        TransactionEntry {
            entry_type: TransactionEntryType::Dispute,
            account_id: 1,
            tx_id: 1,
            amount: None,
        },
    ];

    process_stream(&mut engine, &transactions);

    assert_eq!(engine.accounts().len(), 1);
    assert_eq!(engine.get_account(1).unwrap().total, 500_000);
    assert!(engine.get_transaction(1, 1).is_some());
    assert!(engine.get_transaction(1, 2).is_some());
}

#[test]
fn test_process_entry_duplicate() {
    let mut engine = PaymentEngine::new();
    let entry = TransactionEntry {
        entry_type: TransactionEntryType::Deposit,
        account_id: 1,
        tx_id: 1,
        amount: Some(1_000_000),
    };

    let result = process_entry(&mut engine, entry.clone());
    assert!(result.is_ok());

    let result = process_entry(&mut engine, entry);
    assert!(result.is_err(), "Should not allow duplicate transactions");

    let entry = TransactionEntry {
        entry_type: TransactionEntryType::Withdrawal,
        account_id: 1,
        tx_id: 2,
        amount: Some(10_000),
    };

    let result = process_entry(&mut engine, entry.clone());
    assert!(result.is_ok());

    let result = process_entry(&mut engine, entry);
    assert!(result.is_err(), "Should not allow duplicate transactions");
    assert_eq!(engine.get_account(1).unwrap().available, 990_000);

    let entry = TransactionEntry {
        entry_type: TransactionEntryType::Deposit,
        account_id: 1,
        tx_id: 3,
        amount: Some(500_000),
    };
    process_entry(&mut engine, entry).unwrap();
    let entry = TransactionEntry {
        entry_type: TransactionEntryType::Dispute,
        account_id: 1,
        tx_id: 3,
        amount: None,
    };
    let result = process_entry(&mut engine, entry.clone());
    assert!(result.is_ok(), "Dispute should be processed successfully");
    assert_eq!(engine.get_account(1).unwrap().held, 500_000);
    assert_eq!(engine.get_account(1).unwrap().total, 1_490_000);
    assert_eq!(engine.get_account(1).unwrap().available, 990_000);
    assert_eq!(
        engine.get_transaction(1, 3).unwrap().status,
        TransactionStatus::Disputed
    );

    let result = process_entry(&mut engine, entry);
    assert!(result.is_err(), "Should not allow duplicate disputes");

    let entry = TransactionEntry {
        entry_type: TransactionEntryType::Resolve,
        account_id: 1,
        tx_id: 3,
        amount: None,
    };
    let result = process_entry(&mut engine, entry.clone());

    assert!(result.is_ok(), "Resolve should be processed successfully");
    assert_eq!(engine.get_account(1).unwrap().held, 0);
    assert_eq!(engine.get_account(1).unwrap().total, 1_490_000);
    assert_eq!(engine.get_account(1).unwrap().available, 1_490_000);
    assert_eq!(
        engine.get_transaction(1, 3).unwrap().status,
        TransactionStatus::Resolved
    );

    let result = process_entry(&mut engine, entry);
    assert!(result.is_err(), "Should not allow duplicate resolves");

    let entry = TransactionEntry {
        entry_type: TransactionEntryType::Chargeback,
        account_id: 1,
        tx_id: 3,
        amount: None,
    };
    let result = process_entry(&mut engine, entry.clone());

    assert!(
        result.is_err(),
        "Chargeback should not be allowed after resolve"
    );
    assert_eq!(engine.get_account(1).unwrap().held, 0);
    assert_eq!(engine.get_account(1).unwrap().total, 1_490_000);
    assert_eq!(engine.get_account(1).unwrap().available, 1_490_000);
    assert_eq!(
        engine.get_transaction(1, 3).unwrap().status,
        TransactionStatus::Resolved
    );
}

#[test]
fn test_process_entry_duplicate_cachback() {
    let mut engine = PaymentEngine::new();
    let entry = TransactionEntry {
        entry_type: TransactionEntryType::Deposit,
        account_id: 1,
        tx_id: 1,
        amount: Some(1_000_000),
    };

    let result = process_entry(&mut engine, entry);
    assert!(result.is_ok());

    let entry = TransactionEntry {
        entry_type: TransactionEntryType::Deposit,
        account_id: 1,
        tx_id: 2,
        amount: Some(10_000),
    };

    let result = process_entry(&mut engine, entry);
    assert!(result.is_ok());
    assert_eq!(engine.get_account(1).unwrap().available, 1_010_000);

    let entry = TransactionEntry {
        entry_type: TransactionEntryType::Dispute,
        account_id: 1,
        tx_id: 2,
        amount: None,
    };

    let result = process_entry(&mut engine, entry.clone());
    assert!(result.is_ok(), "Dispute should be processed successfully");
    assert_eq!(engine.get_account(1).unwrap().held, 10_000);
    assert_eq!(engine.get_account(1).unwrap().total, 1_010_000);
    assert_eq!(engine.get_account(1).unwrap().available, 1_000_000);
    assert_eq!(
        engine.get_transaction(1, 2).unwrap().status,
        TransactionStatus::Disputed
    );

    let entry = TransactionEntry {
        entry_type: TransactionEntryType::Chargeback,
        account_id: 1,
        tx_id: 2,
        amount: None,
    };
    let result = process_entry(&mut engine, entry.clone());
    assert!(result.is_ok(), "Chargeback should be processed successfully");
    assert_eq!(engine.get_account(1).unwrap().held, 0);
    assert_eq!(engine.get_account(1).unwrap().total, 1_000_000);
    assert_eq!(engine.get_account(1).unwrap().available, 1_000_000);
    assert!(engine.get_account(1).unwrap().locked);

    assert_eq!(
        engine.get_transaction(1, 2).unwrap().status,
        TransactionStatus::Chargebacked
    );

    let result = process_entry(&mut engine, entry);
    assert!(result.is_err(), "Should not allow duplicate resolves");
}

#[test]
fn process_dispute_for_absent_transactions() {
    let mut engine = PaymentEngine::new();

    let entry = TransactionEntry {
        entry_type: TransactionEntryType::Deposit,
        account_id: 1,
        tx_id: 1,
        amount: Some(1_000_000),
    };

    process_entry(&mut engine, entry.clone()).unwrap();

    let entry = TransactionEntry {
        entry_type: TransactionEntryType::Dispute,
        account_id: 1,
        tx_id: 999,
        amount: None,
    };

    assert!(engine.get_transaction(1, 999).is_none());

    let result = process_entry(&mut engine, entry);
    assert!(result.is_err(), "Should return error for absent transactions");
    assert!(engine.get_transaction(1, 999).is_none());

    let entry = TransactionEntry {
        entry_type: TransactionEntryType::Resolve,
        account_id: 1,
        tx_id: 999,
        amount: None,
    };

    let result = process_entry(&mut engine, entry);
    assert!(result.is_err(), "Should return error for absent transactions");
    assert!(engine.get_transaction(1, 999).is_none());

    let entry = TransactionEntry {
        entry_type: TransactionEntryType::Chargeback,
        account_id: 1,
        tx_id: 999,
        amount: None,
    };

    let result = process_entry(&mut engine, entry);
    assert!(result.is_err(), "Should return error for absent transactions");
    assert!(engine.get_transaction(1, 999).is_none());
}

#[test]
fn test_dispute_with_incorrect_account_id() {
    let mut engine = PaymentEngine::new();

    let correct_account_id = 1;
    let incorrect_account_id = 2;
    let tx_id = 1;

    let entry = TransactionEntry {
        entry_type: TransactionEntryType::Deposit,
        account_id: correct_account_id,
        tx_id,
        amount: Some(1_000_000),
    };

    let result = process_entry(&mut engine, entry);
    assert!(result.is_ok(), "Deposit should be processed successfully");
    assert_eq!(
        engine.get_account(correct_account_id).unwrap().available,
        1_000_000
    );
    assert_eq!(engine.get_account(correct_account_id).unwrap().total, 1_000_000);

    let incorrect_disput = TransactionEntry {
        entry_type: TransactionEntryType::Dispute,
        account_id: incorrect_account_id,
        tx_id,
        amount: None,
    };

    let result = process_entry(&mut engine, incorrect_disput);
    assert!(
        result.is_err(),
        "Dispute should fail when account_id doesn't match transaction's account"
    );

    assert_eq!(
        engine.get_account(correct_account_id).unwrap().available,
        1_000_000
    );
    assert_eq!(engine.get_account(correct_account_id).unwrap().total, 1_000_000);
    assert_eq!(engine.get_account(correct_account_id).unwrap().held, 0);
    assert!(!engine.get_account(correct_account_id).unwrap().locked);

    assert_eq!(
        engine.get_transaction(1, 1).unwrap().status,
        TransactionStatus::Completed
    );

    assert!(engine.get_account(incorrect_account_id).is_none());

    let correct_disput = TransactionEntry {
        entry_type: TransactionEntryType::Dispute,
        account_id: correct_account_id,
        tx_id,
        amount: None,
    };

    let result = process_entry(&mut engine, correct_disput);
    assert!(result.is_ok(), "Dispute should succeed with correct account_id");
    assert_eq!(engine.get_account(correct_account_id).unwrap().available, 0);
    assert_eq!(
        engine.get_account(correct_account_id).unwrap().held,
        1_000_000
    );
    assert_eq!(engine.get_account(correct_account_id).unwrap().total, 1_000_000);
}
