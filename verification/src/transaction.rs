use vstd::prelude::*;

use crate::entry::{TransactionEntry, TransactionEntryType};

verus! {

/// A monetary transaction recorded by the ledger: one per (account, tx id)
/// pair, created by a successful deposit or withdrawal. The amount is a
/// fixed-point value in units of 1/10000 and never changes after creation.
#[derive(Clone, Copy, Debug, PartialEq, Eq, Structural)]
pub struct Transaction {
    pub tx_type: TransactionType,
    pub account_id: u16,
    pub tx_id: u32,
    pub amount: u64,
    pub status: TransactionStatus,
}

/// Only these two event kinds move money and are stored as transactions.
#[derive(Clone, Copy, Debug, PartialEq, Eq, Structural)]
pub enum TransactionType {
    Deposit,
    Withdrawal,
}

/// Where a transaction stands in the dispute lifecycle:
/// `Completed -> Disputed -> {Resolved, Chargebacked}`, where `Resolved`
/// and `Chargebacked` are terminal.
#[derive(Clone, Copy, Debug, PartialEq, Eq, Structural, Default)]
pub enum TransactionStatus {
    #[default]
    Completed,
    Disputed,
    Resolved,
    Chargebacked,
}

/// Why an input entry could not be turned into a stored transaction.
#[derive(Clone, Copy, Debug, PartialEq, Eq, Structural)]
pub enum ConvertionError {
    InvalidTransactionType,
    MissingAmount,
}

/// What converting an entry kind to a transaction type returns: only
/// deposits and withdrawals convert.
pub open spec fn spec_transaction_type_of(value: TransactionEntryType) -> Result<
    TransactionType,
    ConvertionError,
> {
    match value {
        TransactionEntryType::Deposit => Ok(TransactionType::Deposit),
        TransactionEntryType::Withdrawal => Ok(TransactionType::Withdrawal),
        _ => Err(ConvertionError::InvalidTransactionType),
    }
}

/// What converting a full entry to a transaction returns: the entry kind
/// must be monetary and the amount must be present; the transaction starts
/// out `Completed`. A bad kind is reported before a missing amount.
pub open spec fn spec_transaction_of_entry(e: TransactionEntry) -> Result<
    Transaction,
    ConvertionError,
> {
    match spec_transaction_type_of(e.entry_type) {
        Ok(tx_type) => match e.amount {
            Some(amount) => Ok(
                Transaction {
                    tx_type,
                    account_id: e.account_id,
                    tx_id: e.tx_id,
                    amount,
                    status: TransactionStatus::Completed,
                },
            ),
            None => Err(ConvertionError::MissingAmount),
        },
        Err(err) => Err(err),
    }
}

impl TransactionType {
    /// Converts an entry kind, rejecting the three dispute-workflow kinds.
    pub fn try_from(value: TransactionEntryType) -> (r: Result<TransactionType, ConvertionError>)
        ensures
            r == spec_transaction_type_of(value),
    {
        match value {
            TransactionEntryType::Deposit => Ok(TransactionType::Deposit),
            TransactionEntryType::Withdrawal => Ok(TransactionType::Withdrawal),
            _ => Err(ConvertionError::InvalidTransactionType),
        }
    }
}

impl Transaction {
    /// Converts an input entry into a transaction to be recorded.
    pub fn try_from(value: TransactionEntry) -> (r: Result<Transaction, ConvertionError>)
        ensures
            r == spec_transaction_of_entry(value),
    {
        match TransactionType::try_from(value.entry_type) {
            Ok(tx_type) => match value.amount {
                Some(amount) => Ok(
                    Transaction {
                        tx_type,
                        account_id: value.account_id,
                        tx_id: value.tx_id,
                        amount,
                        status: TransactionStatus::Completed,
                    },
                ),
                None => Err(ConvertionError::MissingAmount),
            },
            Err(err) => Err(err),
        }
    }
}

} // verus!
