use vstd::prelude::*;

use crate::transaction::ConvertionError;

verus! {

/// Everything that can go wrong while processing one event. A failure
/// never mutates state beyond what succeeded before the failing check, and
/// never aborts the run as a whole.
#[derive(Clone, Copy, Debug, PartialEq, Eq, Structural)]
pub enum PaymentError {
    /// A balance update would take a balance out of its representable
    /// range: below zero, or above what the fixed-point type can hold.
    InsufficientFunds,
    /// A dispute, resolve or chargeback asks for more available or held
    /// funds than the account currently has.
    InsufficientHoldFunds,
    /// Any operation attempted on a locked account.
    AccountLocked(u16),
    /// A balance mutation referenced an account that does not exist.
    AccountNotFound(u16),
    /// A dispute, resolve or chargeback referenced an unknown
    /// (account, tx id) pair.
    TransactionNotFound,
    /// A dispute, resolve or chargeback targeted a non-deposit transaction.
    InvalidTransactionType,
    /// A deposit or withdrawal reused an (account, tx id) pair.
    TransactionAlreadyExists,
    /// A dispute hit a transaction that is already disputed or terminal, or
    /// a resolve or chargeback hit a transaction already terminal.
    TransactionAlreadyDisputed,
    /// A resolve or chargeback hit a transaction that is not disputed.
    TransactionIsNotDisputed,
    /// The entry could not be converted into a transaction at all.
    InvalidEntryForConversion(ConvertionError),
}

impl From<ConvertionError> for PaymentError {
    fn from(error: ConvertionError) -> (r: Self) {
        PaymentError::InvalidEntryForConversion(error)
    }
}

impl vstd::std_specs::convert::FromSpecImpl<ConvertionError> for PaymentError {
    open spec fn obeys_from_spec() -> bool {
        true
    }

    open spec fn from_spec(error: ConvertionError) -> Self {
        PaymentError::InvalidEntryForConversion(error)
    }
}

} // verus!
