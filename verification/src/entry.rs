use vstd::prelude::*;

verus! {

/// One event of the input stream, already parsed into plain values by the
/// stream adapter. The amount, when present, is a fixed-point value in
/// units of 1/10000.
#[derive(Clone, Copy, Debug, PartialEq, Eq, Structural)]
pub struct TransactionEntry {
    pub entry_type: TransactionEntryType,
    pub account_id: u16,
    pub tx_id: u32,
    pub amount: Option<u64>,
}

/// The five kinds of event the engine understands. Only deposits and
/// withdrawals carry an amount and create stored transactions; the other
/// three act on a transaction recorded earlier.
#[derive(Clone, Copy, Debug, PartialEq, Eq, Structural)]
pub enum TransactionEntryType {
    Deposit,
    Withdrawal,
    Dispute,
    Resolve,
    Chargeback,
}

} // verus!
