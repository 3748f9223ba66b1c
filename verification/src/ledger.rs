use vstd::prelude::*;

use crate::account::{account_wf, Account};
use crate::entry::{TransactionEntry, TransactionEntryType};
use crate::error::PaymentError;
use crate::transaction::{
    spec_transaction_of_entry, Transaction, TransactionStatus, TransactionType,
};

verus! {

/// The mathematical state of the engine: accounts keyed by client id,
/// transactions keyed by the (client id, transaction id) pair. This is the
/// model every contract of the executable engine speaks about.
#[verifier::ext_equal]
pub struct Ledger {
    pub accounts: Map<u16, Account>,
    pub txs: Map<(u16, u32), Transaction>,
}

/// Every account of the ledger is balance-consistent, and both collections
/// store every value under its own key.
pub open spec fn ledger_wf(l: Ledger) -> bool {
    &&& forall|id: u16| #[trigger] l.accounts.contains_key(id) ==> account_wf(l.accounts[id])
    &&& forall|id: u16| #[trigger] l.accounts.contains_key(id) ==> l.accounts[id].client == id
    &&& forall|k: (u16, u32)| #[trigger] l.txs.contains_key(k) ==> (l.txs[k].account_id,
    l.txs[k].tx_id) == k
}

impl Ledger {
    /// The state before any event: no accounts, no transactions.
    pub open spec fn empty() -> Ledger {
        Ledger { accounts: Map::empty(), txs: Map::empty() }
    }

    /// A locked account refuses every operation; an absent account is not
    /// locked.
    pub open spec fn is_locked(self, account_id: u16) -> bool {
        self.accounts.contains_key(account_id) && self.accounts[account_id].locked
    }

    /// Whether a transaction is recorded under this (account, tx id) pair.
    pub open spec fn has_tx(self, account_id: u16, tx_id: u32) -> bool {
        self.txs.contains_key((account_id, tx_id))
    }

    /// The ledger with `a` stored under its client id.
    pub open spec fn with_account(self, a: Account) -> Ledger {
        Ledger { accounts: self.accounts.insert(a.client, a), txs: self.txs }
    }

    /// The ledger with `t` recorded under its (account, tx id) pair.
    pub open spec fn with_tx(self, t: Transaction) -> Ledger {
        Ledger { accounts: self.accounts, txs: self.txs.insert((t.account_id, t.tx_id), t) }
    }

    /// Lazy account creation: a first reference brings a fresh account into
    /// being; an existing account is left as it is.
    pub open spec fn get_or_create(self, account_id: u16) -> Ledger {
        if self.accounts.contains_key(account_id) {
            self
        } else {
            self.with_account(Account::spec_new(account_id))
        }
    }

    /// Applies the three balance deltas as one atomic unit. The update
    /// fails, and nothing is applied, if the account is absent or if any of
    /// the three resulting balances would leave the representable range
    /// `0 ..= u64::MAX` of fixed-point units.
    pub open spec fn update_balance(
        self,
        account_id: u16,
        available_delta: int,
        held_delta: int,
        total_delta: int,
    ) -> (Ledger, Result<(), PaymentError>) {
        if !self.accounts.contains_key(account_id) {
            (self, Err(PaymentError::AccountNotFound(account_id)))
        } else {
            let a = self.accounts[account_id];
            let new_available = a.available + available_delta;
            let new_held = a.held + held_delta;
            let new_total = a.total + total_delta;
            if new_available < 0 || new_held < 0 || new_total < 0 || new_available > u64::MAX
                || new_held > u64::MAX || new_total > u64::MAX {
                (self, Err(PaymentError::InsufficientFunds))
            } else {
                (
                    self.with_account(
                        Account {
                            client: a.client,
                            available: new_available as u64,
                            held: new_held as u64,
                            total: new_total as u64,
                            locked: a.locked,
                        },
                    ),
                    Ok(()),
                )
            }
        }
    }

    /// Overwrites the status of a recorded transaction; fails if the
    /// (account, tx id) pair is absent.
    pub open spec fn set_tx_status(
        self,
        account_id: u16,
        tx_id: u32,
        new_status: TransactionStatus,
    ) -> (Ledger, Result<(), PaymentError>) {
        if !self.txs.contains_key((account_id, tx_id)) {
            (self, Err(PaymentError::TransactionNotFound))
        } else {
            let t = self.txs[(account_id, tx_id)];
            (
                self.with_tx(
                    Transaction {
                        tx_type: t.tx_type,
                        account_id: t.account_id,
                        tx_id: t.tx_id,
                        amount: t.amount,
                        status: new_status,
                    },
                ),
                Ok(()),
            )
        }
    }

    /// Sets the locked flag; leaves an absent account absent.
    pub open spec fn lock(self, account_id: u16) -> Ledger {
        if self.accounts.contains_key(account_id) {
            let a = self.accounts[account_id];
            self.with_account(
                Account {
                    client: a.client,
                    available: a.available,
                    held: a.held,
                    total: a.total,
                    locked: true,
                },
            )
        } else {
            self
        }
    }

    /// Looks a transaction up for the dispute workflow: it must exist and
    /// be a deposit, since only deposits can be disputed.
    pub open spec fn get_deposit(self, account_id: u16, tx_id: u32) -> Result<
        Transaction,
        PaymentError,
    > {
        if !self.txs.contains_key((account_id, tx_id)) {
            Err(PaymentError::TransactionNotFound)
        } else {
            let t = self.txs[(account_id, tx_id)];
            if t.tx_type != TransactionType::Deposit {
                Err(PaymentError::InvalidTransactionType)
            } else {
                Ok(t)
            }
        }
    }
}

/// The transaction `tx` as it is recorded: a freshly created transaction
/// always starts out `Completed`.
pub open spec fn spec_completed(tx: Transaction) -> Transaction {
    Transaction {
        tx_type: tx.tx_type,
        account_id: tx.account_id,
        tx_id: tx.tx_id,
        amount: tx.amount,
        status: TransactionStatus::Completed,
    }
}

/// What processing a deposit or withdrawal does. The target account is
/// created first if absent (and stays created even when the event then
/// fails); a locked account, a reused (account, tx id) pair, and a
/// withdrawal beyond the available balance are rejected; otherwise the
/// balances move and the transaction is recorded as `Completed`.
pub open spec fn spec_process_transaction(l: Ledger, tx: Transaction) -> (
    Ledger,
    Result<(), PaymentError>,
) {
    let l1 = l.get_or_create(tx.account_id);
    if l1.is_locked(tx.account_id) {
        (l1, Err(PaymentError::AccountLocked(tx.account_id)))
    } else if l1.has_tx(tx.account_id, tx.tx_id) {
        (l1, Err(PaymentError::TransactionAlreadyExists))
    } else {
        let available = l1.accounts[tx.account_id].available;
        match tx.tx_type {
            TransactionType::Deposit => {
                let step = l1.update_balance(
                    tx.account_id,
                    tx.amount as int,
                    0,
                    tx.amount as int,
                );
                match step.1 {
                    Ok(u) => (step.0.with_tx(spec_completed(tx)), Ok(())),
                    Err(e) => (step.0, Err(e)),
                }
            },
            TransactionType::Withdrawal => {
                if available >= tx.amount {
                    let step = l1.update_balance(
                        tx.account_id,
                        -(tx.amount as int),
                        0,
                        -(tx.amount as int),
                    );
                    match step.1 {
                        Ok(u) => (step.0.with_tx(spec_completed(tx)), Ok(())),
                        Err(e) => (step.0, Err(e)),
                    }
                } else {
                    (l1, Err(PaymentError::InsufficientFunds))
                }
            },
        }
    }
}

/// What disputing a deposit does: the account must not be locked, the
/// transaction must be a recorded deposit still `Completed`, and the
/// amount must still be available; then the amount moves from available to
/// held (total unchanged) and the status becomes `Disputed`.
pub open spec fn spec_process_dispute(l: Ledger, account_id: u16, tx_id: u32) -> (
    Ledger,
    Result<(), PaymentError>,
) {
    if l.is_locked(account_id) {
        (l, Err(PaymentError::AccountLocked(account_id)))
    } else {
        match l.get_deposit(account_id, tx_id) {
            Err(e) => (l, Err(e)),
            Ok(t) => {
                if t.status != TransactionStatus::Completed {
                    (l, Err(PaymentError::TransactionAlreadyDisputed))
                } else if !l.accounts.contains_key(account_id) {
                    (l, Err(PaymentError::AccountNotFound(account_id)))
                } else if l.accounts[account_id].available < t.amount {
                    (l, Err(PaymentError::InsufficientHoldFunds))
                } else {
                    let step = l.update_balance(
                        account_id,
                        -(t.amount as int),
                        t.amount as int,
                        0,
                    );
                    match step.1 {
                        Err(e) => (step.0, Err(e)),
                        Ok(u) => {
                            let step2 = step.0.set_tx_status(
                                account_id,
                                tx_id,
                                TransactionStatus::Disputed,
                            );
                            (step2.0, step2.1)
                        },
                    }
                }
            },
        }
    }
}

/// What resolving a dispute does: the transaction must be a recorded
/// deposit currently `Disputed` (a terminal status is reported as already
/// disputed, `Completed` as not disputed), and the amount must still be
/// held; then the amount moves back from held to available (total
/// unchanged) and the status becomes `Resolved`.
pub open spec fn spec_process_resolve(l: Ledger, account_id: u16, tx_id: u32) -> (
    Ledger,
    Result<(), PaymentError>,
) {
    if l.is_locked(account_id) {
        (l, Err(PaymentError::AccountLocked(account_id)))
    } else {
        match l.get_deposit(account_id, tx_id) {
            Err(e) => (l, Err(e)),
            Ok(t) => {
                if t.status != TransactionStatus::Disputed {
                    if t.status == TransactionStatus::Resolved || t.status
                        == TransactionStatus::Chargebacked {
                        (l, Err(PaymentError::TransactionAlreadyDisputed))
                    } else {
                        (l, Err(PaymentError::TransactionIsNotDisputed))
                    }
                } else if !l.accounts.contains_key(account_id) {
                    (l, Err(PaymentError::AccountNotFound(account_id)))
                } else if l.accounts[account_id].held < t.amount {
                    (l, Err(PaymentError::InsufficientHoldFunds))
                } else {
                    let step = l.update_balance(
                        account_id,
                        t.amount as int,
                        -(t.amount as int),
                        0,
                    );
                    match step.1 {
                        Err(e) => (step.0, Err(e)),
                        Ok(u) => {
                            let step2 = step.0.set_tx_status(
                                account_id,
                                tx_id,
                                TransactionStatus::Resolved,
                            );
                            (step2.0, step2.1)
                        },
                    }
                }
            },
        }
    }
}

/// What charging a disputed deposit back does: the same guards as a
/// resolve, but the held amount leaves the account entirely (total drops
/// with it, available is unchanged), the status becomes `Chargebacked`,
/// and the account is locked for good.
pub open spec fn spec_process_chargeback(l: Ledger, account_id: u16, tx_id: u32) -> (
    Ledger,
    Result<(), PaymentError>,
) {
    if l.is_locked(account_id) {
        (l, Err(PaymentError::AccountLocked(account_id)))
    } else {
        match l.get_deposit(account_id, tx_id) {
            Err(e) => (l, Err(e)),
            Ok(t) => {
                if t.status != TransactionStatus::Disputed {
                    if t.status == TransactionStatus::Resolved || t.status
                        == TransactionStatus::Chargebacked {
                        (l, Err(PaymentError::TransactionAlreadyDisputed))
                    } else {
                        (l, Err(PaymentError::TransactionIsNotDisputed))
                    }
                } else if !l.accounts.contains_key(account_id) {
                    (l, Err(PaymentError::AccountNotFound(account_id)))
                } else if l.accounts[account_id].held < t.amount {
                    (l, Err(PaymentError::InsufficientHoldFunds))
                } else {
                    let step = l.update_balance(
                        account_id,
                        0,
                        -(t.amount as int),
                        -(t.amount as int),
                    );
                    match step.1 {
                        Err(e) => (step.0, Err(e)),
                        Ok(u) => {
                            let step2 = step.0.set_tx_status(
                                account_id,
                                tx_id,
                                TransactionStatus::Chargebacked,
                            );
                            match step2.1 {
                                Err(e) => (step2.0, Err(e)),
                                Ok(u2) => (step2.0.lock(account_id), Ok(())),
                            }
                        },
                    }
                }
            },
        }
    }
}

/// What one input entry does to the ledger: deposits and withdrawals are
/// converted and processed as transactions (a failed conversion leaves the
/// ledger untouched), the other three kinds drive the dispute workflow.
pub open spec fn spec_process_entry(l: Ledger, e: TransactionEntry) -> (
    Ledger,
    Result<(), PaymentError>,
) {
    match e.entry_type {
        TransactionEntryType::Deposit | TransactionEntryType::Withdrawal => {
            match spec_transaction_of_entry(e) {
                Ok(tx) => spec_process_transaction(l, tx),
                Err(ce) => (l, Err(PaymentError::InvalidEntryForConversion(ce))),
            }
        },
        TransactionEntryType::Dispute => spec_process_dispute(l, e.account_id, e.tx_id),
        TransactionEntryType::Resolve => spec_process_resolve(l, e.account_id, e.tx_id),
        TransactionEntryType::Chargeback => spec_process_chargeback(l, e.account_id, e.tx_id),
    }
}

/// The ledger after a whole entry stream has been replayed in order. Every
/// entry is processed independently: a failure leaves the ledger as it was
/// and the replay goes on with the next entry.
pub open spec fn spec_replay(l: Ledger, entries: Seq<TransactionEntry>) -> Ledger
    decreases entries.len(),
{
    if entries.len() == 0 {
        l
    } else {
        spec_process_entry(spec_replay(l, entries.drop_last()), entries.last()).0
    }
}

} // verus!
