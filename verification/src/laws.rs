use vstd::prelude::*;

use crate::entry::{TransactionEntry, TransactionEntryType};
use crate::error::PaymentError;
use crate::ledger::{
    ledger_wf, spec_process_chargeback, spec_process_dispute, spec_process_entry,
    spec_process_resolve, spec_process_transaction, spec_replay, Ledger,
};
use crate::transaction::{spec_transaction_of_entry, Transaction, TransactionStatus};

verus! {

proof fn lemma_update_balance_wf(
    l: Ledger,
    account_id: u16,
    available_delta: int,
    held_delta: int,
    total_delta: int,
)
    requires
        ledger_wf(l),
        available_delta + held_delta == total_delta,
    ensures
        ledger_wf(l.update_balance(account_id, available_delta, held_delta, total_delta).0),
{
}

proof fn lemma_set_tx_status_wf(l: Ledger, account_id: u16, tx_id: u32, st: TransactionStatus)
    requires
        ledger_wf(l),
    ensures
        ledger_wf(l.set_tx_status(account_id, tx_id, st).0),
{
}

proof fn lemma_lock_wf(l: Ledger, account_id: u16)
    requires
        ledger_wf(l),
    ensures
        ledger_wf(l.lock(account_id)),
{
}

proof fn lemma_get_or_create_wf(l: Ledger, account_id: u16)
    requires
        ledger_wf(l),
    ensures
        ledger_wf(l.get_or_create(account_id)),
{
}

proof fn lemma_process_transaction_preserves_wf(l: Ledger, tx: Transaction)
    requires
        ledger_wf(l),
    ensures
        ledger_wf(spec_process_transaction(l, tx).0),
{
    lemma_get_or_create_wf(l, tx.account_id);
    let l1 = l.get_or_create(tx.account_id);
    if !l1.is_locked(tx.account_id) && !l1.has_tx(tx.account_id, tx.tx_id) {
        lemma_update_balance_wf(l1, tx.account_id, tx.amount as int, 0, tx.amount as int);
        lemma_update_balance_wf(l1, tx.account_id, -(tx.amount as int), 0, -(tx.amount as int));
    }
}

proof fn lemma_process_dispute_preserves_wf(l: Ledger, account_id: u16, tx_id: u32)
    requires
        ledger_wf(l),
    ensures
        ledger_wf(spec_process_dispute(l, account_id, tx_id).0),
{
    if !l.is_locked(account_id) {
        match l.get_deposit(account_id, tx_id) {
            Ok(t) => {
                lemma_update_balance_wf(l, account_id, -(t.amount as int), t.amount as int, 0);
                lemma_set_tx_status_wf(
                    l.update_balance(account_id, -(t.amount as int), t.amount as int, 0).0,
                    account_id,
                    tx_id,
                    TransactionStatus::Disputed,
                );
            },
            Err(e) => {
            },
        }
    }
}

proof fn lemma_process_resolve_preserves_wf(l: Ledger, account_id: u16, tx_id: u32)
    requires
        ledger_wf(l),
    ensures
        ledger_wf(spec_process_resolve(l, account_id, tx_id).0),
{
    if !l.is_locked(account_id) {
        match l.get_deposit(account_id, tx_id) {
            Ok(t) => {
                lemma_update_balance_wf(l, account_id, t.amount as int, -(t.amount as int), 0);
                lemma_set_tx_status_wf(
                    l.update_balance(account_id, t.amount as int, -(t.amount as int), 0).0,
                    account_id,
                    tx_id,
                    TransactionStatus::Resolved,
                );
            },
            Err(e) => {
            },
        }
    }
}

proof fn lemma_process_chargeback_preserves_wf(l: Ledger, account_id: u16, tx_id: u32)
    requires
        ledger_wf(l),
    ensures
        ledger_wf(spec_process_chargeback(l, account_id, tx_id).0),
{
    if !l.is_locked(account_id) {
        match l.get_deposit(account_id, tx_id) {
            Ok(t) => {
                lemma_update_balance_wf(l, account_id, 0, -(t.amount as int), -(t.amount as int));
                let l2 = l.update_balance(
                    account_id,
                    0,
                    -(t.amount as int),
                    -(t.amount as int),
                ).0;
                lemma_set_tx_status_wf(l2, account_id, tx_id, TransactionStatus::Chargebacked);
                lemma_lock_wf(
                    l2.set_tx_status(account_id, tx_id, TransactionStatus::Chargebacked).0,
                    account_id,
                );
            },
            Err(e) => {
            },
        }
    }
}

/// Balances stay consistent: every account of a well-formed ledger still
/// has `total == available + held` after any single event, whatever that
/// event is and whether it succeeds or fails. Balances are unsigned, so
/// `available >= 0` and `held >= 0` hold throughout as well.
pub proof fn lemma_process_entry_preserves_wf(l: Ledger, e: TransactionEntry)
    requires
        ledger_wf(l),
    ensures
        ledger_wf(spec_process_entry(l, e).0),
{
    match e.entry_type {
        TransactionEntryType::Deposit | TransactionEntryType::Withdrawal => {
            match spec_transaction_of_entry(e) {
                Ok(tx) => lemma_process_transaction_preserves_wf(l, tx),
                Err(ce) => {
                },
            }
        },
        TransactionEntryType::Dispute => lemma_process_dispute_preserves_wf(
            l,
            e.account_id,
            e.tx_id,
        ),
        TransactionEntryType::Resolve => lemma_process_resolve_preserves_wf(
            l,
            e.account_id,
            e.tx_id,
        ),
        TransactionEntryType::Chargeback => lemma_process_chargeback_preserves_wf(
            l,
            e.account_id,
            e.tx_id,
        ),
    }
}

/// Balances stay consistent over a whole replayed stream: after any prefix
/// of the input — that is, at every observable point — every account of the
/// ledger satisfies `total == available + held`.
pub proof fn lemma_replay_preserves_wf(l: Ledger, entries: Seq<TransactionEntry>)
    requires
        ledger_wf(l),
    ensures
        ledger_wf(spec_replay(l, entries)),
    decreases entries.len(),
{
    if entries.len() > 0 {
        lemma_replay_preserves_wf(l, entries.drop_last());
        lemma_process_entry_preserves_wf(spec_replay(l, entries.drop_last()), entries.last());
    }
}

/// An event addressed to a locked account changes nothing and is rejected.
/// When the event even names an account the engine can act on — any
/// dispute-workflow event, or a monetary event that converts — the
/// rejection is `AccountLocked`; a malformed monetary event is rejected as
/// unconvertible before the account is consulted.
pub proof fn lemma_locked_account_rejects(l: Ledger, e: TransactionEntry)
    requires
        l.is_locked(e.account_id),
    ensures
        spec_process_entry(l, e).0 == l,
        spec_process_entry(l, e).1 is Err,
        (match e.entry_type {
            TransactionEntryType::Deposit | TransactionEntryType::Withdrawal
                => spec_transaction_of_entry(e) is Ok,
            _ => true,
        }) ==> spec_process_entry(l, e).1 == Err::<(), PaymentError>(
            PaymentError::AccountLocked(e.account_id),
        ),
{
}

proof fn lemma_process_entry_frame(l: Ledger, e: TransactionEntry, id: u16)
    requires
        ledger_wf(l),
        id != e.account_id,
    ensures
        spec_process_entry(l, e).0.accounts.contains_key(id) == l.accounts.contains_key(id),
        l.accounts.contains_key(id) ==> spec_process_entry(l, e).0.accounts[id] == l.accounts[id],
        forall|k: (u16, u32)|
            k.0 != e.account_id ==> #[trigger] spec_process_entry(l, e).0.txs.contains_key(k)
                == l.txs.contains_key(k),
        forall|k: (u16, u32)|
            k.0 != e.account_id && l.txs.contains_key(k) ==> #[trigger] spec_process_entry(
                l,
                e,
            ).0.txs[k] == l.txs[k],
{
}

/// Once an account is locked, no subsequent event — whatever account or
/// transaction it names — changes that account's balances, its locked flag,
/// or the set and statuses of its recorded transactions.
pub proof fn lemma_locked_account_frozen(l: Ledger, e: TransactionEntry, id: u16)
    requires
        ledger_wf(l),
        l.is_locked(id),
    ensures
        spec_process_entry(l, e).0.accounts.contains_key(id),
        spec_process_entry(l, e).0.accounts[id] == l.accounts[id],
        forall|k: (u16, u32)|
            k.0 == id ==> #[trigger] spec_process_entry(l, e).0.txs.contains_key(k)
                == l.txs.contains_key(k),
        forall|k: (u16, u32)|
            k.0 == id && l.txs.contains_key(k) ==> #[trigger] spec_process_entry(l, e).0.txs[k]
                == l.txs[k],
{
    if e.account_id == id {
        lemma_locked_account_rejects(l, e);
    } else {
        lemma_process_entry_frame(l, e, id);
    }
}

/// Once an account is locked, it stays exactly as it is over any whole
/// stream of further events: the lock is never cleared and no balance or
/// transaction status of that account ever changes again.
pub proof fn lemma_locked_account_frozen_replay(
    l: Ledger,
    entries: Seq<TransactionEntry>,
    id: u16,
)
    requires
        ledger_wf(l),
        l.is_locked(id),
    ensures
        spec_replay(l, entries).accounts.contains_key(id),
        spec_replay(l, entries).accounts[id] == l.accounts[id],
        forall|k: (u16, u32)|
            k.0 == id ==> #[trigger] spec_replay(l, entries).txs.contains_key(k)
                == l.txs.contains_key(k),
        forall|k: (u16, u32)|
            k.0 == id && l.txs.contains_key(k) ==> #[trigger] spec_replay(l, entries).txs[k]
                == l.txs[k],
    decreases entries.len(),
{
    if entries.len() > 0 {
        lemma_locked_account_frozen_replay(l, entries.drop_last(), id);
        lemma_replay_preserves_wf(l, entries.drop_last());
        lemma_locked_account_frozen(spec_replay(l, entries.drop_last()), entries.last(), id);
    }
}

/// Replaying an identical deposit or withdrawal right after it succeeded
/// yields exactly one `TransactionAlreadyExists` rejection, and the state
/// is identical to the single-application case.
pub proof fn lemma_duplicate_transaction_rejected(l: Ledger, tx: Transaction)
    requires
        spec_process_transaction(l, tx).1 is Ok,
    ensures
        spec_process_transaction(spec_process_transaction(l, tx).0, tx).0
            == spec_process_transaction(l, tx).0,
        spec_process_transaction(spec_process_transaction(l, tx).0, tx).1 == Err::<
            (),
            PaymentError,
        >(PaymentError::TransactionAlreadyExists),
{
}

/// Re-submitting a dispute right after it succeeded re-fails
/// deterministically — the transaction is `Disputed` now — and the state is
/// identical to the single-application case.
pub proof fn lemma_duplicate_dispute_rejected(l: Ledger, account_id: u16, tx_id: u32)
    requires
        ledger_wf(l),
        spec_process_dispute(l, account_id, tx_id).1 is Ok,
    ensures
        spec_process_dispute(spec_process_dispute(l, account_id, tx_id).0, account_id, tx_id).0
            == spec_process_dispute(l, account_id, tx_id).0,
        spec_process_dispute(spec_process_dispute(l, account_id, tx_id).0, account_id, tx_id).1
            == Err::<(), PaymentError>(PaymentError::TransactionAlreadyDisputed),
{
}

/// Re-submitting a resolve right after it succeeded re-fails
/// deterministically — the transaction is terminal now — and the state is
/// identical to the single-application case.
pub proof fn lemma_duplicate_resolve_rejected(l: Ledger, account_id: u16, tx_id: u32)
    requires
        ledger_wf(l),
        spec_process_resolve(l, account_id, tx_id).1 is Ok,
    ensures
        spec_process_resolve(spec_process_resolve(l, account_id, tx_id).0, account_id, tx_id).0
            == spec_process_resolve(l, account_id, tx_id).0,
        spec_process_resolve(spec_process_resolve(l, account_id, tx_id).0, account_id, tx_id).1
            == Err::<(), PaymentError>(PaymentError::TransactionAlreadyDisputed),
{
}

/// Re-submitting a chargeback right after it succeeded re-fails
/// deterministically — the account is locked now — and the state is
/// identical to the single-application case.
pub proof fn lemma_duplicate_chargeback_rejected(l: Ledger, account_id: u16, tx_id: u32)
    requires
        ledger_wf(l),
        spec_process_chargeback(l, account_id, tx_id).1 is Ok,
    ensures
        spec_process_chargeback(
            spec_process_chargeback(l, account_id, tx_id).0,
            account_id,
            tx_id,
        ).0 == spec_process_chargeback(l, account_id, tx_id).0,
        spec_process_chargeback(
            spec_process_chargeback(l, account_id, tx_id).0,
            account_id,
            tx_id,
        ).1 == Err::<(), PaymentError>(PaymentError::AccountLocked(account_id)),
{
}

/// Disputing a transaction id under an account that did not create it — so
/// the (account, tx id) pair is unknown — fails with `TransactionNotFound`
/// and leaves the whole ledger, the true owning account included,
/// untouched.
pub proof fn lemma_dispute_wrong_account(l: Ledger, account_id: u16, tx_id: u32)
    requires
        !l.has_tx(account_id, tx_id),
        !l.is_locked(account_id),
    ensures
        spec_process_dispute(l, account_id, tx_id).0 == l,
        spec_process_dispute(l, account_id, tx_id).1 == Err::<(), PaymentError>(
            PaymentError::TransactionNotFound,
        ),
{
}

} // verus!
