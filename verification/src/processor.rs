use vstd::prelude::*;

use crate::entry::{TransactionEntry, TransactionEntryType};
use crate::error::PaymentError;
use crate::ledger::{spec_process_entry, spec_replay};
use crate::payments_engine::PaymentEngine;
use crate::transaction::Transaction;

verus! {

/// Feeds one input entry to the engine, exactly as `spec_process_entry`
/// says: deposits and withdrawals are converted to transactions first (a
/// failed conversion is reported and changes nothing), the other kinds
/// drive the dispute workflow.
pub fn process_entry(engine: &mut PaymentEngine, entry: TransactionEntry) -> (r: Result<
    (),
    PaymentError,
>)
    requires
        old(engine).wf(),
    ensures
        final(engine).wf(),
        final(engine)@ == spec_process_entry(old(engine)@, entry).0,
        r == spec_process_entry(old(engine)@, entry).1,
{
    match entry.entry_type {
        TransactionEntryType::Deposit | TransactionEntryType::Withdrawal => {
            match Transaction::try_from(entry) {
                Ok(tx) => engine.process_transaction(tx),
                Err(ce) => Err(PaymentError::InvalidEntryForConversion(ce)),
            }
        },
        TransactionEntryType::Dispute => engine.process_dispute(entry.account_id, entry.tx_id),
        TransactionEntryType::Resolve => engine.process_resolve(entry.account_id, entry.tx_id),
        TransactionEntryType::Chargeback => engine.process_chargeback(
            entry.account_id,
            entry.tx_id,
        ),
    }
}

/// Replays a whole entry stream in order. Every entry is processed
/// independently: a failure is reported in the returned list and the replay
/// goes on with the next entry; no event ever aborts the run.
pub fn process_stream(engine: &mut PaymentEngine, entries: &Vec<TransactionEntry>) -> (results:
    Vec<Result<(), PaymentError>>)
    requires
        old(engine).wf(),
    ensures
        final(engine).wf(),
        final(engine)@ == spec_replay(old(engine)@, entries@),
        results@.len() == entries@.len(),
        forall|i: int|
            0 <= i < entries@.len() ==> results@[i] == spec_process_entry(
                spec_replay(old(engine)@, entries@.take(i)),
                entries@[i],
            ).1,
{
    let mut results: Vec<Result<(), PaymentError>> = Vec::new();
    let mut k: usize = 0;
    while k < entries.len()
        invariant
            old(engine).wf(),
            engine.wf(),
            k <= entries@.len(),
            engine@ == spec_replay(old(engine)@, entries@.take(k as int)),
            results@.len() == k,
            forall|i: int|
                0 <= i < k ==> results@[i] == spec_process_entry(
                    spec_replay(old(engine)@, entries@.take(i)),
                    entries@[i],
                ).1,
        decreases entries@.len() - k,
    {
        let entry = entries[k];
        proof {
            assert(entries@.take(k + 1).drop_last() =~= entries@.take(k as int));
            assert(entries@.take(k + 1).last() == entries@[k as int]);
        }
        let result = process_entry(engine, entry);
        results.push(result);
        k = k + 1;
    }
    proof {
        assert(entries@.take(entries@.len() as int) =~= entries@);
    }
    results
}

} // verus!
