use vstd::pervasive::VecAdditionalExecFns;
use vstd::prelude::*;

use crate::account::{account_wf, Account};
use crate::error::PaymentError;
use crate::ledger::{
    ledger_wf, spec_process_chargeback, spec_process_dispute, spec_process_resolve,
    spec_process_transaction, Ledger,
};
use crate::transaction::{Transaction, TransactionStatus, TransactionType};

verus! {

/// The account collection a sequence of accounts stands for: later entries
/// win, though under `unique_clients` there is nothing to win over.
pub open spec fn accounts_map_of(s: Seq<Account>) -> Map<u16, Account>
    decreases s.len(),
{
    if s.len() == 0 {
        Map::empty()
    } else {
        accounts_map_of(s.drop_last()).insert(s.last().client, s.last())
    }
}

/// No two stored accounts share a client id.
pub open spec fn unique_clients(s: Seq<Account>) -> bool {
    forall|i: int, j: int| 0 <= i < j < s.len() ==> s[i].client != s[j].client
}

/// The lookup key of a stored transaction.
pub open spec fn tx_key(t: Transaction) -> (u16, u32) {
    (t.account_id, t.tx_id)
}

/// The transaction collection a sequence of transactions stands for.
pub open spec fn txs_map_of(s: Seq<Transaction>) -> Map<(u16, u32), Transaction>
    decreases s.len(),
{
    if s.len() == 0 {
        Map::empty()
    } else {
        txs_map_of(s.drop_last()).insert(tx_key(s.last()), s.last())
    }
}

/// No two stored transactions share an (account, tx id) pair.
pub open spec fn unique_tx_keys(s: Seq<Transaction>) -> bool {
    forall|i: int, j: int| 0 <= i < j < s.len() ==> tx_key(s[i]) != tx_key(s[j])
}

proof fn lemma_accounts_map_contains(s: Seq<Account>, id: u16)
    ensures
        accounts_map_of(s).contains_key(id) <==> exists|i: int|
            0 <= i < s.len() && s[i].client == id,
    decreases s.len(),
{
    if s.len() > 0 {
        lemma_accounts_map_contains(s.drop_last(), id);
        if s.last().client == id {
            assert(s[s.len() - 1].client == id);
        } else if accounts_map_of(s).contains_key(id) {
            let i = choose|i: int| 0 <= i < s.len() - 1 && s.drop_last()[i].client == id;
            assert(s[i].client == id);
        } else if exists|i: int| 0 <= i < s.len() && s[i].client == id {
            let i = choose|i: int| 0 <= i < s.len() && s[i].client == id;
            assert(s.drop_last()[i].client == id);
        }
    }
}

proof fn lemma_accounts_map_at(s: Seq<Account>, i: int)
    requires
        unique_clients(s),
        0 <= i < s.len(),
    ensures
        accounts_map_of(s).contains_key(s[i].client),
        accounts_map_of(s)[s[i].client] == s[i],
    decreases s.len(),
{
    if i < s.len() - 1 {
        assert(s.drop_last()[i] == s[i]);
        lemma_accounts_map_at(s.drop_last(), i);
        assert(s.last().client != s[i].client);
    }
}

proof fn lemma_accounts_map_push(s: Seq<Account>, a: Account)
    ensures
        accounts_map_of(s.push(a)) == accounts_map_of(s).insert(a.client, a),
{
    assert(s.push(a).drop_last() =~= s);
    assert(s.push(a).last() == a);
}

proof fn lemma_accounts_map_update(s: Seq<Account>, i: int, a: Account)
    requires
        unique_clients(s),
        0 <= i < s.len(),
        s[i].client == a.client,
    ensures
        accounts_map_of(s.update(i, a)) =~= accounts_map_of(s).insert(a.client, a),
    decreases s.len(),
{
    if i == s.len() - 1 {
        assert(s.update(i, a).drop_last() =~= s.drop_last());
        assert(s.update(i, a).last() == a);
    } else {
        assert(s.update(i, a).drop_last() =~= s.drop_last().update(i, a));
        assert(s.update(i, a).last() == s.last());
        assert(s.drop_last()[i] == s[i]);
        lemma_accounts_map_update(s.drop_last(), i, a);
        assert(s.last().client != a.client);
    }
}

proof fn lemma_txs_map_contains(s: Seq<Transaction>, key: (u16, u32))
    ensures
        txs_map_of(s).contains_key(key) <==> exists|i: int|
            0 <= i < s.len() && tx_key(s[i]) == key,
    decreases s.len(),
{
    if s.len() > 0 {
        lemma_txs_map_contains(s.drop_last(), key);
        if tx_key(s.last()) == key {
            assert(tx_key(s[s.len() - 1]) == key);
        } else if txs_map_of(s).contains_key(key) {
            let i = choose|i: int| 0 <= i < s.len() - 1 && tx_key(s.drop_last()[i]) == key;
            assert(tx_key(s[i]) == key);
        } else if exists|i: int| 0 <= i < s.len() && tx_key(s[i]) == key {
            let i = choose|i: int| 0 <= i < s.len() && tx_key(s[i]) == key;
            assert(tx_key(s.drop_last()[i]) == key);
        }
    }
}

proof fn lemma_txs_map_at(s: Seq<Transaction>, i: int)
    requires
        unique_tx_keys(s),
        0 <= i < s.len(),
    ensures
        txs_map_of(s).contains_key(tx_key(s[i])),
        txs_map_of(s)[tx_key(s[i])] == s[i],
    decreases s.len(),
{
    if i < s.len() - 1 {
        assert(s.drop_last()[i] == s[i]);
        lemma_txs_map_at(s.drop_last(), i);
        assert(tx_key(s.last()) != tx_key(s[i]));
    }
}

proof fn lemma_txs_map_push(s: Seq<Transaction>, t: Transaction)
    ensures
        txs_map_of(s.push(t)) == txs_map_of(s).insert(tx_key(t), t),
{
    assert(s.push(t).drop_last() =~= s);
    assert(s.push(t).last() == t);
}

proof fn lemma_txs_map_update(s: Seq<Transaction>, i: int, t: Transaction)
    requires
        unique_tx_keys(s),
        0 <= i < s.len(),
        tx_key(s[i]) == tx_key(t),
    ensures
        txs_map_of(s.update(i, t)) =~= txs_map_of(s).insert(tx_key(t), t),
    decreases s.len(),
{
    if i == s.len() - 1 {
        assert(s.update(i, t).drop_last() =~= s.drop_last());
        assert(s.update(i, t).last() == t);
    } else {
        assert(s.update(i, t).drop_last() =~= s.drop_last().update(i, t));
        assert(s.update(i, t).last() == s.last());
        assert(s.drop_last()[i] == s[i]);
        lemma_txs_map_update(s.drop_last(), i, t);
        assert(tx_key(s.last()) != tx_key(t));
    }
}

/// The payment engine: it exclusively owns the account and transaction
/// collections and is the only place either is mutated.
pub struct PaymentEngine {
    accounts: Vec<Account>,
    transactions: Vec<Transaction>,
}

impl View for PaymentEngine {
    type V = Ledger;

    closed spec fn view(&self) -> Ledger {
        Ledger {
            accounts: accounts_map_of(self.accounts@),
            txs: txs_map_of(self.transactions@),
        }
    }
}

impl Default for PaymentEngine {
    /// A fresh engine, exactly as `new` makes it.
    fn default() -> (e: Self)
        ensures
            e.wf(),
            e@ == Ledger::empty(),
    {
        PaymentEngine::new()
    }
}

impl PaymentEngine {
    /// The engine invariant: keys are unique in both collections and every
    /// account is balance-consistent. Every engine operation preserves it.
    pub closed spec fn wf(&self) -> bool {
        &&& unique_clients(self.accounts@)
        &&& unique_tx_keys(self.transactions@)
        &&& forall|i: int|
            0 <= i < self.accounts@.len() ==> account_wf(#[trigger] self.accounts@[i])
    }

    /// The accounts in the order the engine reports them.
    pub closed spec fn accounts_seq(&self) -> Seq<Account> {
        self.accounts@
    }

    /// The reported account sequence stands for exactly the accounts of the
    /// ledger view, with no client id repeated.
    pub proof fn lemma_accounts_seq(&self)
        requires
            self.wf(),
        ensures
            accounts_map_of(self.accounts_seq()) == self@.accounts,
            unique_clients(self.accounts_seq()),
            forall|i: int|
                0 <= i < self.accounts_seq().len() ==> #[trigger] self@.accounts.contains_key(
                    self.accounts_seq()[i].client,
                ) && self@.accounts[self.accounts_seq()[i].client] == self.accounts_seq()[i],
    {
        assert forall|i: int| 0 <= i < self.accounts_seq().len() implies #[trigger] self@
            .accounts.contains_key(self.accounts_seq()[i].client) && self@.accounts[
            self.accounts_seq()[i].client] == self.accounts_seq()[i] by {
            lemma_accounts_map_at(self.accounts@, i);
        }
    }

    /// A well-formed engine stands for a well-formed ledger: every account
    /// of the view is balance-consistent and stored under its own key.
    pub proof fn lemma_wf_ledger(&self)
        requires
            self.wf(),
        ensures
            ledger_wf(self@),
    {
        assert forall|id: u16| #[trigger] self@.accounts.contains_key(id) implies account_wf(
            self@.accounts[id],
        ) && self@.accounts[id].client == id by {
            lemma_accounts_map_contains(self.accounts@, id);
            let i = choose|i: int| 0 <= i < self.accounts@.len() && self.accounts@[i].client == id;
            lemma_accounts_map_at(self.accounts@, i);
        }
        assert forall|k: (u16, u32)| #[trigger] self@.txs.contains_key(k) implies (
        self@.txs[k].account_id, self@.txs[k].tx_id) == k by {
            lemma_txs_map_contains(self.transactions@, k);
            let i = choose|i: int|
                0 <= i < self.transactions@.len() && tx_key(self.transactions@[i]) == k;
            lemma_txs_map_at(self.transactions@, i);
        }
    }

    /// The stored accounts, in the order the engine reports them.
    pub fn accounts(&self) -> (r: &Vec<Account>)
        ensures
            r@ == self.accounts_seq(),
    {
        &self.accounts
    }

    /// A fresh engine: no accounts, no transactions.
    pub fn new() -> (e: PaymentEngine)
        ensures
            e.wf(),
            e@ == Ledger::empty(),
    {
        let e = PaymentEngine { accounts: Vec::new(), transactions: Vec::new() };
        proof {
            assert(e@ =~= Ledger::empty());
        }
        e
    }

    fn find_account_index(&self, account_id: u16) -> (r: Option<usize>)
        ensures
            match r {
                Some(i) => i < self.accounts@.len() && self.accounts@[i as int].client
                    == account_id,
                None => forall|j: int|
                    0 <= j < self.accounts@.len() ==> self.accounts@[j].client != account_id,
            },
    {
        let mut k: usize = 0;
        while k < self.accounts.len()
            invariant
                k <= self.accounts@.len(),
                forall|j: int| 0 <= j < k ==> self.accounts@[j].client != account_id,
            decreases self.accounts@.len() - k,
        {
            if self.accounts[k].client == account_id {
                return Some(k);
            }
            k = k + 1;
        }
        None
    }

    fn find_transaction_index(&self, account_id: u16, tx_id: u32) -> (r: Option<usize>)
        ensures
            match r {
                Some(i) => i < self.transactions@.len() && tx_key(self.transactions@[i as int])
                    == (account_id, tx_id),
                None => forall|j: int|
                    0 <= j < self.transactions@.len() ==> tx_key(self.transactions@[j]) != (
                    account_id,
                    tx_id,
                    ),
            },
    {
        let mut k: usize = 0;
        while k < self.transactions.len()
            invariant
                k <= self.transactions@.len(),
                forall|j: int| 0 <= j < k ==> tx_key(self.transactions@[j]) != (account_id, tx_id),
            decreases self.transactions@.len() - k,
        {
            if self.transactions[k].account_id == account_id && self.transactions[k].tx_id == tx_id {
                return Some(k);
            }
            k = k + 1;
        }
        None
    }

    /// The account stored under `account_id`, if any.
    pub fn get_account(&self, account_id: u16) -> (r: Option<Account>)
        requires
            self.wf(),
        ensures
            r == if self@.accounts.contains_key(account_id) {
                Some(self@.accounts[account_id])
            } else {
                None::<Account>
            },
    {
        proof {
            lemma_accounts_map_contains(self.accounts@, account_id);
        }
        match self.find_account_index(account_id) {
            Some(i) => {
                proof {
                    lemma_accounts_map_at(self.accounts@, i as int);
                }
                Some(self.accounts[i])
            },
            None => None,
        }
    }

    /// The transaction stored under this (account, tx id) pair, if any.
    pub fn get_transaction(&self, account_id: u16, tx_id: u32) -> (r: Option<Transaction>)
        requires
            self.wf(),
        ensures
            r == if self@.has_tx(account_id, tx_id) {
                Some(self@.txs[(account_id, tx_id)])
            } else {
                None::<Transaction>
            },
    {
        proof {
            lemma_txs_map_contains(self.transactions@, (account_id, tx_id));
        }
        match self.find_transaction_index(account_id, tx_id) {
            Some(i) => {
                proof {
                    lemma_txs_map_at(self.transactions@, i as int);
                }
                Some(self.transactions[i])
            },
            None => None,
        }
    }

    /// Whether the account exists and is locked; an absent account counts
    /// as unlocked.
    pub fn is_account_locked(&self, account_id: u16) -> (r: bool)
        requires
            self.wf(),
        ensures
            r == self@.is_locked(account_id),
    {
        match self.get_account(account_id) {
            Some(a) => a.locked,
            None => false,
        }
    }

    /// Whether a transaction is already recorded under this pair of ids.
    pub fn check_transaction(&self, account_id: u16, tx_id: u32) -> (r: bool)
        requires
            self.wf(),
        ensures
            r == self@.has_tx(account_id, tx_id),
    {
        self.get_transaction(account_id, tx_id).is_some()
    }

    /// Returns the account for `account_id`, creating it with zero balances
    /// and unlocked status if absent. Always succeeds.
    pub fn get_or_create_account(&mut self, account_id: u16) -> (a: Account)
        requires
            old(self).wf(),
        ensures
            final(self).wf(),
            final(self)@ == old(self)@.get_or_create(account_id),
            final(self)@.accounts.contains_key(account_id),
            a == final(self)@.accounts[account_id],
    {
        proof {
            lemma_accounts_map_contains(self.accounts@, account_id);
        }
        match self.find_account_index(account_id) {
            Some(i) => {
                proof {
                    lemma_accounts_map_at(self.accounts@, i as int);
                }
                self.accounts[i]
            },
            None => {
                let a = Account::new(account_id);
                proof {
                    lemma_accounts_map_push(self.accounts@, a);
                }
                self.accounts.push(a);
                proof {
                    lemma_accounts_map_at(self.accounts@, self.accounts@.len() - 1);
                    assert(self@ =~= old(self)@.get_or_create(account_id));
                }
                a
            },
        }
    }

    /// Applies the three balance deltas as one atomic unit, exactly as
    /// `Ledger::update_balance` says: all applied, or nothing on failure.
    /// Callers must pass consistent deltas; the store does not re-derive
    /// the total on its own.
    pub fn update_account_balance(
        &mut self,
        account_id: u16,
        available_delta: i128,
        held_delta: i128,
        total_delta: i128,
    ) -> (r: Result<(), PaymentError>)
        requires
            old(self).wf(),
            available_delta + held_delta == total_delta,
        ensures
            final(self).wf(),
            final(self)@ == old(self)@.update_balance(
                account_id,
                available_delta as int,
                held_delta as int,
                total_delta as int,
            ).0,
            r == old(self)@.update_balance(
                account_id,
                available_delta as int,
                held_delta as int,
                total_delta as int,
            ).1,
    {
        proof {
            lemma_accounts_map_contains(self.accounts@, account_id);
        }
        match self.find_account_index(account_id) {
            None => Err(PaymentError::AccountNotFound(account_id)),
            Some(i) => {
                proof {
                    lemma_accounts_map_at(self.accounts@, i as int);
                }
                let a = self.accounts[i];
                let cap: i128 = u64::MAX as i128;
                if available_delta > cap - (a.available as i128) || available_delta < -(
                a.available as i128) || held_delta > cap - (a.held as i128) || held_delta < -(
                a.held as i128) || total_delta > cap - (a.total as i128) || total_delta < -(
                a.total as i128) {
                    Err(PaymentError::InsufficientFunds)
                } else {
                    let updated = Account {
                        client: a.client,
                        available: (a.available as i128 + available_delta) as u64,
                        held: (a.held as i128 + held_delta) as u64,
                        total: (a.total as i128 + total_delta) as u64,
                        locked: a.locked,
                    };
                    proof {
                        lemma_accounts_map_update(self.accounts@, i as int, updated);
                    }
                    self.accounts.set(i, updated);
                    proof {
                        assert(self@ =~= old(self)@.update_balance(
                            account_id,
                            available_delta as int,
                            held_delta as int,
                            total_delta as int,
                        ).0);
                    }
                    Ok(())
                }
            },
        }
    }

    /// Records a new transaction. There is no uniqueness check here:
    /// uniqueness of the (account, tx id) pair is the caller's
    /// responsibility, checked before calling.
    pub fn insert_transaction(&mut self, transaction: Transaction)
        requires
            old(self).wf(),
            !old(self)@.has_tx(transaction.account_id, transaction.tx_id),
        ensures
            final(self).wf(),
            final(self)@ == old(self)@.with_tx(transaction),
    {
        proof {
            lemma_txs_map_push(self.transactions@, transaction);
            lemma_txs_map_contains(self.transactions@, tx_key(transaction));
        }
        self.transactions.push(transaction);
        proof {
            assert(self@ =~= old(self)@.with_tx(transaction));
        }
    }

    /// Overwrites the status of a recorded transaction; fails if the
    /// (account, tx id) pair is absent.
    pub fn update_transaction_status(
        &mut self,
        account_id: u16,
        tx_id: u32,
        new_status: TransactionStatus,
    ) -> (r: Result<(), PaymentError>)
        requires
            old(self).wf(),
        ensures
            final(self).wf(),
            final(self)@ == old(self)@.set_tx_status(account_id, tx_id, new_status).0,
            r == old(self)@.set_tx_status(account_id, tx_id, new_status).1,
    {
        proof {
            lemma_txs_map_contains(self.transactions@, (account_id, tx_id));
        }
        match self.find_transaction_index(account_id, tx_id) {
            None => Err(PaymentError::TransactionNotFound),
            Some(i) => {
                proof {
                    lemma_txs_map_at(self.transactions@, i as int);
                }
                let t = self.transactions[i];
                let updated = Transaction {
                    tx_type: t.tx_type,
                    account_id: t.account_id,
                    tx_id: t.tx_id,
                    amount: t.amount,
                    status: new_status,
                };
                proof {
                    lemma_txs_map_update(self.transactions@, i as int, updated);
                }
                self.transactions.set(i, updated);
                proof {
                    assert(self@ =~= old(self)@.set_tx_status(account_id, tx_id, new_status).0);
                }
                Ok(())
            },
        }
    }

    /// Looks up a transaction for the dispute workflow; fails if the pair
    /// is absent or the transaction is not a deposit.
    pub fn get_deposit_transaction_status(&self, account_id: u16, tx_id: u32) -> (r: Result<
        Transaction,
        PaymentError,
    >)
        requires
            self.wf(),
        ensures
            r == self@.get_deposit(account_id, tx_id),
    {
        match self.get_transaction(account_id, tx_id) {
            None => Err(PaymentError::TransactionNotFound),
            Some(t) => {
                if !matches!(t.tx_type, TransactionType::Deposit) {
                    Err(PaymentError::InvalidTransactionType)
                } else {
                    Ok(t)
                }
            },
        }
    }

    /// Sets the locked flag on the account; a no-op if the account does not
    /// exist.
    pub fn lock_account(&mut self, account_id: u16)
        requires
            old(self).wf(),
        ensures
            final(self).wf(),
            final(self)@ == old(self)@.lock(account_id),
    {
        proof {
            lemma_accounts_map_contains(self.accounts@, account_id);
        }
        match self.find_account_index(account_id) {
            None => {
            },
            Some(i) => {
                proof {
                    lemma_accounts_map_at(self.accounts@, i as int);
                }
                let a = self.accounts[i];
                let updated = Account {
                    client: a.client,
                    available: a.available,
                    held: a.held,
                    total: a.total,
                    locked: true,
                };
                proof {
                    lemma_accounts_map_update(self.accounts@, i as int, updated);
                }
                self.accounts.set(i, updated);
                proof {
                    assert(self@ =~= old(self)@.lock(account_id));
                }
            },
        }
    }

    /// Processes a deposit or withdrawal, exactly as
    /// `spec_process_transaction` says: the account is created if absent, a
    /// locked account or a reused (account, tx id) pair is rejected, a
    /// withdrawal beyond the available balance fails with
    /// `InsufficientFunds`, and on success the balances move and the
    /// transaction is recorded as `Completed`.
    pub fn process_transaction(&mut self, transaction: Transaction) -> (r: Result<
        (),
        PaymentError,
    >)
        requires
            old(self).wf(),
        ensures
            final(self).wf(),
            final(self)@ == spec_process_transaction(old(self)@, transaction).0,
            r == spec_process_transaction(old(self)@, transaction).1,
    {
        let account = self.get_or_create_account(transaction.account_id);
        let account_available = account.available;

        if self.is_account_locked(transaction.account_id) {
            return Err(PaymentError::AccountLocked(transaction.account_id));
        }
        if self.check_transaction(transaction.account_id, transaction.tx_id) {
            return Err(PaymentError::TransactionAlreadyExists);
        }
        let outcome = match transaction.tx_type {
            TransactionType::Deposit => self.update_account_balance(
                transaction.account_id,
                transaction.amount as i128,
                0,
                transaction.amount as i128,
            ),
            TransactionType::Withdrawal => {
                if account_available >= transaction.amount {
                    self.update_account_balance(
                        transaction.account_id,
                        -(transaction.amount as i128),
                        0,
                        -(transaction.amount as i128),
                    )
                } else {
                    return Err(PaymentError::InsufficientFunds);
                }
            },
        };
        match outcome {
            Err(e) => Err(e),
            Ok(u) => {
                self.insert_transaction(
                    Transaction {
                        tx_type: transaction.tx_type,
                        account_id: transaction.account_id,
                        tx_id: transaction.tx_id,
                        amount: transaction.amount,
                        status: TransactionStatus::Completed,
                    },
                );
                Ok(())
            },
        }
    }

    /// Disputes a recorded deposit, exactly as `spec_process_dispute` says:
    /// on success the amount moves from available to held, the total stays,
    /// and the transaction becomes `Disputed`.
    pub fn process_dispute(&mut self, account_id: u16, tx_id: u32) -> (r: Result<
        (),
        PaymentError,
    >)
        requires
            old(self).wf(),
        ensures
            final(self).wf(),
            final(self)@ == spec_process_dispute(old(self)@, account_id, tx_id).0,
            r == spec_process_dispute(old(self)@, account_id, tx_id).1,
    {
        if self.is_account_locked(account_id) {
            return Err(PaymentError::AccountLocked(account_id));
        }
        let existing = match self.get_deposit_transaction_status(account_id, tx_id) {
            Ok(t) => t,
            Err(e) => {
                return Err(e);
            },
        };
        if matches!(existing.status, TransactionStatus::Completed) {
            let amount = existing.amount;
            match self.get_account(account_id) {
                Some(account) => {
                    if account.available < amount {
                        return Err(PaymentError::InsufficientHoldFunds);
                    }
                },
                None => {
                    return Err(PaymentError::AccountNotFound(account_id));
                },
            }
            match self.update_account_balance(account_id, -(amount as i128), amount as i128, 0) {
                Err(e) => Err(e),
                Ok(u) => self.update_transaction_status(
                    account_id,
                    tx_id,
                    TransactionStatus::Disputed,
                ),
            }
        } else {
            Err(PaymentError::TransactionAlreadyDisputed)
        }
    }

    /// Resolves a disputed deposit, exactly as `spec_process_resolve` says:
    /// on success the amount moves back from held to available, the total
    /// stays, and the transaction becomes `Resolved`.
    pub fn process_resolve(&mut self, account_id: u16, tx_id: u32) -> (r: Result<
        (),
        PaymentError,
    >)
        requires
            old(self).wf(),
        ensures
            final(self).wf(),
            final(self)@ == spec_process_resolve(old(self)@, account_id, tx_id).0,
            r == spec_process_resolve(old(self)@, account_id, tx_id).1,
    {
        if self.is_account_locked(account_id) {
            return Err(PaymentError::AccountLocked(account_id));
        }
        let existing = match self.get_deposit_transaction_status(account_id, tx_id) {
            Ok(t) => t,
            Err(e) => {
                return Err(e);
            },
        };
        if !matches!(existing.status, TransactionStatus::Disputed) {
            if matches!(existing.status, TransactionStatus::Resolved) || matches!(
                existing.status,
                TransactionStatus::Chargebacked,
            ) {
                return Err(PaymentError::TransactionAlreadyDisputed);
            } else {
                return Err(PaymentError::TransactionIsNotDisputed);
            }
        }
        let amount = existing.amount;
        match self.get_account(account_id) {
            Some(account) => {
                if account.held < amount {
                    return Err(PaymentError::InsufficientHoldFunds);
                }
            },
            None => {
                return Err(PaymentError::AccountNotFound(account_id));
            },
        }
        match self.update_account_balance(account_id, amount as i128, -(amount as i128), 0) {
            Err(e) => Err(e),
            Ok(u) => self.update_transaction_status(account_id, tx_id, TransactionStatus::Resolved),
        }
    }

    /// Charges a disputed deposit back, exactly as
    /// `spec_process_chargeback` says: on success the held amount leaves
    /// the account, the transaction becomes `Chargebacked`, and the account
    /// is locked for good.
    pub fn process_chargeback(&mut self, account_id: u16, tx_id: u32) -> (r: Result<
        (),
        PaymentError,
    >)
        requires
            old(self).wf(),
        ensures
            final(self).wf(),
            final(self)@ == spec_process_chargeback(old(self)@, account_id, tx_id).0,
            r == spec_process_chargeback(old(self)@, account_id, tx_id).1,
    {
        if self.is_account_locked(account_id) {
            return Err(PaymentError::AccountLocked(account_id));
        }
        let existing = match self.get_deposit_transaction_status(account_id, tx_id) {
            Ok(t) => t,
            Err(e) => {
                return Err(e);
            },
        };
        if !matches!(existing.status, TransactionStatus::Disputed) {
            if matches!(existing.status, TransactionStatus::Resolved) || matches!(
                existing.status,
                TransactionStatus::Chargebacked,
            ) {
                return Err(PaymentError::TransactionAlreadyDisputed);
            } else {
                return Err(PaymentError::TransactionIsNotDisputed);
            }
        }
        let amount = existing.amount;
        match self.get_account(account_id) {
            Some(account) => {
                if account.held < amount {
                    return Err(PaymentError::InsufficientHoldFunds);
                }
            },
            None => {
                return Err(PaymentError::AccountNotFound(account_id));
            },
        }
        match self.update_account_balance(account_id, 0, -(amount as i128), -(amount as i128)) {
            Err(e) => Err(e),
            Ok(u) => {
                match self.update_transaction_status(
                    account_id,
                    tx_id,
                    TransactionStatus::Chargebacked,
                ) {
                    Err(e) => Err(e),
                    Ok(u2) => {
                        self.lock_account(account_id);
                        Ok(())
                    },
                }
            },
        }
    }
}

} // verus!
