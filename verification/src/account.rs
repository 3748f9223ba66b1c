use vstd::prelude::*;

verus! {

/// One ledger account, keyed by its client id. Balances are fixed-point
/// amounts in units of 1/10000 of the currency.
#[derive(Clone, Copy, Debug, PartialEq, Eq, Structural)]
pub struct Account {
    pub client: u16,
    pub available: u64,
    pub held: u64,
    pub total: u64,
    pub locked: bool,
}

/// Balance consistency: the funds of an account split exactly into the
/// available part and the part held pending disputes. Both parts are
/// unsigned, so no balance is ever negative.
pub open spec fn account_wf(a: Account) -> bool {
    a.total == a.available + a.held
}

impl Account {
    /// A fresh account: zero balances, not locked.
    pub open spec fn spec_new(client: u16) -> Account {
        Account { client, available: 0, held: 0, total: 0, locked: false }
    }

    /// Creates the account a first reference to `client` brings into being.
    pub fn new(client: u16) -> (a: Account)
        ensures
            a == Account::spec_new(client),
    {
        Account { client, available: 0, held: 0, total: 0, locked: false }
    }
}

} // verus!
