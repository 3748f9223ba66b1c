use vstd::prelude::*;
use vstd::string::{StrSliceExecFns, StringExecFns};

use crate::account::Account;
use crate::payments_engine::PaymentEngine;

verus! {

/// The single decimal digit `d` as text.
pub open spec fn spec_digit(d: nat) -> Seq<char> {
    if d == 0 {
        "0"@
    } else if d == 1 {
        "1"@
    } else if d == 2 {
        "2"@
    } else if d == 3 {
        "3"@
    } else if d == 4 {
        "4"@
    } else if d == 5 {
        "5"@
    } else if d == 6 {
        "6"@
    } else if d == 7 {
        "7"@
    } else if d == 8 {
        "8"@
    } else {
        "9"@
    }
}

/// The decimal digits of `n`, most significant first, no leading zeros
/// (a lone zero for zero itself).
pub open spec fn spec_dec_digits(n: nat) -> Seq<char>
    decreases n,
{
    if n < 10 {
        spec_digit(n)
    } else {
        spec_dec_digits(n / 10) + spec_digit(n % 10)
    }
}

/// A fixed-point amount in 1/10000 units, rendered with exactly four
/// fractional digits: the whole part, a point, and the zero-padded
/// fraction.
pub open spec fn spec_fixed4(units: u64) -> Seq<char> {
    spec_dec_digits((units / 10000) as nat) + "."@ + spec_digit(
        ((units % 10000) / 1000) as nat,
    ) + spec_digit((((units % 10000) / 100) % 10) as nat) + spec_digit(
        (((units % 10000) / 10) % 10) as nat,
    ) + spec_digit(((units % 10000) % 10) as nat)
}

/// A boolean rendered as text.
pub open spec fn spec_bool_text(b: bool) -> Seq<char> {
    if b {
        "true"@
    } else {
        "false"@
    }
}

/// One report line: client id and the three balances, comma-separated,
/// then the locked flag, ending in a newline.
pub open spec fn spec_account_line(a: Account) -> Seq<char> {
    spec_dec_digits(a.client as nat) + ", "@ + spec_fixed4(a.available) + ", "@ + spec_fixed4(
        a.held,
    ) + ", "@ + spec_fixed4(a.total) + ", "@ + spec_bool_text(a.locked) + "\n"@
}

/// The report lines for a sequence of accounts, in sequence order.
pub open spec fn spec_report_lines(s: Seq<Account>) -> Seq<char>
    decreases s.len(),
{
    if s.len() == 0 {
        Seq::empty()
    } else {
        spec_report_lines(s.drop_last()) + spec_account_line(s.last())
    }
}

/// The whole report: a header line, then one line per account.
pub open spec fn spec_report(s: Seq<Account>) -> Seq<char> {
    "client, available, held, total, locked\n"@ + spec_report_lines(s)
}

fn digit_str(d: u64) -> (s: &'static str)
    requires
        d < 10,
    ensures
        s@ == spec_digit(d as nat),
{
    match d {
        0 => "0",
        1 => "1",
        2 => "2",
        3 => "3",
        4 => "4",
        5 => "5",
        6 => "6",
        7 => "7",
        8 => "8",
        _ => "9",
    }
}

fn u64_digits(n: u64) -> (s: String)
    ensures
        s@ == spec_dec_digits(n as nat),
    decreases n,
{
    if n < 10 {
        digit_str(n).to_owned()
    } else {
        let mut s = u64_digits(n / 10);
        s.append(digit_str(n % 10));
        s
    }
}

fn fixed4(units: u64) -> (s: String)
    ensures
        s@ == spec_fixed4(units),
{
    let mut s = u64_digits(units / 10000);
    let frac = units % 10000;
    s.append(".");
    s.append(digit_str(frac / 1000));
    s.append(digit_str((frac / 100) % 10));
    s.append(digit_str((frac / 10) % 10));
    s.append(digit_str(frac % 10));
    proof {
        assert(s@ =~= spec_fixed4(units));
    }
    s
}

fn bool_str(b: bool) -> (s: &'static str)
    ensures
        s@ == spec_bool_text(b),
{
    if b {
        "true"
    } else {
        "false"
    }
}

fn account_line(a: Account) -> (s: String)
    ensures
        s@ == spec_account_line(a),
{
    let mut s = u64_digits(a.client as u64);
    s.append(", ");
    let available = fixed4(a.available);
    s.append(available.as_str());
    s.append(", ");
    let held = fixed4(a.held);
    s.append(held.as_str());
    s.append(", ");
    let total = fixed4(a.total);
    s.append(total.as_str());
    s.append(", ");
    s.append(bool_str(a.locked));
    s.append("\n");
    proof {
        assert(s@ =~= spec_account_line(a));
    }
    s
}

impl PaymentEngine {
    /// The final snapshot as text: a header, then one line per account with
    /// the client id, the three balances rendered to four fractional
    /// digits, and the locked flag. A read-only view; no guarantee is made
    /// about the order of the accounts.
    pub fn report(&self) -> (r: String)
        ensures
            r@ == spec_report(self.accounts_seq()),
    {
        let mut out = String::new();
        out.append("client, available, held, total, locked\n");
        let accs = self.accounts();
        let mut k: usize = 0;
        while k < accs.len()
            invariant
                accs@ == self.accounts_seq(),
                k <= accs@.len(),
                out@ == spec_report(self.accounts_seq().take(k as int)),
            decreases accs@.len() - k,
        {
            proof {
                assert(accs@.take(k + 1).drop_last() =~= accs@.take(k as int));
                assert(accs@.take(k + 1).last() == accs@[k as int]);
            }
            let line = account_line(accs[k]);
            out.append(line.as_str());
            proof {
                assert(out@ =~= spec_report(self.accounts_seq().take(k + 1)));
            }
            k = k + 1;
        }
        proof {
            assert(self.accounts_seq().take(accs@.len() as int) =~= self.accounts_seq());
        }
        out
    }
}

} // verus!
