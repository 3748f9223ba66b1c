//! A single-pass ledger engine: it replays a stream of transaction events
//! (deposit, withdrawal, dispute, resolve, chargeback) against a set of
//! per-client accounts and produces final balances.
//!
//! Monetary values are fixed-point amounts held in `u64` units of 1/10000,
//! so `1_000_000` units stand for the decimal value `100.0000`.

pub mod account;
pub mod entry;
pub mod error;
pub mod laws;
pub mod ledger;
pub mod payments_engine;
pub mod processor;
pub mod report;
pub mod transaction;
