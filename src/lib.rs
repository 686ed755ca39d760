//! A ledger engine: applies a stream of deposit, withdrawal, dispute, resolve
//! and chargeback records to per-client accounts, keeping balances consistent.
pub mod account;
pub mod amount;
pub mod dispatcher;
pub mod errors;
pub mod memdb;
pub mod record;
pub mod transactions;
pub mod transfer;
