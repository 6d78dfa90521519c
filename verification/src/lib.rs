//! A minimal banking ledger: customer accounts with non-negative balances,
//! point-to-point transfers, cash deposits and withdrawals, and outbound
//! payments, every movement recorded in an append-only audit log.
//!
//! The [`ledger::Ledger`] type is the serialization point: each operation is a
//! single call that either commits all of its effects (balance changes plus a
//! log entry) or leaves the ledger untouched, so the no-overdraft invariant
//! holds before and after every operation.

pub mod errors;
pub mod models;
pub mod schema;
pub mod ledger;
pub mod engine;
pub mod queries;
pub mod laws;
mod clock;
