//! The error taxonomy of the ledger.
//!
//! Every operation on the ledger reports its failure through [`LedgerError`];
//! a validation failure also names the field that was rejected.

use vstd::prelude::*;

verus! {

/// The input field that a validation failure is about.
#[derive(Clone, Copy, Debug, PartialEq, Eq, Structural)]
pub enum Field {
    /// A customer name shorter than three characters.
    Name,
    /// A negative starting balance.
    Balance,
    /// A non-positive amount, or one whose credit would not be representable.
    Amount,
    /// An empty receiver code on a payment.
    ReceiverCode,
    /// An empty reference on a payment.
    Reference,
    /// A missing creation timestamp.
    CreatedAt,
}

/// Why a ledger operation was refused.
#[derive(Clone, Copy, Debug, PartialEq, Eq, Structural)]
pub enum LedgerError {
    /// Malformed or out-of-range input; names the failing field.
    ValidationError(Field),
    /// The referenced account does not exist; carries the missing id.
    NotFound(u16),
    /// A debit larger than the account's balance.
    InsufficientFunds,
    /// An operation that is never allowed, such as a self-transfer.
    InvalidOperation,
    /// Concurrent-update contention in an outside store; safe to retry.
    /// The in-memory ledger never raises it; a persistence layer may.
    Conflict,
    /// The outside store is unavailable or corrupt.
    /// The in-memory ledger never raises it; a persistence layer may.
    StorageFailure,
}

} // verus!
