//! The one clock read the ledger makes: the current time as an RFC 2822
//! timestamp, used to stamp freshly created rows.

use vstd::prelude::*;

verus! {

/// Relies on chrono's `Utc::now`, rendered with `DateTime::to_rfc2822`.
/// The result depends on the wall clock, so nothing is promised of it;
/// every caller states its own guarantees without pinning the timestamp.
#[verifier::external_body]
pub(crate) fn now_rfc2822() -> String {
    chrono::Utc::now().to_rfc2822()
}

} // verus!
