//! The wall clock, read through `chrono`.

use vstd::prelude::*;

verus! {

/// Calls `chrono::Utc::now` and renders the instant with
/// `DateTime::to_rfc3339`. The result depends on when the call is made, so
/// the contract promises nothing about it. `Utc::now` gives up on a machine
/// whose clock stands before the Unix epoch.
#[verifier::external_body]
pub(crate) fn now_rfc3339() -> String {
    chrono::Utc::now().to_rfc3339()
}

} // verus!
