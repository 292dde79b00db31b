//! The one place where the core asks for the current time.

use vstd::prelude::*;

verus! {

/// Relies on chrono's `Utc::now`, read out through
/// `DateTime::timestamp_millis` as milliseconds since the Unix epoch.
/// The value depends on the clock, so nothing is assumed of it.
#[verifier::external_body]
pub(crate) fn now_timestamp() -> i64 {
    chrono::Utc::now().timestamp_millis()
}

} // verus!
