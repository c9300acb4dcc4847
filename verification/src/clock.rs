//! The reply timestamp: the only place the library asks the clock.
use vstd::prelude::*;

verus! {

/// Relies on chrono's `Utc::now` and `DateTime::to_rfc3339`: the current
/// moment, rendered in RFC 3339 (ISO 8601) form. The clock decides the
/// value, so nothing is promised of it.
#[verifier::external_body]
pub fn timestamp() -> String {
    chrono::offset::Utc::now().to_rfc3339()
}

} // verus!
