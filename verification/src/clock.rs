//! The current instant, as a millisecond epoch integer. Every rule of the
//! library takes the instant as an explicit argument; this is the one place
//! the wall clock is read.

use vstd::prelude::*;

verus! {

/// Relies on chrono::Utc::now (panics only if the system clock is before the
/// Unix epoch) and DateTime::timestamp_millis: returns the current time as
/// non-leap milliseconds since the Unix epoch. The value depends on the
/// clock, so nothing is promised of it.
#[verifier::external_body]
pub fn now_millis() -> (now: i64) {
    chrono::Utc::now().timestamp_millis()
}

} // verus!
