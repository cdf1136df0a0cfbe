//! Identity generation for freshly created entities.

use vstd::prelude::*;

verus! {

/// Relies on chrono::Utc::now (panics only if the system clock is before the
/// Unix epoch) and DateTime::timestamp_nanos_opt/timestamp_micros: yields a
/// clock-derived identifier string. Nothing is promised of the value;
/// uniqueness is not assumed anywhere — the store rejects a duplicate
/// identity instead.
#[verifier::external_body]
pub fn generate_id() -> (id: String) {
    let now = chrono::Utc::now();
    match now.timestamp_nanos_opt() {
        Some(n) => format!("{:x}", n),
        None => format!("{:x}", now.timestamp_micros()),
    }
}

} // verus!
