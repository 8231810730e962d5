//! The two values the registry takes from the host: fresh random
//! identifiers and the current wall-clock time. Nothing is assumed of
//! either value: every caller states what holds whatever comes back.

use vstd::prelude::*;

verus! {

/// Relies on uuid::Uuid::new_v4 (a random version-4 identifier) and
/// Uuid::as_u128 (its value as one 128-bit integer). The result is random,
/// so nothing is promised of it.
#[verifier::external_body]
pub(crate) fn fresh_id() -> u128 {
    uuid::Uuid::new_v4().as_u128()
}

/// Relies on chrono::Local::now and DateTime::timestamp_millis: the current
/// wall-clock time as non-leap milliseconds since the Unix epoch. The result
/// depends on when the call runs, so nothing is promised of it.
#[verifier::external_body]
pub(crate) fn current_time_millis() -> i64 {
    chrono::Local::now().timestamp_millis()
}

} // verus!
