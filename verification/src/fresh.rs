//! The two values the creation workflow draws from the outside world: a fresh
//! random identifier and the current local instant. Nothing can be promised
//! of either value, so the callers must hold for every outcome.

use vstd::prelude::*;
use crate::book::Timestamp;

verus! {

/// Relies on uuid::Uuid::new_v4 and uuid::Uuid::as_u128: a freshly drawn
/// version-4 identifier, returned as its 128-bit value. The value is random,
/// so nothing is promised of it.
#[verifier::external_body]
pub(crate) fn fresh_uuid() -> u128 {
    uuid::Uuid::new_v4().as_u128()
}

/// Relies on chrono::Local::now, chrono::DateTime::timestamp_millis and
/// chrono::FixedOffset::local_minus_utc: the clock's current instant in the
/// local time zone, as epoch milliseconds and the offset from UTC in seconds.
/// The value depends on the clock, so nothing is promised of it.
#[verifier::external_body]
pub(crate) fn now_local() -> Timestamp {
    let now = chrono::Local::now();
    Timestamp { millis: now.timestamp_millis(), offset_seconds: now.offset().local_minus_utc() }
}

} // verus!
