//! Timestamps are held as microseconds since the Unix epoch, in UTC.
use vstd::prelude::*;

verus! {

/// Relies on chrono::Utc::now and DateTime::timestamp_micros: the current
/// time. Nothing is promised of it, not even that it grows.
#[verifier::external_body]
pub(crate) fn now_micros() -> (r: i64) {
    chrono::Utc::now().timestamp_micros()
}

} // verus!
