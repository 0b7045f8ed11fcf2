//! The wall clock that stamps a block at construction time.

use chrono::Utc;
use vstd::prelude::*;

verus! {

/// Relies on chrono::Utc::now and chrono::DateTime::timestamp_millis for the
/// current UTC time in milliseconds since the epoch. Nothing is promised of
/// the value: every contract downstream holds for any timestamp.
#[verifier::external_body]
pub(crate) fn now_millis() -> u64 {
    Utc::now().timestamp_millis() as u64
}

} // verus!
