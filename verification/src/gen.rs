//! Trusted generators for fresh record ids and creation timestamps.

use vstd::prelude::*;

verus! {

/// Relies on uuid::Uuid::new_v4 and Uuid::as_u128: draws a random
/// version-4 identifier and returns its 128-bit value. The draw is
/// random, so nothing is promised of the result.
#[verifier::external_body]
pub(crate) fn fresh_id() -> u128 {
    uuid::Uuid::new_v4().as_u128()
}

/// Relies on chrono::Utc::now and DateTime::timestamp_millis: the
/// current time as milliseconds since the Unix epoch. The clock decides
/// the result, so nothing is promised of it.
#[verifier::external_body]
pub(crate) fn now_millis() -> i64 {
    chrono::Utc::now().timestamp_millis()
}

} // verus!
