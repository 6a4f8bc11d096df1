//! Trusted wrappers around the clock and the random source. Nothing is
//! promised of either value: callers are verified for every outcome.

use vstd::prelude::*;

verus! {

/// Relies on chrono's `Local::now` and `DateTime::timestamp_millis`: the
/// current wall-clock instant as non-leap milliseconds since 1970-01-01 UTC.
/// The reading is time-dependent, so no clause constrains it.
#[verifier::external_body]
pub(crate) fn now_millis() -> i64 {
    chrono::Local::now().timestamp_millis()
}

/// Relies on `rand::random`: 64 bits drawn from the thread-local
/// cryptographically secure generator. The value is random, so no clause
/// constrains it; token uniqueness rests on the store's collision check,
/// never on this call.
#[verifier::external_body]
pub(crate) fn fresh_token_value() -> u64 {
    rand::random::<u64>()
}

} // verus!
