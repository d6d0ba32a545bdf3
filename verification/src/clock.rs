//! The wall clock.
use vstd::prelude::*;

verus! {

/// The current time as milliseconds since the Unix epoch, read with `chrono::Utc::now`.
/// The clock is outside the library: nothing is stated of the value.
#[verifier::external_body]
pub(crate) fn now_millis() -> i64 {
    chrono::Utc::now().timestamp_millis()
}

} // verus!
