//! The wall clock, read through `chrono`.

use vstd::prelude::*;

verus! {

/// Reads `chrono::Utc::now()` and returns it as milliseconds since the Unix
/// epoch (`timestamp_millis`). The value depends on the moment of the call;
/// only that it is not negative is stated (`Utc::now` takes the time since
/// the epoch, and stops the program for a clock set before it).
#[verifier::external_body]
pub(crate) fn now_millis() -> (t: i64)
    ensures
        t >= 0,
{
    chrono::Utc::now().timestamp_millis()
}

} // verus!
