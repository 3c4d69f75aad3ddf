//! The wall clock, which stamps synthesized crash logs.

use vstd::prelude::*;

verus! {

/// Relies on chrono's `Utc::now`, read through `DateTime::timestamp_millis`:
/// the current time in milliseconds since the Unix epoch. `Utc::now` takes
/// the system time as a duration since the epoch (it panics on a clock set
/// before 1970), so the value is never negative.
#[verifier::external_body]
pub(crate) fn now_millis() -> (r: i64)
    ensures
        r >= 0,
{
    chrono::Utc::now().timestamp_millis()
}

} // verus!
