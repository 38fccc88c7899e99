//! The wall clock.

use vstd::prelude::*;

verus! {

/// Calls `chrono::Utc::now` and `timestamp_millis` on what it returns: the milliseconds
/// since 1970 by the clock of the machine. The contract claims that they are not negative: for a
/// clock that stands before 1970, `now` does not return. What the reading is depends on the time
/// alone.
#[verifier::external_body]
pub(crate) fn utc_now_millis() -> (ms: i64)
    ensures
        0 <= ms,
{
    chrono::Utc::now().timestamp_millis()
}

} // verus!
