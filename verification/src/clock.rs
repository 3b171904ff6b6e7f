//! The one place where the library reads the wall clock.

use vstd::prelude::*;

verus! {

/// Seconds since the Unix epoch, as `chrono::Utc::now().timestamp()` reports
/// them. Trusted: the reading is not negative (`Utc::now` takes the time
/// that has passed since the epoch, and stops the process when the system
/// clock stands before 1970). Nothing else is claimed of the value: it
/// changes from call to call, and every caller is verified for whatever
/// comes back.
#[verifier::external_body]
pub(crate) fn unix_now() -> (now: i64)
    ensures
        0 <= now,
{
    chrono::Utc::now().timestamp()
}

} // verus!
