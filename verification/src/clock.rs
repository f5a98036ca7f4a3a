//! The system clock.

use vstd::prelude::*;

verus! {

/// Milliseconds since the Unix epoch by the system clock: the reading of
/// `std::time::SystemTime::now()`, turned into a `chrono::DateTime<Utc>` by its
/// `From<SystemTime>` impl (which takes readings before the epoch as negative
/// offsets rather than failing; it fails only on a reading outside chrono's
/// representable range of dates, hundreds of millennia away) and then
/// `timestamp_millis()`. Nothing is
/// claimed of the value: it is whatever the clock reads.
#[verifier::external_body]
pub(crate) fn clock_millis() -> (t: i64) {
    chrono::DateTime::<chrono::Utc>::from(std::time::SystemTime::now()).timestamp_millis()
}

} // verus!
