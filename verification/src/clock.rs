//! The one place where the library reads the system clock.

use chrono::{Datelike, Local, Timelike};
use vstd::prelude::*;

verus! {

/// Reads the local wall clock once, with `chrono::Local::now`, and returns
/// the day of that instant as `Weekday::num_days_from_monday` gives it and
/// its time of day as `Timelike::num_seconds_from_midnight` gives it.
///
/// Trusted, not proved: chrono numbers the days from Monday as 0 to 6, and
/// it keeps the seconds of a `NaiveTime` below 86400 (a leap second is held
/// in the nanoseconds, not in the seconds).  Nothing is claimed about which
/// instant is read.
///
/// `Local::now` panics where the system clock stands before 1970 or the
/// time zone data of the machine cannot be used.  Both are faults of the
/// machine that no argument of this function could rule out.
#[verifier::external_body]
pub(crate) fn local_day_and_seconds() -> (reading: (u32, u32))
    ensures
        reading.0 < 7,
        reading.1 < 86_400,
{
    let now = Local::now();
    (now.weekday().num_days_from_monday(), now.time().num_seconds_from_midnight())
}

} // verus!
