//! The clock: instants in UTC as plain numbers.

use chrono::{Datelike, Timelike};
use vstd::prelude::*;

verus! {

/// An instant on the UTC time line: whole seconds since 1970-01-01T00:00:00Z
/// and the nanoseconds into that second.
#[derive(Clone, Copy, Debug, PartialEq, Eq, Structural)]
pub struct Timestamp {
    pub unix_seconds: i64,
    pub subsec_nanos: u32,
}

/// A reading of the UTC wall clock: the instant, and the calendar fields of
/// that instant which the presence rules look at.
#[derive(Clone, Copy, Debug, PartialEq, Eq, Structural)]
pub struct WallClock {
    pub timestamp: Timestamp,
    /// Day of the week, counted from Sunday = 0.
    pub weekday: u8,
    /// Hour of the day, 0 to 23.
    pub hour: u8,
    /// Minute of the hour, 0 to 59.
    pub minute: u8,
}

impl WallClock {
    /// The calendar fields are within their ranges.
    pub open spec fn wf(&self) -> bool {
        &&& self.weekday < 7
        &&& self.hour < 24
        &&& self.minute < 60
    }

    /// Minutes since midnight.
    pub open spec fn minute_of_day(&self) -> int {
        self.hour as int * 60 + self.minute as int
    }

    /// The present moment, read from the system clock.
    pub fn now() -> (now: WallClock)
        ensures
            now.wf(),
    {
        utc_now()
    }
}

/// Trusted: reads the system clock with std's `SystemTime::now`, turns the
/// reading into a `chrono::DateTime<Utc>` with chrono's `From<SystemTime>`,
/// and takes that apart with chrono's `DateTime::timestamp`,
/// `DateTime::timestamp_subsec_nanos`, `Datelike::weekday` (then
/// `Weekday::num_days_from_sunday`), `Timelike::hour` and `Timelike::minute`.
/// The conversion takes instants before 1970 as well as after. The contract
/// claims only the ranges that chrono documents for the three calendar
/// fields; nothing is claimed about which instant is read.
#[verifier::external_body]
pub(crate) fn utc_now() -> (now: WallClock)
    ensures
        now.wf(),
{
    let now = chrono::DateTime::<chrono::Utc>::from(std::time::SystemTime::now());
    WallClock {
        timestamp: Timestamp {
            unix_seconds: now.timestamp(),
            subsec_nanos: now.timestamp_subsec_nanos(),
        },
        weekday: now.weekday().num_days_from_sunday() as u8,
        hour: now.hour() as u8,
        minute: now.minute() as u8,
    }
}

} // verus!
