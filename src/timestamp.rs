use chrono::{Datelike, Offset, TimeZone, Timelike};
use vstd::prelude::*;

verus! {

/// A point in time with the UTC offset it was recorded in, held as plain
/// calendar fields. `offset` is in seconds east of UTC.
#[derive(Clone, Copy, Debug, PartialEq, Eq)]
pub struct Timestamp {
    pub year: i32,
    pub month: u32,
    pub day: u32,
    pub hour: u32,
    pub minute: u32,
    pub second: u32,
    pub nanosecond: u32,
    pub offset: i32,
}

pub open spec fn is_leap_year(y: int) -> bool {
    (y % 4 == 0 && y % 100 != 0) || y % 400 == 0
}

pub open spec fn days_in_month(y: int, m: int) -> int {
    if m == 2 {
        if is_leap_year(y) { 29 } else { 28 }
    } else if m == 4 || m == 6 || m == 9 || m == 11 {
        30
    } else {
        31
    }
}

/// The RFC 3339 text of a timestamp, offset kept as recorded.
pub uninterp spec fn rfc3339_of(t: Timestamp) -> Seq<char>;

impl Timestamp {
    /// A calendar date and a time of day that exist, in a year that RFC 3339
    /// can write with four digits, at an offset of less than a day.
    pub open spec fn wf(self) -> bool {
        &&& 0 <= self.year <= 9999
        &&& 1 <= self.month <= 12
        &&& 1 <= self.day <= days_in_month(self.year as int, self.month as int)
        &&& self.hour < 24
        &&& self.minute < 60
        &&& self.second < 60
        &&& self.nanosecond < 1_000_000_000
        &&& -86_400 < self.offset < 86_400
    }

    pub fn is_valid(&self) -> (r: bool)
        ensures
            r == self.wf(),
    {
        let leap = (self.year % 4 == 0 && self.year % 100 != 0) || self.year % 400 == 0;
        let days: u32 = if self.month == 2 {
            if leap { 29 } else { 28 }
        } else if self.month == 4 || self.month == 6 || self.month == 9 || self.month == 11 {
            30
        } else {
            31
        };
        0 <= self.year && self.year <= 9999 && 1 <= self.month && self.month <= 12 && 1 <= self.day
            && self.day <= days && self.hour < 24 && self.minute < 60 && self.second < 60
            && self.nanosecond < 1_000_000_000 && -86_400 < self.offset && self.offset < 86_400
    }

    /// Relies on chrono's `DateTime::to_rfc3339`, on the date and time that
    /// the fields give at the fixed offset they give.
    #[verifier::external_body]
    pub fn to_rfc3339(&self) -> (r: String)
        requires
            self.wf(),
        ensures
            r@ == rfc3339_of(*self),
    {
        let offset = chrono::FixedOffset::east_opt(self.offset).unwrap();
        let naive = chrono::NaiveDate::from_ymd_opt(self.year, self.month, self.day).unwrap()
            .and_hms_nano_opt(self.hour, self.minute, self.second, self.nanosecond).unwrap();
        offset.from_local_datetime(&naive).unwrap().to_rfc3339()
    }
}

/// Relies on chrono's `Local::now`: the current time at the local offset.
/// Nothing is known of the value that comes back.
#[verifier::external_body]
pub(crate) fn local_now() -> (r: Timestamp) {
    let now = chrono::Local::now();
    Timestamp {
        year: now.year(),
        month: now.month(),
        day: now.day(),
        hour: now.hour(),
        minute: now.minute(),
        second: now.second(),
        nanosecond: now.nanosecond(),
        offset: now.offset().fix().local_minus_utc(),
    }
}

} // verus!
