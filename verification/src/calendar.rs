//! Calendar dates, times of day and offsets from UTC, as plain fields.
//!
//! The engine's dates and times are those of the `chrono` crate. The library
//! holds them by their fields and asks `chrono` which combinations exist.

use vstd::prelude::*;

verus! {

/// The first year that the engine's calendar holds.
pub const MIN_YEAR: i32 = -262143;

/// The last year that the engine's calendar holds.
pub const MAX_YEAR: i32 = 262142;

/// The first year that the host's calendar holds.
pub const HOST_MIN_YEAR: i32 = 1;

/// The last year that the host's calendar holds.
pub const HOST_MAX_YEAR: i32 = 9999;

/// Whether `year` is a leap year of the proleptic Gregorian calendar.
pub open spec fn is_leap_year(year: int) -> bool {
    year % 4 == 0 && (year % 100 != 0 || year % 400 == 0)
}

/// The number of days of `month` in `year`, and 0 where there is no such month.
pub open spec fn days_in_month(year: int, month: int) -> int {
    if month == 2 {
        if is_leap_year(year) {
            29
        } else {
            28
        }
    } else if month == 4 || month == 6 || month == 9 || month == 11 {
        30
    } else if 1 <= month <= 12 {
        31
    } else {
        0
    }
}

/// Whether the engine's calendar holds the day.
pub open spec fn date_exists(year: int, month: int, day: int) -> bool {
    MIN_YEAR <= year <= MAX_YEAR && 1 <= month <= 12 && 1 <= day <= days_in_month(year, month)
}

/// Whether the time of day exists, its fraction given in `unit`s of which
/// `per_second` make a second. The fraction may run into a second of its own
/// to stand for a leap second, and then only in the last second of a minute.
pub open spec fn time_exists(hour: int, minute: int, second: int, fraction: int, per_second: int) -> bool {
    0 <= hour < 24 && 0 <= minute < 60 && 0 <= second < 60 && 0 <= fraction < 2 * per_second && (
    fraction < per_second || second == 59)
}

/// Whether an offset from UTC, in seconds, is less than a day.
pub open spec fn offset_exists(seconds: int) -> bool {
    -86_400 < seconds < 86_400
}

/// A calendar day.
#[derive(Clone, Copy, Debug, PartialEq, Eq, PartialOrd, Ord, Hash, Structural)]
pub struct Date {
    pub year: i32,
    pub month: u32,
    pub day: u32,
}

impl Date {
    /// Whether the engine's calendar holds the day.
    pub open spec fn valid(self) -> bool {
        date_exists(self.year as int, self.month as int, self.day as int)
    }

    /// Whether the host's calendar has the year.
    pub open spec fn in_host_range(self) -> bool {
        HOST_MIN_YEAR <= self.year <= HOST_MAX_YEAR
    }
}

/// A time of day as the host gives it, to the microsecond.
#[derive(Clone, Copy, Debug, PartialEq, Eq, Structural)]
pub struct HostTime {
    pub hour: u32,
    pub minute: u32,
    pub second: u32,
    pub microsecond: u32,
}

impl HostTime {
    /// Whether the engine has this time of day.
    pub open spec fn valid(self) -> bool {
        time_exists(
            self.hour as int,
            self.minute as int,
            self.second as int,
            self.microsecond as int,
            1_000_000,
        )
    }
}

/// A time of day as the engine holds it, to the nanosecond.
#[derive(Clone, Copy, Debug, PartialEq, Eq, PartialOrd, Ord, Hash, Structural)]
pub struct EngineTime {
    pub hour: u32,
    pub minute: u32,
    pub second: u32,
    pub nanosecond: u32,
}

impl EngineTime {
    /// Whether the time of day exists.
    pub open spec fn valid(self) -> bool {
        time_exists(
            self.hour as int,
            self.minute as int,
            self.second as int,
            self.nanosecond as int,
            1_000_000_000,
        )
    }

    /// The microsecond that the host gets: the nanoseconds cut down to whole
    /// microseconds, a leap second taken off.
    pub open spec fn host_microsecond(self) -> int {
        if self.nanosecond >= 1_000_000_000 {
            (self.nanosecond - 1_000_000_000) / 1000
        } else {
            self.nanosecond as int / 1000
        }
    }

    /// Seconds since midnight.
    pub open spec fn second_of_day(self) -> int {
        self.hour * 3600 + self.minute * 60 + self.second
    }
}

/// A day and a time of day without a time zone.
#[derive(Clone, Copy, Debug, PartialEq, Eq, PartialOrd, Ord, Hash, Structural)]
pub struct EngineDateTime {
    pub date: Date,
    pub time: EngineTime,
}

impl EngineDateTime {
    /// Whether both parts exist.
    pub open spec fn valid(self) -> bool {
        self.date.valid() && self.time.valid()
    }
}

/// A local day and time of day together with its offset from UTC in seconds,
/// east of Greenwich counted positive.
#[derive(Clone, Copy, Debug, PartialEq, Eq, PartialOrd, Ord, Hash, Structural)]
pub struct EngineZoned {
    pub local: EngineDateTime,
    pub offset: i32,
}

/// Whether the local time, moved to UTC by taking off `offset`, still lies in
/// the engine's calendar. The move changes the day by one at most, so it
/// fails only on the first and on the last day of the calendar.
pub open spec fn instant_exists(local: EngineDateTime, offset: int) -> bool {
    let shifted = local.time.second_of_day() - offset;
    &&& !(shifted < 0 && local.date.year == MIN_YEAR && local.date.month == 1 && local.date.day
        == 1)
    &&& !(shifted >= 86_400 && local.date.year == MAX_YEAR && local.date.month == 12
        && local.date.day == 31)
}

impl EngineZoned {
    /// Whether the local time and the offset exist and the instant lies in
    /// the engine's calendar.
    pub open spec fn valid(self) -> bool {
        self.local.valid() && offset_exists(self.offset as int) && instant_exists(
            self.local,
            self.offset as int,
        )
    }
}

/// The number of leap years before `year`, counted from a year long before
/// the calendar begins; what counts is that it grows by one past each leap
/// year.
pub open spec fn leap_years_before(year: int) -> int {
    (year - 1) / 4 - (year - 1) / 100 + (year - 1) / 400
}

/// The number of days of `year` before its month `month`.
pub open spec fn days_before_month(year: int, month: int) -> int
    decreases month,
{
    if month <= 1 {
        0
    } else {
        days_before_month(year, month - 1) + days_in_month(year, month - 1)
    }
}

/// The number of a day, counted so that each day has the number after that
/// of the day before it.
pub open spec fn day_number(d: Date) -> int {
    365 * d.year + leap_years_before(d.year as int) + days_before_month(
        d.year as int,
        d.month as int,
    ) + d.day
}

/// The second in which an instant falls, counted from the start of day 0 at
/// UTC: the local time with the offset taken off.
pub open spec fn instant_second(z: EngineZoned) -> int {
    day_number(z.local.date) * 86_400 + z.local.time.second_of_day() - z.offset
}

/// Whether two local times at their offsets are the same instant: the same
/// second at UTC, and the same fraction of it.
pub open spec fn same_instant(a: EngineZoned, b: EngineZoned) -> bool {
    instant_second(a) == instant_second(b) && a.local.time.nanosecond == b.local.time.nanosecond
}

/// The time zone of a host datetime.
#[derive(Clone, Copy, Debug, PartialEq, Eq, Structural)]
pub enum HostZone {
    /// The datetime carries no time zone.
    Naive,
    /// The time zone is a fixed offset from UTC, in seconds.
    Fixed(i32),
    /// The time zone's offset depends on the date.
    Variable,
}

/// A host datetime.
#[derive(Clone, Copy, Debug, PartialEq, Eq, Structural)]
pub struct HostDateTime {
    pub date: Date,
    pub time: HostTime,
    pub zone: HostZone,
}

/// Asks `chrono` whether the calendar day exists.
///
/// Trusted: `NaiveDate::from_ymd_opt` gives a date exactly for the days of the
/// proleptic Gregorian calendar from year -262143 to year 262142.
#[verifier::external_body]
pub(crate) fn chrono_has_date(year: i32, month: u32, day: u32) -> (r: bool)
    ensures
        r == date_exists(year as int, month as int, day as int),
{
    chrono::NaiveDate::from_ymd_opt(year, month, day).is_some()
}

/// Asks `chrono` whether the time of day exists.
///
/// Trusted: `NaiveTime::from_hms_micro_opt` gives a time exactly where hour,
/// minute and second are in range and the microseconds are below one million,
/// or below two million in the last second of a minute.
#[verifier::external_body]
pub(crate) fn chrono_has_time(hour: u32, minute: u32, second: u32, microsecond: u32) -> (r: bool)
    ensures
        r == time_exists(hour as int, minute as int, second as int, microsecond as int, 1_000_000),
{
    chrono::NaiveTime::from_hms_micro_opt(hour, minute, second, microsecond).is_some()
}

/// Asks `chrono` whether the offset from UTC exists.
///
/// Trusted: `FixedOffset::east_opt` gives an offset exactly for a number of
/// seconds strictly between minus and plus one day.
#[verifier::external_body]
pub(crate) fn chrono_has_offset(seconds: i32) -> (r: bool)
    ensures
        r == offset_exists(seconds as int),
{
    chrono::FixedOffset::east_opt(seconds).is_some()
}

/// Asks `chrono` whether a local time at a fixed offset is an instant of its
/// calendar.
///
/// Trusted: for a fixed offset `NaiveDateTime::and_local_timezone` takes the
/// offset off the local time and fails only where that leaves the calendar,
/// which is what [`instant_exists`] says.
#[verifier::external_body]
pub(crate) fn chrono_has_instant(local: &EngineDateTime, offset: i32) -> (r: bool)
    requires
        local.valid(),
        offset_exists(offset as int),
    ensures
        r == instant_exists(*local, offset as int),
{
    let date = chrono::NaiveDate::from_ymd_opt(local.date.year, local.date.month, local.date.day);
    let time = chrono::NaiveTime::from_hms_nano_opt(
        local.time.hour,
        local.time.minute,
        local.time.second,
        local.time.nanosecond,
    );
    match (date, time, chrono::FixedOffset::east_opt(offset)) {
        (Some(d), Some(t), Some(z)) => d.and_time(t).and_local_timezone(z).single().is_some(),
        _ => false,
    }
}

/// Asks `chrono` whether two datetimes at an offset are equal, with its
/// `==`.
///
/// Trusted: `DateTime`'s `PartialEq` compares the two times at UTC, day,
/// second and fraction, whatever the offsets, which is what [`same_instant`]
/// says.
#[verifier::external_body]
pub(crate) fn chrono_same_instant(a: &EngineZoned, b: &EngineZoned) -> (r: bool)
    requires
        a.valid(),
        b.valid(),
    ensures
        r == same_instant(*a, *b),
{
    let (p, q) = (&a.local, &b.local);
    let x = chrono::NaiveDate::from_ymd_opt(p.date.year, p.date.month, p.date.day).unwrap()
        .and_hms_nano_opt(p.time.hour, p.time.minute, p.time.second, p.time.nanosecond).unwrap()
        .and_local_timezone(chrono::FixedOffset::east_opt(a.offset).unwrap()).unwrap();
    let y = chrono::NaiveDate::from_ymd_opt(q.date.year, q.date.month, q.date.day).unwrap()
        .and_hms_nano_opt(q.time.hour, q.time.minute, q.time.second, q.time.nanosecond).unwrap()
        .and_local_timezone(chrono::FixedOffset::east_opt(b.offset).unwrap()).unwrap();
    x == y
}

} // verus!
