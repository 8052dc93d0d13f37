//! The column type declarations that the host sees.

use vstd::prelude::*;
use super::PgInterval;

verus! {

/// The common base of all column type declarations. It declares no type by
/// itself.
#[derive(Clone, Copy, Debug, Default, PartialEq, Eq)]
pub struct PyColumnTypeMeta {}

/// The interval fields that a host constant stands for: the constants count
/// the fields from 0, in the order of [`PgInterval`].
pub open spec fn interval_of(constant: int) -> Option<PgInterval> {
    if constant == 0 {
        Some(PgInterval::Year)
    } else if constant == 1 {
        Some(PgInterval::Month)
    } else if constant == 2 {
        Some(PgInterval::Day)
    } else if constant == 3 {
        Some(PgInterval::Hour)
    } else if constant == 4 {
        Some(PgInterval::Minute)
    } else if constant == 5 {
        Some(PgInterval::Second)
    } else if constant == 6 {
        Some(PgInterval::YearToMonth)
    } else if constant == 7 {
        Some(PgInterval::DayToHour)
    } else if constant == 8 {
        Some(PgInterval::DayToMinute)
    } else if constant == 9 {
        Some(PgInterval::DayToSecond)
    } else if constant == 10 {
        Some(PgInterval::HourToMinute)
    } else if constant == 11 {
        Some(PgInterval::HourToSecond)
    } else if constant == 12 {
        Some(PgInterval::MinuteToSecond)
    } else {
        None
    }
}

/// The interval fields for a host constant, or an error where the number is
/// none of the constants.
pub fn into_pginterval(constant: u8) -> (r: Result<PgInterval, ()>)
    ensures
        match r {
            Ok(fields) => interval_of(constant as int) == Some(fields),
            Err(_) => interval_of(constant as int) is None,
        },
{
    match constant {
        0 => Ok(PgInterval::Year),
        1 => Ok(PgInterval::Month),
        2 => Ok(PgInterval::Day),
        3 => Ok(PgInterval::Hour),
        4 => Ok(PgInterval::Minute),
        5 => Ok(PgInterval::Second),
        6 => Ok(PgInterval::YearToMonth),
        7 => Ok(PgInterval::DayToHour),
        8 => Ok(PgInterval::DayToMinute),
        9 => Ok(PgInterval::DayToSecond),
        10 => Ok(PgInterval::HourToMinute),
        11 => Ok(PgInterval::HourToSecond),
        12 => Ok(PgInterval::MinuteToSecond),
        _ => Err(()),
    }
}

/// The host constant that stands for the interval fields.
pub fn interval_constant(fields: PgInterval) -> (r: u8)
    ensures
        interval_of(r as int) == Some(fields),
{
    match fields {
        PgInterval::Year => 0,
        PgInterval::Month => 1,
        PgInterval::Day => 2,
        PgInterval::Hour => 3,
        PgInterval::Minute => 4,
        PgInterval::Second => 5,
        PgInterval::YearToMonth => 6,
        PgInterval::DayToHour => 7,
        PgInterval::DayToMinute => 8,
        PgInterval::DayToSecond => 9,
        PgInterval::HourToMinute => 10,
        PgInterval::HourToSecond => 11,
        PgInterval::MinuteToSecond => 12,
    }
}

} // verus!
