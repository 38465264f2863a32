use chrono::{Datelike, Timelike};
use vstd::prelude::*;

verus! {

/// A day of the proleptic Gregorian calendar.
#[derive(Debug, Clone, Copy, PartialEq, Eq, Structural)]
pub struct CalendarDate {
    pub year: i32,
    pub month: u32,
    pub day: u32,
}

/// A time of day. `nanosecond` reaches past one second only on a leap second.
#[derive(Debug, Clone, Copy, PartialEq, Eq, Structural)]
pub struct ClockTime {
    pub hour: u32,
    pub minute: u32,
    pub second: u32,
    pub nanosecond: u32,
}

/// A date and a time of day, with no time zone.
#[derive(Debug, Clone, Copy, PartialEq, Eq, Structural)]
pub struct Timestamp {
    pub date: CalendarDate,
    pub time: ClockTime,
}

/// The date that chrono reads from `s` in the form `%Y-%m-%d`, if it reads one.
pub uninterp spec fn date_from_text(s: Seq<char>) -> Option<CalendarDate>;

/// The time that chrono reads from `s` in the form `%H:%M:%S`, if it reads one.
pub uninterp spec fn time_from_text(s: Seq<char>) -> Option<ClockTime>;

/// The UTC date and time `secs` seconds after the Unix epoch, if chrono can
/// represent it.
pub uninterp spec fn time_from_unix(secs: int) -> Option<Timestamp>;

/// Relies on chrono's `NaiveDate::parse_from_str` with the format `%Y-%m-%d`:
/// whether it reads a date depends on the text alone.
#[verifier::external_body]
pub(crate) fn parse_date(s: &str) -> (r: Option<CalendarDate>)
    ensures
        r == date_from_text(s@),
{
    match chrono::NaiveDate::parse_from_str(s, "%Y-%m-%d") {
        Ok(d) => Some(CalendarDate { year: d.year(), month: d.month(), day: d.day() }),
        Err(_) => None,
    }
}

/// Relies on chrono's `NaiveTime::parse_from_str` with the format `%H:%M:%S`:
/// whether it reads a time depends on the text alone.
#[verifier::external_body]
pub(crate) fn parse_time(s: &str) -> (r: Option<ClockTime>)
    ensures
        r == time_from_text(s@),
{
    match chrono::NaiveTime::parse_from_str(s, "%H:%M:%S") {
        Ok(t) => {
            let (hour, minute, second) = (t.hour(), t.minute(), t.second());
            Some(ClockTime { hour, minute, second, nanosecond: t.nanosecond() })
        },
        Err(_) => None,
    }
}

/// Relies on chrono's `DateTime::from_timestamp` with no nanoseconds, which
/// returns `None` when the instant is out of its range and never panics.
#[verifier::external_body]
pub(crate) fn from_unix_seconds(secs: i64) -> (r: Option<Timestamp>)
    ensures
        r == time_from_unix(secs as int),
{
    match chrono::DateTime::from_timestamp(secs, 0) {
        Some(dt) => {
            let (d, t) = (dt.date_naive(), dt.time());
            let date = CalendarDate { year: d.year(), month: d.month(), day: d.day() };
            let (hour, minute, second) = (t.hour(), t.minute(), t.second());
            let time = ClockTime { hour, minute, second, nanosecond: t.nanosecond() };
            Some(Timestamp { date, time })
        },
        None => None,
    }
}

} // verus!
