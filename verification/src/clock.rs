//! The clock, the calendar and the local time zone, all read through
//! `chrono`.

use vstd::prelude::*;
use chrono::{Datelike, Local, MappedLocalTime, NaiveDate, NaiveTime, TimeZone, Timelike};
use crate::date::{CivilDate, ClockTime, LocalInstant, LocalTimes, WallTime};

verus! {

/// What `chrono` reads from a text under the format `%H:%M`: hour and
/// minute, or `None` where it rejects the text.
pub uninterp spec fn clock_time(text: Seq<char>) -> Option<(u32, u32)>;

/// `chrono::NaiveTime::parse_from_str` with the format `%H:%M`, whose
/// result is a function of the text alone. Hour and minute are copied out
/// of the time that `chrono` read.
#[verifier::external_body]
pub(crate) fn parse_clock_time(text: &str) -> (r: Option<ClockTime>)
    ensures
        match r {
            Some(t) => clock_time(text@) == Some((t.hour, t.minute)),
            None => clock_time(text@) is None,
        },
{
    match NaiveTime::parse_from_str(text, "%H:%M") {
        Ok(time) => Some(ClockTime { hour: time.hour(), minute: time.minute() }),
        Err(_) => None,
    }
}

/// `chrono::NaiveDate::from_ymd_opt`, then `pred_opt`: the calendar day
/// before `date`. `chrono` makes no date of a day that the proleptic
/// Gregorian calendar lacks or whose year lies outside -262143..=262142, and
/// its first date has no day before it.
#[verifier::external_body]
pub(crate) fn previous_day(date: CivilDate) -> (r: Option<CivilDate>)
    ensures
        r == date.before(),
{
    NaiveDate::from_ymd_opt(date.year, date.month, date.day)
        .and_then(|day| day.pred_opt())
        .map(|day| CivilDate { year: day.year(), month: day.month(), day: day.day() })
}

/// `chrono::NaiveDate::from_ymd_opt`, then `succ_opt`: the calendar day
/// after `date`. `chrono` makes no date of a day that the proleptic
/// Gregorian calendar lacks or whose year lies outside -262143..=262142, and
/// its last date has no day after it.
#[verifier::external_body]
pub(crate) fn next_day(date: CivilDate) -> (r: Option<CivilDate>)
    ensures
        r == date.after(),
{
    NaiveDate::from_ymd_opt(date.year, date.month, date.day)
        .and_then(|day| day.succ_opt())
        .map(|day| CivilDate { year: day.year(), month: day.month(), day: day.day() })
}

/// `chrono::Local::now`: the current instant, with what the local wall
/// clock shows at it. Nothing is promised of it.
#[verifier::external_body]
pub(crate) fn now() -> LocalInstant {
    let t = Local::now();
    LocalInstant {
        wall: WallTime {
            date: CivilDate { year: t.year(), month: t.month(), day: t.day() },
            hour: t.hour(),
            minute: t.minute(),
            second: t.second(),
        },
        seconds: t.timestamp(),
        nanos: t.timestamp_subsec_nanos(),
    }
}

/// `chrono::TimeZone::with_ymd_and_hms` on `chrono::Local`: the instants
/// at which the local wall clock shows `wall`, each as seconds since 1970.
/// How many there are and which they are rests with the machine's time
/// zone; `chrono` gives none for a day that the calendar lacks or a time
/// that the clock lacks.
#[verifier::external_body]
pub(crate) fn local_timestamps(wall: WallTime) -> (r: LocalTimes)
    ensures
        !(r is Never) ==> wall.is_valid(),
{
    let date = wall.date;
    match Local.with_ymd_and_hms(date.year, date.month, date.day, wall.hour, wall.minute, wall.second) {
        MappedLocalTime::None => LocalTimes::Never,
        MappedLocalTime::Single(t) => LocalTimes::Once(t.timestamp()),
        MappedLocalTime::Ambiguous(a, b) => LocalTimes::Twice(a.timestamp(), b.timestamp()),
    }
}

} // verus!
