//! The date grammar of the platform: `<DATE>, <TIME>`, where the date is a
//! relative word or `D. MONTH YYYY`, in German or English, and the time is
//! `HH:MM`. A text is first read into a wall-clock time; the local time zone
//! then says which instant that is.

use vstd::prelude::*;
use vstd::string::*;
use crate::clock::{
    clock_time, local_timestamps, next_day, now, parse_clock_time, previous_day,
};
use crate::text::{
    count_digits, decimal_value, find_char_from, index_of, is_number, lemma_skip_digits_bounds,
    parse_decimal, skip_digits, str_eq, trim, trimmed,
};

verus! {

/// A day of the proleptic Gregorian calendar, as written: nothing says that
/// the day exists.
#[derive(Clone, Copy, Debug, PartialEq, Eq, Structural)]
pub struct CivilDate {
    pub year: i32,
    pub month: u32,
    pub day: u32,
}

/// Hour and minute on a 24-hour clock.
#[derive(Clone, Copy, Debug, PartialEq, Eq, Structural)]
pub struct ClockTime {
    pub hour: u32,
    pub minute: u32,
}

/// A day and a time on it, as a clock on the wall shows them.
#[derive(Clone, Copy, Debug, PartialEq, Eq, Structural)]
pub struct WallTime {
    pub date: CivilDate,
    pub hour: u32,
    pub minute: u32,
    pub second: u32,
}

/// An instant: what the local wall clock shows at it, and where it lies on
/// the time line, in whole seconds since 1970-01-01T00:00:00Z and the
/// nanoseconds that follow them.
#[derive(Clone, Copy, Debug, PartialEq, Eq, Structural)]
pub struct LocalInstant {
    pub wall: WallTime,
    pub seconds: i64,
    pub nanos: u32,
}

/// The instants at which the local wall clock shows one time, each as
/// seconds since 1970: none where the clock is put forward over the time,
/// two where it is put back over it.
#[derive(Clone, Copy, Debug, PartialEq, Eq, Structural)]
pub enum LocalTimes {
    Never,
    Once(i64),
    Twice(i64, i64),
}

/// Why a text is no date of the platform.
#[derive(Clone, Copy, Debug, PartialEq, Eq, Structural)]
pub enum DateError {
    /// No comma parts the date from the time.
    MissingSeparator,
    /// What follows the comma is no time of day.
    InvalidTime,
    /// The date is no relative word and not of the form `D. MONTH YYYY`.
    InvalidDate,
    /// The day's digits write a number that is too large.
    InvalidDay,
    /// The month is none of the known names.
    UnknownMonth,
    /// The year is no number, or one that is too large.
    InvalidYear,
    /// The calendar has no such day, or the local time zone has no instant
    /// for the wall-clock time.
    NoSuchInstant,
}

/// The day that a date text names.
#[derive(Clone, Copy, Debug, PartialEq, Eq, Structural)]
pub enum Day {
    Yesterday,
    Today,
    Tomorrow,
    On(CivilDate),
}

/// The first year of `chrono`'s calendar.
pub open spec fn first_year() -> int {
    -262_143
}

/// The last year of `chrono`'s calendar.
pub open spec fn last_year() -> int {
    262_142
}

/// Whether a year of the Gregorian calendar has a 29th of February.
pub open spec fn is_leap_year(year: int) -> bool {
    year % 4 == 0 && (year % 100 != 0 || year % 400 == 0)
}

/// The number of days of a month; 31 for a month that is none.
pub open spec fn days_in_month(year: int, month: int) -> int {
    if month == 2 {
        if is_leap_year(year) {
            29
        } else {
            28
        }
    } else if month == 4 || month == 6 || month == 9 || month == 11 {
        30
    } else {
        31
    }
}

impl CivilDate {
    /// Whether the calendar has this day.
    pub open spec fn is_valid(self) -> bool {
        1 <= self.month <= 12 && 1 <= self.day <= days_in_month(self.year as int, self.month as int)
    }

    /// Whether the day is one that `chrono` counts: the calendar has it,
    /// and its year lies between the first and the last year.
    pub open spec fn in_calendar(self) -> bool {
        self.is_valid() && first_year() <= self.year <= last_year()
    }

    /// The day before this one; none for a day outside the calendar and
    /// for the calendar's first day.
    pub open spec fn before(self) -> Option<CivilDate> {
        if !self.in_calendar() {
            None
        } else if self.day > 1 {
            Some(CivilDate { year: self.year, month: self.month, day: (self.day - 1) as u32 })
        } else if self.month > 1 {
            Some(
                CivilDate {
                    year: self.year,
                    month: (self.month - 1) as u32,
                    day: days_in_month(self.year as int, self.month - 1) as u32,
                },
            )
        } else if self.year > first_year() {
            Some(CivilDate { year: (self.year - 1) as i32, month: 12, day: 31 })
        } else {
            None
        }
    }

    /// The day after this one; none for a day outside the calendar and for
    /// the calendar's last day.
    pub open spec fn after(self) -> Option<CivilDate> {
        if !self.in_calendar() {
            None
        } else if self.day < days_in_month(self.year as int, self.month as int) {
            Some(CivilDate { year: self.year, month: self.month, day: (self.day + 1) as u32 })
        } else if self.month < 12 {
            Some(CivilDate { year: self.year, month: (self.month + 1) as u32, day: 1 })
        } else if self.year < last_year() {
            Some(CivilDate { year: (self.year + 1) as i32, month: 1, day: 1 })
        } else {
            None
        }
    }

    /// The day before this one, as `chrono` counts it.
    pub fn pred(self) -> (r: Option<CivilDate>)
        ensures
            r == self.before(),
    {
        previous_day(self)
    }

    /// The day after this one, as `chrono` counts it.
    pub fn succ(self) -> (r: Option<CivilDate>)
        ensures
            r == self.after(),
    {
        next_day(self)
    }
}

/// A neighbour of a day in the calendar is a day in the calendar, and the
/// two are each other's neighbours.
pub proof fn lemma_neighbours(date: CivilDate)
    ensures
        date.before() matches Some(d) ==> d.in_calendar() && d.after() == Some(date),
        date.after() matches Some(d) ==> d.in_calendar() && d.before() == Some(date),
{
}

impl WallTime {
    /// Whether the calendar has the day and the clock has the time.
    pub open spec fn is_valid(self) -> bool {
        self.date.is_valid() && self.hour < 24 && self.minute < 60 && self.second < 60
    }
}

impl LocalInstant {
    /// Whether `self` is `other` or comes before it on the time line.
    pub open spec fn is_not_after(self, other: LocalInstant) -> bool {
        self.seconds < other.seconds || (self.seconds == other.seconds && self.nanos
            <= other.nanos)
    }

    /// Whether `self` is `other` or comes before it on the time line.
    pub fn not_after(&self, other: &LocalInstant) -> (r: bool)
        ensures
            r == self.is_not_after(*other),
    {
        self.seconds < other.seconds || (self.seconds == other.seconds && self.nanos <= other.nanos)
    }
}

/// The number of a month, from 1, by its German or English short name.
pub open spec fn month_number(name: Seq<char>) -> Option<u32> {
    if name == "Jan"@ {
        Some(1)
    } else if name == "Feb"@ {
        Some(2)
    } else if name == "Mär"@ || name == "Mar"@ {
        Some(3)
    } else if name == "Apr"@ {
        Some(4)
    } else if name == "Mai"@ || name == "May"@ {
        Some(5)
    } else if name == "Jun"@ {
        Some(6)
    } else if name == "Jul"@ {
        Some(7)
    } else if name == "Aug"@ {
        Some(8)
    } else if name == "Sep"@ {
        Some(9)
    } else if name == "Okt"@ || name == "Oct"@ {
        Some(10)
    } else if name == "Nov"@ {
        Some(11)
    } else if name == "Dez"@ || name == "Dec"@ {
        Some(12)
    } else {
        None
    }
}

/// The number of a month, from 1, by its German or English short name.
pub fn month_from_name(name: &str) -> (r: Option<u32>)
    ensures
        r == month_number(name@),
{
    if str_eq(name, "Jan") {
        Some(1)
    } else if str_eq(name, "Feb") {
        Some(2)
    } else if str_eq(name, "Mär") || str_eq(name, "Mar") {
        Some(3)
    } else if str_eq(name, "Apr") {
        Some(4)
    } else if str_eq(name, "Mai") || str_eq(name, "May") {
        Some(5)
    } else if str_eq(name, "Jun") {
        Some(6)
    } else if str_eq(name, "Jul") {
        Some(7)
    } else if str_eq(name, "Aug") {
        Some(8)
    } else if str_eq(name, "Sep") {
        Some(9)
    } else if str_eq(name, "Okt") || str_eq(name, "Oct") {
        Some(10)
    } else if str_eq(name, "Nov") {
        Some(11)
    } else if str_eq(name, "Dez") || str_eq(name, "Dec") {
        Some(12)
    } else {
        None
    }
}

/// The day that a text of the form `D. MONTH YYYY` writes: a run of digits,
/// a full stop and a space, the month's name up to the next space, and the
/// year's digits up to the end.
pub open spec fn absolute_day(s: Seq<char>) -> Result<CivilDate, DateError> {
    let a = skip_digits(s, 0);
    let b = index_of(s, ' ', a + 2);
    if a == 0 || a + 1 >= s.len() || s[a] != '.' || s[a + 1] != ' ' || b == a + 2 || b + 1
        >= s.len() {
        Err(DateError::InvalidDate)
    } else {
        let day = s.subrange(0, a);
        let year = s.subrange(b + 1, s.len() as int);
        if decimal_value(day) > u32::MAX {
            Err(DateError::InvalidDay)
        } else {
            match month_number(s.subrange(a + 2, b)) {
                None => Err(DateError::UnknownMonth),
                Some(month) => if !is_number(year) || decimal_value(year) > i32::MAX {
                    Err(DateError::InvalidYear)
                } else {
                    Ok(
                        CivilDate {
                            year: decimal_value(year) as i32,
                            month,
                            day: decimal_value(day) as u32,
                        },
                    )
                },
            }
        }
    }
}

/// The day that a date text names: a relative word, or a day written out.
pub open spec fn named_day(s: Seq<char>) -> Result<Day, DateError> {
    if s == "Gestern"@ || s == "Yesterday"@ {
        Ok(Day::Yesterday)
    } else if s == "Heute"@ || s == "Today"@ {
        Ok(Day::Today)
    } else if s == "Morgen"@ || s == "Tomorrow"@ {
        Ok(Day::Tomorrow)
    } else {
        match absolute_day(s) {
            Ok(date) => Ok(Day::On(date)),
            Err(e) => Err(e),
        }
    }
}

/// The calendar day that `day` is when today is `today`.
pub open spec fn day_on(day: Day, today: CivilDate) -> Option<CivilDate> {
    match day {
        Day::Yesterday => today.before(),
        Day::Today => Some(today),
        Day::Tomorrow => today.after(),
        Day::On(date) => Some(date),
    }
}

/// The wall-clock time that the reading of a date and of a time give.
pub open spec fn wall_time_from(
    day: Result<Day, DateError>,
    time: Option<(u32, u32)>,
    today: CivilDate,
) -> Result<WallTime, DateError> {
    match time {
        None => Err(DateError::InvalidTime),
        Some((hour, minute)) => match day {
            Err(e) => Err(e),
            Ok(day) => match day_on(day, today) {
                None => Err(DateError::NoSuchInstant),
                Some(date) => Ok(WallTime { date, hour, minute, second: 0 }),
            },
        },
    }
}

/// The wall-clock time that `text` writes when today is `today`. The text
/// is parted at its first comma, and both parts are trimmed.
pub open spec fn wall_time(text: Seq<char>, today: CivilDate) -> Result<WallTime, DateError> {
    let k = index_of(text, ',', 0);
    if k >= text.len() {
        Err(DateError::MissingSeparator)
    } else {
        wall_time_from(
            named_day(trimmed(text.subrange(0, k))),
            clock_time(trimmed(text.subrange(k + 1, text.len() as int))),
            today,
        )
    }
}

/// What reading `text` at the instant `now` may give. A text that writes no
/// wall-clock time gives its error. One that does gives the instant with
/// that wall-clock time, or `NoSuchInstant` where the time zone has none.
pub open spec fn date_outcome(
    text: Seq<char>,
    now: LocalInstant,
    r: Result<LocalInstant, DateError>,
) -> bool {
    match wall_time(text, now.wall.date) {
        Err(e) => r == Err::<LocalInstant, DateError>(e),
        Ok(wall) => match r {
            Ok(instant) => instant.wall == wall && instant.nanos == 0 && wall.is_valid(),
            Err(e) => e == DateError::NoSuchInstant,
        },
    }
}

/// Reads a day that is written out as `D. MONTH YYYY`.
pub fn parse_absolute_day(text: &str) -> (r: Result<CivilDate, DateError>)
    ensures
        r == absolute_day(text@),
{
    let n: usize = text.unicode_len();
    let a: usize = count_digits(text);
    if a == 0 || n - a < 2 {
        return Err(DateError::InvalidDate);
    }
    if text.get_char(a) != '.' || text.get_char(a + 1) != ' ' {
        return Err(DateError::InvalidDate);
    }
    let b: usize = find_char_from(text, ' ', a + 2);
    if b == a + 2 || n - b < 2 {
        return Err(DateError::InvalidDate);
    }
    let day_text: &str = text.substring_char(0, a);
    let month_text: &str = text.substring_char(a + 2, b);
    let year_text: &str = text.substring_char(b + 1, n);
    proof {
        lemma_skip_digits_bounds(text@, 0);
        assert(is_number(day_text@));
    }
    let day: u64 = match parse_decimal(day_text, 0xFFFF_FFFF) {
        None => { return Err(DateError::InvalidDay); },
        Some(v) => v,
    };
    let month: u32 = match month_from_name(month_text) {
        None => { return Err(DateError::UnknownMonth); },
        Some(m) => m,
    };
    let year: u64 = match parse_decimal(year_text, 0x7FFF_FFFF) {
        None => { return Err(DateError::InvalidYear); },
        Some(v) => v,
    };
    Ok(CivilDate { year: year as i32, month, day: day as u32 })
}

/// Reads the date part of a text: a relative word or a day written out.
pub fn parse_day(text: &str) -> (r: Result<Day, DateError>)
    ensures
        r == named_day(text@),
{
    if str_eq(text, "Gestern") || str_eq(text, "Yesterday") {
        Ok(Day::Yesterday)
    } else if str_eq(text, "Heute") || str_eq(text, "Today") {
        Ok(Day::Today)
    } else if str_eq(text, "Morgen") || str_eq(text, "Tomorrow") {
        Ok(Day::Tomorrow)
    } else {
        match parse_absolute_day(text) {
            Ok(date) => Ok(Day::On(date)),
            Err(e) => Err(e),
        }
    }
}

/// Puts the reading of a date and the reading of a time together. A time
/// that was not read counts before a date that was not.
pub fn wall_time_of(day: Result<Day, DateError>, time: Option<ClockTime>, today: CivilDate) -> (r:
    Result<WallTime, DateError>)
    ensures
        r == wall_time_from(
            day,
            match time {
                Some(t) => Some((t.hour, t.minute)),
                None => None,
            },
            today,
        ),
{
    let time: ClockTime = match time {
        None => { return Err(DateError::InvalidTime); },
        Some(t) => t,
    };
    let day: Day = match day {
        Err(e) => { return Err(e); },
        Ok(d) => d,
    };
    let on: Option<CivilDate> = match day {
        Day::Yesterday => today.pred(),
        Day::Today => Some(today),
        Day::Tomorrow => today.succ(),
        Day::On(date) => Some(date),
    };
    match on {
        None => Err(DateError::NoSuchInstant),
        Some(date) => Ok(WallTime { date, hour: time.hour, minute: time.minute, second: 0 }),
    }
}

impl LocalTimes {
    /// The earliest of the instants, where there is one.
    pub open spec fn first(self) -> Option<i64> {
        match self {
            LocalTimes::Never => None,
            LocalTimes::Once(t) => Some(t),
            LocalTimes::Twice(a, b) => if a <= b {
                Some(a)
            } else {
                Some(b)
            },
        }
    }

    /// The earliest of the instants, where there is one.
    pub fn earliest(self) -> (r: Option<i64>)
        ensures
            r == self.first(),
    {
        match self {
            LocalTimes::Never => None,
            LocalTimes::Once(t) => Some(t),
            LocalTimes::Twice(a, b) => if a <= b {
                Some(a)
            } else {
                Some(b)
            },
        }
    }
}

/// The instant of a day and a wall-clock time on it, given what the time
/// zone has for the day's midnight and for the time. A day that is written
/// out must begin in the time zone: without an instant for its midnight it
/// has none at all. A relative day needs no midnight. Of two instants with
/// one wall-clock time the earlier is taken.
pub open spec fn instant_from(
    day: Day,
    wall: WallTime,
    midnight: LocalTimes,
    times: LocalTimes,
) -> Result<LocalInstant, DateError> {
    if day is On && midnight is Never {
        Err(DateError::NoSuchInstant)
    } else {
        match times.first() {
            Some(s) => Ok(LocalInstant { wall, seconds: s, nanos: 0 }),
            None => Err(DateError::NoSuchInstant),
        }
    }
}

/// The instant of a day and a wall-clock time on it, given the instants
/// that the time zone has for the day's midnight and for the time.
pub fn instant_of(day: Day, wall: WallTime, midnight: LocalTimes, times: LocalTimes) -> (r:
    Result<LocalInstant, DateError>)
    ensures
        r == instant_from(day, wall, midnight, times),
{
    if let Day::On(_) = day {
        if let LocalTimes::Never = midnight {
            return Err(DateError::NoSuchInstant);
        }
    }
    match times.earliest() {
        Some(s) => Ok(LocalInstant { wall, seconds: s, nanos: 0 }),
        None => Err(DateError::NoSuchInstant),
    }
}

/// Reads a date of the platform, with relative words counted from `now`.
/// A day that is written out must begin in the local time zone, and the
/// time must exist on the day; of two instants with one wall-clock time the
/// earlier is taken.
pub fn parse_date_at(date_string: &str, now: &LocalInstant) -> (r: Result<LocalInstant, DateError>)
    ensures
        date_outcome(date_string@, *now, r),
{
    let n: usize = date_string.unicode_len();
    let k: usize = find_char_from(date_string, ',', 0);
    if k >= n {
        return Err(DateError::MissingSeparator);
    }
    let date: &str = trim(date_string.substring_char(0, k));
    let time: &str = trim(date_string.substring_char(k + 1, n));
    let clock: Option<ClockTime> = parse_clock_time(time);
    let day: Result<Day, DateError> = parse_day(date);
    let wall: WallTime = match wall_time_of(day, clock, now.wall.date) {
        Err(e) => { return Err(e); },
        Ok(w) => w,
    };
    let day: Day = match day {
        Err(e) => { return Err(e); },
        Ok(d) => d,
    };
    let midnight: LocalTimes = match day {
        Day::On(date) => local_timestamps(WallTime { date, hour: 0, minute: 0, second: 0 }),
        _ => LocalTimes::Never,
    };
    instant_of(day, wall, midnight, local_timestamps(wall))
}

/// Reads a date of the platform, with relative words counted from the
/// current instant.
pub fn parse_date(date_string: &str) -> (r: Result<LocalInstant, DateError>)
    ensures
        exists|at: LocalInstant| date_outcome(date_string@, at, r),
{
    let at: LocalInstant = now();
    parse_date_at(date_string, &at)
}

} // verus!
