use ilias::date::{
    instant_of, month_from_name, parse_absolute_day, parse_date, parse_date_at,
    parse_day, wall_time_of, CivilDate, ClockTime, DateError, Day, LocalInstant, LocalTimes,
    WallTime,
};

fn day(year: i32, month: u32, day: u32) -> CivilDate {
    CivilDate { year, month, day }
}

fn wall(year: i32, month: u32, d: u32, hour: u32, minute: u32) -> WallTime {
    WallTime { date: day(year, month, d), hour, minute, second: 0 }
}

fn clock_at(year: i32, month: u32, d: u32) -> LocalInstant {
    LocalInstant { wall: wall(year, month, d, 12, 0), seconds: 0, nanos: 0 }
}

#[test]
fn yesterday_counts_from_the_given_clock() {
    let r = parse_date_at("Yesterday, 14:05", &clock_at(2024, 3, 15)).unwrap();
    assert_eq!(r.wall, wall(2024, 3, 14, 14, 5));
    assert_eq!(r.nanos, 0);
}

#[test]
fn german_month_with_umlaut_is_march() {
    let r = parse_date_at("14. Mär 2024, 09:00", &clock_at(2024, 3, 15)).unwrap();
    assert_eq!(r.wall, wall(2024, 3, 14, 9, 0));
}

#[test]
fn today_parses_on_the_current_clock() {
    let r = parse_date("Today, 23:59").unwrap();
    assert_eq!((r.wall.hour, r.wall.minute, r.wall.second), (23, 59, 0));
}

#[test]
fn relative_words_in_both_languages() {
    let now = clock_at(2024, 3, 15);
    assert_eq!(parse_date_at("Gestern, 08:00", &now).unwrap().wall, wall(2024, 3, 14, 8, 0));
    assert_eq!(parse_date_at("Heute, 08:00", &now).unwrap().wall, wall(2024, 3, 15, 8, 0));
    assert_eq!(parse_date_at("Today, 08:00", &now).unwrap().wall, wall(2024, 3, 15, 8, 0));
    assert_eq!(parse_date_at("Morgen, 08:00", &now).unwrap().wall, wall(2024, 3, 16, 8, 0));
    assert_eq!(parse_date_at("Tomorrow, 08:00", &now).unwrap().wall, wall(2024, 3, 16, 8, 0));
}

#[test]
fn relative_words_cross_months_and_years() {
    assert_eq!(
        parse_date_at("Yesterday, 10:00", &clock_at(2024, 3, 1)).unwrap().wall,
        wall(2024, 2, 29, 10, 0)
    );
    assert_eq!(
        parse_date_at("Yesterday, 10:00", &clock_at(2023, 3, 1)).unwrap().wall,
        wall(2023, 2, 28, 10, 0)
    );
    assert_eq!(
        parse_date_at("Tomorrow, 10:00", &clock_at(2023, 12, 31)).unwrap().wall,
        wall(2024, 1, 1, 10, 0)
    );
    assert_eq!(
        parse_date_at("Gestern, 10:00", &clock_at(2024, 1, 1)).unwrap().wall,
        wall(2023, 12, 31, 10, 0)
    );
}

#[test]
fn both_parts_are_trimmed() {
    let r = parse_date_at("  1. Okt 2023 ,  07:30  ", &clock_at(2024, 3, 15)).unwrap();
    assert_eq!(r.wall, wall(2023, 10, 1, 7, 30));
}

#[test]
fn later_instants_have_later_positions() {
    let now = clock_at(2024, 3, 15);
    let a = parse_date_at("14. Mar 2024, 09:00", &now).unwrap();
    let b = parse_date_at("14. Mar 2024, 09:01", &now).unwrap();
    assert_eq!(b.seconds - a.seconds, 60);
    assert!(a.not_after(&b));
    assert!(!b.not_after(&a));
    assert!(a.not_after(&a));
}

#[test]
fn missing_comma_is_rejected() {
    let r = parse_date_at("14. Mar 2024 09:00", &clock_at(2024, 3, 15));
    assert_eq!(r, Err(DateError::MissingSeparator));
}

#[test]
fn bad_time_is_rejected_before_the_date_is_looked_at() {
    let now = clock_at(2024, 3, 15);
    assert_eq!(parse_date_at("Today, 25:00", &now), Err(DateError::InvalidTime));
    assert_eq!(parse_date_at("Today, 12:60", &now), Err(DateError::InvalidTime));
    assert_eq!(parse_date_at("Today, noon", &now), Err(DateError::InvalidTime));
    assert_eq!(parse_date_at("nonsense, noon", &now), Err(DateError::InvalidTime));
    assert_eq!(parse_date_at("Today, 12:00:00", &now), Err(DateError::InvalidTime));
}

#[test]
fn date_that_matches_no_form_is_rejected() {
    let now = clock_at(2024, 3, 15);
    assert_eq!(parse_date_at("someday, 12:00", &now), Err(DateError::InvalidDate));
    assert_eq!(parse_date_at("14 Mar 2024, 12:00", &now), Err(DateError::InvalidDate));
    assert_eq!(parse_date_at("14.Mar 2024, 12:00", &now), Err(DateError::InvalidDate));
    assert_eq!(parse_date_at("14. Mar, 12:00", &now), Err(DateError::InvalidDate));
    assert_eq!(parse_date_at(", 12:00", &now), Err(DateError::InvalidDate));
    assert_eq!(parse_date_at("today, 12:00", &now), Err(DateError::InvalidDate));
}

#[test]
fn unknown_month_is_rejected() {
    let r = parse_date_at("14. Foo 2024, 12:00", &clock_at(2024, 3, 15));
    assert_eq!(r, Err(DateError::UnknownMonth));
}

#[test]
fn day_and_year_must_be_numbers_in_range() {
    let now = clock_at(2024, 3, 15);
    assert_eq!(parse_date_at("99999999999. Jan 2024, 12:00", &now), Err(DateError::InvalidDay));
    assert_eq!(parse_date_at("14. Jan 20x4, 12:00", &now), Err(DateError::InvalidYear));
    assert_eq!(parse_date_at("14. Jan 2147483648, 12:00", &now), Err(DateError::InvalidYear));
    assert_eq!(parse_date_at("14. Jan 20 24, 12:00", &now), Err(DateError::InvalidYear));
}

#[test]
fn day_that_the_calendar_lacks_is_rejected() {
    let now = clock_at(2024, 3, 15);
    assert_eq!(parse_date_at("31. Feb 2024, 12:00", &now), Err(DateError::NoSuchInstant));
    assert_eq!(parse_date_at("0. Jan 2024, 12:00", &now), Err(DateError::NoSuchInstant));
    assert_eq!(parse_date_at("29. Feb 2023, 12:00", &now), Err(DateError::NoSuchInstant));
    assert!(parse_date_at("29. Feb 2024, 12:00", &now).is_ok());
}

#[test]
fn all_month_names() {
    let names = [
        ("Jan", 1), ("Feb", 2), ("Mär", 3), ("Mar", 3), ("Apr", 4), ("Mai", 5), ("May", 5),
        ("Jun", 6), ("Jul", 7), ("Aug", 8), ("Sep", 9), ("Okt", 10), ("Oct", 10), ("Nov", 11),
        ("Dez", 12), ("Dec", 12),
    ];
    for (name, number) in names {
        assert_eq!(month_from_name(name), Some(number));
    }
    assert_eq!(month_from_name("jan"), None);
    assert_eq!(month_from_name(""), None);
    assert_eq!(month_from_name("March"), None);
}

#[test]
fn day_written_out() {
    assert_eq!(parse_absolute_day("14. Mär 2024"), Ok(day(2024, 3, 14)));
    assert_eq!(parse_absolute_day("007. Dez 0099"), Ok(day(99, 12, 7)));
    assert_eq!(parse_absolute_day("4294967295. Jan 2147483647"), Ok(day(2147483647, 1, 4294967295)));
    assert_eq!(parse_absolute_day("4294967296. Jan 2024"), Err(DateError::InvalidDay));
    assert_eq!(parse_absolute_day(""), Err(DateError::InvalidDate));
    assert_eq!(parse_absolute_day("14. Mär "), Err(DateError::InvalidDate));
    assert_eq!(parse_absolute_day("14.  2024"), Err(DateError::InvalidDate));
}

#[test]
fn named_days() {
    assert_eq!(parse_day("Gestern"), Ok(Day::Yesterday));
    assert_eq!(parse_day("Yesterday"), Ok(Day::Yesterday));
    assert_eq!(parse_day("Heute"), Ok(Day::Today));
    assert_eq!(parse_day("Tomorrow"), Ok(Day::Tomorrow));
    assert_eq!(parse_day("1. Jan 2000"), Ok(Day::On(day(2000, 1, 1))));
    assert_eq!(parse_day("Heute "), Err(DateError::InvalidDate));
}

#[test]
fn wall_time_from_readings() {
    let today = day(2024, 3, 15);
    let nine = Some(ClockTime { hour: 9, minute: 0 });
    assert_eq!(wall_time_of(Ok(Day::Today), nine, today), Ok(wall(2024, 3, 15, 9, 0)));
    assert_eq!(wall_time_of(Ok(Day::Yesterday), nine, today), Ok(wall(2024, 3, 14, 9, 0)));
    assert_eq!(wall_time_of(Ok(Day::On(day(1999, 2, 30))), nine, today), Ok(wall(1999, 2, 30, 9, 0)));
    assert_eq!(wall_time_of(Err(DateError::UnknownMonth), nine, today), Err(DateError::UnknownMonth));
    assert_eq!(wall_time_of(Err(DateError::UnknownMonth), None, today), Err(DateError::InvalidTime));
    assert_eq!(
        wall_time_of(Ok(Day::Yesterday), nine, day(i32::MIN, 1, 1)),
        Err(DateError::NoSuchInstant)
    );
    assert_eq!(
        wall_time_of(Ok(Day::Tomorrow), nine, day(i32::MAX, 12, 31)),
        Err(DateError::NoSuchInstant)
    );
}

#[test]
fn instant_needs_a_place_on_the_time_line() {
    let w = wall(2024, 3, 14, 9, 0);
    let here = LocalInstant { wall: w, seconds: 1710406800, nanos: 0 };
    let on = Day::On(day(2024, 3, 14));
    let midnight = LocalTimes::Once(1710374400);
    assert_eq!(instant_of(on, w, midnight, LocalTimes::Once(1710406800)), Ok(here));
    assert_eq!(instant_of(on, w, midnight, LocalTimes::Never), Err(DateError::NoSuchInstant));
    assert_eq!(instant_of(Day::Today, w, LocalTimes::Never, LocalTimes::Once(1710406800)), Ok(here));
    assert_eq!(
        instant_of(Day::Yesterday, w, LocalTimes::Never, LocalTimes::Never),
        Err(DateError::NoSuchInstant)
    );
}

#[test]
fn day_written_out_must_begin_in_the_time_zone() {
    let w = wall(2024, 3, 14, 9, 0);
    let on = Day::On(day(2024, 3, 14));
    let at = LocalTimes::Once(1710406800);
    assert_eq!(instant_of(on, w, LocalTimes::Never, at), Err(DateError::NoSuchInstant));
    assert_eq!(instant_of(on, w, LocalTimes::Never, LocalTimes::Never), Err(DateError::NoSuchInstant));
    assert!(instant_of(on, w, LocalTimes::Twice(5, 6), at).is_ok());
    assert!(instant_of(Day::Tomorrow, w, LocalTimes::Never, at).is_ok());
}

#[test]
fn of_two_instants_the_earlier_is_taken() {
    assert_eq!(LocalTimes::Never.earliest(), None);
    assert_eq!(LocalTimes::Once(7).earliest(), Some(7));
    assert_eq!(LocalTimes::Twice(100, 3700).earliest(), Some(100));
    assert_eq!(LocalTimes::Twice(3700, 100).earliest(), Some(100));
    assert_eq!(LocalTimes::Twice(-5, -5).earliest(), Some(-5));
    let w = wall(2024, 10, 27, 2, 30);
    let r = instant_of(Day::Today, w, LocalTimes::Never, LocalTimes::Twice(1729989000, 1729992600));
    assert_eq!(r, Ok(LocalInstant { wall: w, seconds: 1729989000, nanos: 0 }));
}

#[test]
fn neighbours_of_a_day() {
    assert_eq!(day(2024, 3, 1).pred(), Some(day(2024, 2, 29)));
    assert_eq!(day(1900, 3, 1).pred(), Some(day(1900, 2, 28)));
    assert_eq!(day(2000, 3, 1).pred(), Some(day(2000, 2, 29)));
    assert_eq!(day(2024, 5, 1).pred(), Some(day(2024, 4, 30)));
    assert_eq!(day(2024, 1, 1).pred(), Some(day(2023, 12, 31)));
    assert_eq!(day(i32::MIN, 1, 1).pred(), None);
    assert_eq!(day(2024, 2, 28).succ(), Some(day(2024, 2, 29)));
    assert_eq!(day(2023, 2, 28).succ(), Some(day(2023, 3, 1)));
    assert_eq!(day(2024, 4, 30).succ(), Some(day(2024, 5, 1)));
    assert_eq!(day(2024, 12, 31).succ(), Some(day(2025, 1, 1)));
    assert_eq!(day(i32::MAX, 12, 31).succ(), None);
    assert_eq!(day(-4, 3, 1).pred(), Some(day(-4, 2, 29)));
    assert_eq!(day(-1, 3, 1).pred(), Some(day(-1, 2, 28)));
    assert_eq!(day(1900, 2, 28).succ(), Some(day(1900, 3, 1)));
    assert_eq!(day(2000, 2, 28).succ(), Some(day(2000, 2, 29)));
    assert_eq!(day(-400, 2, 28).succ(), Some(day(-400, 2, 29)));
    assert_eq!(day(-100, 2, 28).succ(), Some(day(-100, 3, 1)));
}

#[test]
fn days_outside_the_calendar_have_no_neighbours() {
    assert_eq!(day(2024, 2, 30).pred(), None);
    assert_eq!(day(2023, 2, 29).succ(), None);
    assert_eq!(day(2024, 0, 1).pred(), None);
    assert_eq!(day(2024, 13, 1).succ(), None);
    assert_eq!(day(2024, 1, 0).succ(), None);
    assert_eq!(day(262_143, 1, 1).pred(), None);
    assert_eq!(day(-262_144, 12, 31).succ(), None);
}

#[test]
fn the_calendar_ends_where_chrono_ends() {
    assert_eq!(day(-262_143, 1, 1).pred(), None);
    assert_eq!(day(-262_143, 1, 2).pred(), Some(day(-262_143, 1, 1)));
    assert_eq!(day(-262_143, 1, 1).succ(), Some(day(-262_143, 1, 2)));
    assert_eq!(day(262_142, 12, 31).succ(), None);
    assert_eq!(day(262_142, 12, 30).succ(), Some(day(262_142, 12, 31)));
    assert_eq!(day(262_142, 12, 31).pred(), Some(day(262_142, 12, 30)));
}
