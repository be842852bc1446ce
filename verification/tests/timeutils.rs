use prmait::timeutils::parser::{date_parser, parse_date, Error, ParserAction, TimeUnit};
use prmait::timeutils::{
    day_from_today, today, tomorrow, Date, MAX_JULIAN_DAY, MIN_JULIAN_DAY,
};
use time::{Month, UtcOffset};

fn is_normal<T: Sized + Send + Sync + Unpin>() {}

#[test]
fn parser_normal_types() {
    is_normal::<Error>();
}

fn held(date: time::Date) -> Date {
    Date { julian_day: date.to_julian_day() }
}

fn april_10() -> Date {
    held(time::Date::from_calendar_date(1993, Month::April, 10).unwrap())
}

#[test]
fn parse_date_happy_path() {
    let utc = UtcOffset::UTC;
    for input in
        ["1993_04_10", "1993_04.10", "1993.4_10", "1993_apr.10", "1993-04-10", "1993-apRIl-10"]
    {
        assert_eq!(parse_date(input, utc), Ok(april_10()));
    }
    for input in ["tod", "today"] {
        assert_eq!(parse_date(input, utc), Ok(today(utc)));
    }
    for input in ["tom", "tomorrow"] {
        assert_eq!(parse_date(input, utc), Ok(tomorrow(utc)));
    }
    for (input, days) in [
        ("3days", 3),
        ("3day", 3),
        ("3d", 3),
        ("1weeks", 7),
        ("1week", 7),
        ("1w", 7),
        ("3weeks", 3 * 7),
        ("3week", 3 * 7),
        ("3w", 3 * 7),
        ("1m", 30),
        ("1month", 30),
        ("1months", 30),
        ("22months", 22 * 30),
        ("22m", 22 * 30),
        ("1years", 365),
        ("1year", 365),
        ("1y", 365),
        ("10y", 10 * 365),
        ("10year", 10 * 365),
        ("10years", 10 * 365),
    ] {
        assert_eq!(parse_date(input, utc), Ok(day_from_today(utc, days)));
    }
}

#[test]
fn the_range_of_dates_is_that_of_the_time_crate() {
    assert_eq!(MIN_JULIAN_DAY, time::Date::MIN.to_julian_day());
    assert_eq!(MAX_JULIAN_DAY, time::Date::MAX.to_julian_day());
}

#[test]
fn today_is_what_the_clock_shows() {
    let before = time::OffsetDateTime::now_utc().date().to_julian_day();
    let shown = today(UtcOffset::UTC).julian_day;
    let after = time::OffsetDateTime::now_utc().date().to_julian_day();
    assert!(before <= shown && shown <= after);
    let east = today(UtcOffset::from_hms(14, 0, 0).unwrap()).julian_day;
    let west = today(UtcOffset::from_hms(-12, 0, 0).unwrap()).julian_day;
    assert!(west <= shown && shown <= east && east - west >= 1);
    let next = tomorrow(UtcOffset::UTC).julian_day;
    assert!(next == shown + 1 || next == shown + 2);
}

#[test]
fn days_are_added_with_saturation() {
    let day = Date { julian_day: 2_451_545 };
    assert_eq!(day.saturating_add_days(0), day);
    assert_eq!(day.saturating_add_days(366), Date { julian_day: 2_451_911 });
    assert_eq!(day.saturating_add_days(-1), Date { julian_day: 2_451_544 });
    assert_eq!(day.saturating_add_days(i64::MAX), Date { julian_day: MAX_JULIAN_DAY });
    assert_eq!(day.saturating_add_days(i64::MIN), Date { julian_day: MIN_JULIAN_DAY });
    let last = Date { julian_day: MAX_JULIAN_DAY };
    assert_eq!(last.saturating_add_days(1), last);
    assert_eq!(last.saturating_add_days(-1), Date { julian_day: MAX_JULIAN_DAY - 1 });
    let first = Date { julian_day: MIN_JULIAN_DAY };
    assert_eq!(first.saturating_add_days(-1), first);
    assert_eq!(first.saturating_add_days(1), Date { julian_day: MIN_JULIAN_DAY + 1 });
    for (from, days) in [(2_451_545, 40i64), (2_451_545, -400_000), (5_373_000, 1000), (-1_930_000, -2000)] {
        let expected = time::Date::from_julian_day(from)
            .unwrap()
            .saturating_add(time::Duration::days(days))
            .to_julian_day();
        assert_eq!(Date { julian_day: from }.saturating_add_days(days).julian_day, expected);
    }
}

#[test]
fn dates_are_compared_and_subtracted() {
    let a = Date { julian_day: 10 };
    let b = Date { julian_day: 12 };
    assert!(b.gt(&a));
    assert!(!a.gt(&b));
    assert!(!a.gt(&a));
    assert!(a < b);
    assert_eq!(b.days_since(&a), 2);
    assert_eq!(a.days_since(&b), -2);
    assert_eq!(
        Date { julian_day: i32::MAX }.days_since(&Date { julian_day: i32::MIN }),
        i32::MAX as i64 - i32::MIN as i64
    );
}

fn failure(text: &str) -> Error {
    Error::ErrorParsingDate(format!(
        "expected a span such as 3d, today, tomorrow, or a date such as 2023-10-24: {text}"
    ))
}

#[test]
fn grammar_of_spans() {
    let span = |unit| Ok(ParserAction::TimeFromNow(unit));
    assert_eq!(date_parser("0d"), span(TimeUnit::Day(0)));
    assert_eq!(date_parser("65535w"), span(TimeUnit::Week(65535)));
    assert_eq!(date_parser("007m"), span(TimeUnit::Month(7)));
    assert_eq!(date_parser("2yaks"), span(TimeUnit::Year(2)));
    assert_eq!(date_parser("3d and more"), span(TimeUnit::Day(3)));
    assert_eq!(date_parser("today"), span(TimeUnit::Day(0)));
    assert_eq!(date_parser("todo"), span(TimeUnit::Day(0)));
    assert_eq!(date_parser("tomato"), span(TimeUnit::Day(1)));
    for text in ["", "d", "3", "3 d", "3x", "65536d", "to", "TODAY", "3D", "-3d", "yesterday"] {
        assert_eq!(date_parser(text), Err(failure(text)));
    }
    assert_eq!(TimeUnit::Day(3).days(), 3);
    assert_eq!(TimeUnit::Week(3).days(), 21);
    assert_eq!(TimeUnit::Month(65535).days(), 65535 * 30);
    assert_eq!(TimeUnit::Year(65535).days(), 65535 * 365);
}

#[test]
fn grammar_of_calendar_dates() {
    let date = |y, m, d| Ok(ParserAction::SpecificDate(y, m, d));
    assert_eq!(date_parser("1993-04-10"), date(1993, 4, 10));
    assert_eq!(date_parser("1993-10-1"), date(1993, 10, 1));
    assert_eq!(date_parser("1993-11-1"), date(1993, 11, 1));
    assert_eq!(date_parser("1993-12-1"), date(1993, 12, 1));
    assert_eq!(date_parser("1993-1-1"), date(1993, 1, 1));
    assert_eq!(date_parser("1993.september_255"), date(1993, 9, 255));
    assert_eq!(date_parser("1993.sep_0"), date(1993, 9, 0));
    assert_eq!(date_parser("1993-may-31st"), date(1993, 5, 31));
    assert_eq!(date_parser("-44-mar-15"), date(-44, 3, 15));
    assert_eq!(date_parser("+44-mar-15"), date(44, 3, 15));
    assert_eq!(date_parser("-2147483648-1-1"), date(i32::MIN, 1, 1));
    assert_eq!(date_parser("2147483647-1-1"), date(i32::MAX, 1, 1));
    assert_eq!(date_parser("70000-01-01"), date(70000, 1, 1));
    for text in [
        "1993",
        "1993-",
        "1993-04",
        "1993-04-",
        "1993-13-10",
        "1993-0-10",
        "1993/04/10",
        "1993-04-256",
        "1993-sept-10",
        "1993-APR-10",
        "2147483648-1-1",
        "-2147483649-1-1",
        "--1-1-1",
        "1993-04 10",
    ] {
        assert_eq!(date_parser(text), Err(failure(text)));
    }
}

#[test]
fn calendar_dates_are_checked() {
    let utc = UtcOffset::UTC;
    assert_eq!(parse_date("2000-01-01", utc), Ok(Date { julian_day: 2_451_545 }));
    assert_eq!(parse_date("2019-DEC-31", utc), Ok(Date { julian_day: 2_458_849 }));
    assert_eq!(parse_date("2020-02-29", utc), Ok(Date { julian_day: 2_458_909 }));
    assert!(matches!(parse_date("2019-02-29", utc), Err(Error::CreatingTimeFailed(_))));
    assert!(matches!(parse_date("2019-04-31", utc), Err(Error::CreatingTimeFailed(_))));
    assert!(matches!(parse_date("2019-04-0", utc), Err(Error::CreatingTimeFailed(_))));
    assert!(matches!(parse_date("70000-01-01", utc), Err(Error::CreatingTimeFailed(_))));
    assert_eq!(parse_date("Next week", utc), Err(failure("next week")));
    assert_eq!(parse_date("9999-12-31", utc), Ok(Date { julian_day: MAX_JULIAN_DAY }));
    assert_eq!(parse_date("-9999-01-01", utc), Ok(Date { julian_day: MIN_JULIAN_DAY }));
    assert!(matches!(parse_date("10000-01-01", utc), Err(Error::CreatingTimeFailed(_))));
}

#[test]
fn spans_are_counted_from_today() {
    let utc = UtcOffset::UTC;
    let base = today(utc).julian_day;
    let soon = parse_date("2W", utc).unwrap().julian_day;
    assert!(soon == base + 14 || soon == base + 15);
    let far = parse_date("65535y", utc).unwrap();
    assert_eq!(far, Date { julian_day: MAX_JULIAN_DAY });
}

#[test]
fn date_errors_have_their_messages() {
    assert_eq!(
        Error::CouldNotFindAnyPattern.to_string(),
        "could not find any pattern matching that time input"
    );
    assert_eq!(Error::CreatingTimeFailed("day".to_owned()).to_string(), "could not get time");
    assert_eq!(Error::AddingTimeFailed.to_string(), "failed in adding time to day");
    assert_eq!(Error::ToIsNotAfterFrom.to_string(), "from must be before after");
    assert_eq!(
        Error::ErrorParsingDate("x".to_owned()).to_string(),
        "got error parsing date: x"
    );
}
