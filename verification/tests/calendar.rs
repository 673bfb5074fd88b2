use chrono::Datelike;
use fittrack::calendar::{Date, DateError, DateTime, ISO_DATE, MAX_DAY, MIN_DAY};

fn ymd(year: i32, month: u32, day: u32) -> Date {
    Date::from_ymd(year, month, day).unwrap()
}

fn naive(date: Date, second: u32, nano: u32) -> chrono::NaiveDateTime {
    chrono::NaiveDate::from_num_days_from_ce_opt(date.days())
        .unwrap()
        .and_time(chrono::NaiveTime::from_num_seconds_from_midnight_opt(second, nano).unwrap())
}

#[test]
fn date_from_ymd_gives_day_number() {
    assert_eq!(ymd(1, 1, 1).days(), 1);
    assert_eq!(ymd(0, 12, 31).days(), 0);
    assert_eq!(ymd(1999, 9, 3).days(), 730_000);
}

#[test]
fn date_from_ymd_refuses_what_is_no_date() {
    assert!(Date::from_ymd(2015, 0, 14).is_none());
    assert!(Date::from_ymd(2015, 2, 29).is_none());
    assert!(Date::from_ymd(2023, 4, 31).is_none());
    assert!(Date::from_ymd(400000, 1, 1).is_none());
    assert!(Date::from_ymd(-400000, 1, 1).is_none());
    assert!(Date::from_ymd(-4, 2, 29).is_some());
}

#[test]
fn date_range_is_that_of_chrono() {
    assert_eq!(ymd(-262143, 1, 1).days(), MIN_DAY);
    assert_eq!(ymd(262142, 12, 31).days(), MAX_DAY);
    assert_eq!(chrono::NaiveDate::MIN.num_days_from_ce(), MIN_DAY);
    assert_eq!(chrono::NaiveDate::MAX.num_days_from_ce(), MAX_DAY);
    assert!(chrono::NaiveDate::from_num_days_from_ce_opt(MIN_DAY).is_some());
    assert!(chrono::NaiveDate::from_num_days_from_ce_opt(MAX_DAY).is_some());
    assert!(chrono::NaiveDate::from_num_days_from_ce_opt(MIN_DAY - 1).is_none());
    assert!(chrono::NaiveDate::from_num_days_from_ce_opt(MAX_DAY + 1).is_none());
    assert!(Date::from_days(MIN_DAY - 1).is_none());
    assert!(Date::from_days(MAX_DAY + 1).is_none());
    assert_eq!(Date::from_days(MIN_DAY).unwrap().year(), -262143);
    assert_eq!(Date::from_days(MAX_DAY).unwrap().year(), 262142);
    assert_eq!(Date::from_days(MAX_DAY).unwrap().month(), 12);
    assert_eq!(Date::from_days(MAX_DAY).unwrap().day(), 31);
    assert_eq!(Date::from_days(MIN_DAY).unwrap().iso_week(), 1);
}

#[test]
fn date_fields_are_those_of_the_calendar() {
    let date = ymd(2024, 6, 1);
    assert_eq!(date.year(), 2024);
    assert_eq!(date.month(), 6);
    assert_eq!(date.day(), 1);
    assert_eq!(date.iso_week(), 22);
    let date = ymd(2024, 12, 30);
    assert_eq!(date.month(), 12);
    assert_eq!(date.iso_week(), 1);
    let date = ymd(2021, 1, 3);
    assert_eq!(date.month(), 1);
    assert_eq!(date.iso_week(), 53);
    let date = ymd(-308, 3, 14);
    assert_eq!(date.year(), -308);
    assert_eq!(date.month(), 3);
    assert_eq!(date.day(), 14);
}

#[test]
fn date_steps_and_compares_by_day() {
    let last = ymd(2024, 2, 29);
    let next = last.succ().unwrap();
    assert_eq!(next, ymd(2024, 3, 1));
    assert!(last.on_or_before(&next));
    assert!(last.on_or_before(&last));
    assert!(!next.on_or_before(&last));
    assert!(last.same_day(&ymd(2024, 2, 29)));
    assert!(!last.same_day(&next));
    assert!(Date::from_days(MAX_DAY).unwrap().succ().is_none());
    assert!(last < next);
}

#[test]
fn date_text_is_year_month_day() {
    assert_eq!(ymd(2024, 6, 1).to_string(), "2024-06-01");
    assert_eq!(ymd(2015, 9, 5).to_string(), "2015-09-05");
    assert_eq!(ymd(0, 1, 1).to_string(), "0000-01-01");
    assert_eq!(ymd(9999, 12, 31).to_string(), "9999-12-31");
    assert_eq!(ymd(-1, 1, 1).to_string(), "-0001-01-01");
    assert_eq!(ymd(10000, 12, 31).to_string(), "+10000-12-31");
    assert_eq!(ymd(987, 3, 4).to_string(), "0987-03-04");
}

#[test]
fn date_text_is_that_of_chrono() {
    let days = [MIN_DAY, MIN_DAY + 1, -3_652_425, -366, -1, 0, 1, 59, 60, 365, 366, 3_652_059,
        3_652_060, 738_000, 739_038, MAX_DAY - 1, MAX_DAY];
    for day in days {
        let date = Date::from_days(day).unwrap();
        let reference = chrono::NaiveDate::from_num_days_from_ce_opt(day).unwrap();
        assert_eq!(date.to_string(), reference.to_string());
        assert_eq!(date.year(), reference.year());
        assert_eq!(date.month(), reference.month());
        assert_eq!(date.day(), reference.day());
        assert_eq!(date.iso_week(), reference.iso_week().week());
    }
}

#[test]
fn date_parses_year_month_day() {
    assert_eq!(Date::parse_from_str("2024-06-01", ISO_DATE), Ok(ymd(2024, 6, 1)));
    assert_eq!(Date::parse_from_str("2015-9-5", ISO_DATE), Ok(ymd(2015, 9, 5)));
    assert_eq!(Date::parse_from_str("5sep2015", "%d%b%Y"), Ok(ymd(2015, 9, 5)));
}

fn refused(text: &str, format: &str) -> String {
    Date::parse_from_str(text, format).unwrap_err().message
}

#[test]
fn date_parse_tells_each_error() {
    assert_eq!(
        Date::parse_from_str("2024-13-01", ISO_DATE),
        Err(DateError { message: String::from("input is out of range") })
    );
    assert_eq!(refused("2023-02-29", ISO_DATE), "input is out of range");
    assert_eq!(
        refused("2024-06-01 Mon", "%Y-%m-%d %a"),
        "no possible date and time matching input"
    );
    assert_eq!(refused("2024-06", "%Y-%m"), "input is not enough for unique date and time");
    assert_eq!(refused("abcd-06-01", ISO_DATE), "input contains invalid characters");
    assert_eq!(refused("2024-06", ISO_DATE), "premature end of input");
    assert_eq!(refused("2024-06-01x", ISO_DATE), "trailing input");
    assert_eq!(refused("2024-06-01", "%Y-%m-%d%!"), "bad or unsupported format string");
}

#[test]
fn date_error_words_are_those_of_chrono() {
    let cases = [
        ("2024-13-01", "%Y-%m-%d"),
        ("2024-06-01 Mon", "%Y-%m-%d %a"),
        ("2024-06", "%Y-%m"),
        ("abcd-06-01", "%Y-%m-%d"),
        ("2024-06", "%Y-%m-%d"),
        ("2024-06-01x", "%Y-%m-%d"),
        ("2024-06-01", "%Y-%m-%d%!"),
        ("", "%Y-%m-%d"),
    ];
    for (text, format) in cases {
        let reference = chrono::NaiveDate::parse_from_str(text, format).unwrap_err();
        assert_eq!(refused(text, format), reference.to_string());
    }
}

#[test]
fn datetime_is_made_of_valid_fields_only() {
    let date = ymd(2024, 6, 1);
    assert!(DateTime::new(date, 0, 0).is_some());
    assert!(DateTime::new(date, 86_399, 999_999_999).is_some());
    assert!(DateTime::new(date, 86_399, 1_999_999_999).is_some());
    assert!(DateTime::new(date, 86_400, 0).is_none());
    assert!(DateTime::new(date, 86_399, 2_000_000_000).is_none());
    assert!(DateTime::new(date, 86_398, 1_000_000_000).is_none());
    assert!(DateTime::from_hms(date, 23, 59, 59).is_some());
    assert!(DateTime::from_hms(date, 24, 0, 0).is_none());
    assert!(DateTime::from_hms(date, 0, 60, 0).is_none());
    assert!(DateTime::from_hms(date, 0, 0, 60).is_none());
    let time = DateTime::from_hms(date, 10, 30, 15).unwrap();
    assert_eq!(time.date(), date);
    assert_eq!(time.second_of_day(), 37_815);
    assert_eq!(time.nanosecond(), 0);
}

#[test]
fn minutes_are_whole_and_rounded_toward_zero() {
    let date = ymd(2024, 6, 1);
    let start = DateTime::from_hms(date, 10, 0, 0).unwrap();
    assert_eq!(start.minutes_until(&DateTime::from_hms(date, 10, 45, 0).unwrap()), 45);
    assert_eq!(start.minutes_until(&DateTime::from_hms(date, 10, 45, 59).unwrap()), 45);
    assert_eq!(start.minutes_until(&DateTime::from_hms(date, 10, 0, 59).unwrap()), 0);
    assert_eq!(start.minutes_until(&DateTime::from_hms(date, 9, 59, 1).unwrap()), 0);
    assert_eq!(start.minutes_until(&DateTime::from_hms(date, 9, 58, 59).unwrap()), -1);
    assert_eq!(start.minutes_until(&DateTime::from_hms(date, 8, 25, 0).unwrap()), -95);
    let half = DateTime::new(date, 36_000, 500_000_000).unwrap();
    assert_eq!(half.minutes_until(&DateTime::from_hms(date, 10, 30, 0).unwrap()), 29);
    let next_day = DateTime::from_hms(ymd(2024, 6, 2), 10, 0, 0).unwrap();
    assert_eq!(start.minutes_until(&next_day), 1440);
    assert_eq!(next_day.minutes_until(&start), -1440);
}

#[test]
fn minutes_are_those_of_chrono() {
    let a = ymd(2024, 6, 1);
    let b = ymd(2024, 6, 2);
    let first = Date::from_days(MIN_DAY).unwrap();
    let last = Date::from_days(MAX_DAY).unwrap();
    let instants = [
        (a, 0, 0),
        (a, 59, 0),
        (a, 59, 1_500_000_000),
        (a, 60, 0),
        (a, 3_599, 999_999_999),
        (a, 36_000, 500_000_000),
        (a, 86_399, 1_999_999_999),
        (a, 86_399, 999_999_999),
        (b, 0, 0),
        (b, 1, 1),
        (b, 119, 1_000_000_000),
        (first, 0, 0),
        (last, 86_399, 1_999_999_999),
    ];
    for (start_date, start_second, start_nano) in instants {
        for (end_date, end_second, end_nano) in instants {
            let start = DateTime::new(start_date, start_second, start_nano).unwrap();
            let end = DateTime::new(end_date, end_second, end_nano).unwrap();
            let reference = (naive(end_date, end_second, end_nano)
                - naive(start_date, start_second, start_nano))
            .num_minutes();
            assert_eq!(start.minutes_until(&end), reference);
            assert_eq!(
                start.is_after(&end),
                naive(start_date, start_second, start_nano) > naive(end_date, end_second, end_nano)
            );
        }
    }
}
