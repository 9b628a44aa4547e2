use chrono::{Datelike, NaiveDate, NaiveDateTime, Timelike};
use deltime::date::{
    leap_year, month_length, time_diff, Date, MAX_TIMESTAMP, MIN_TIMESTAMP, SECONDS_PER_DAY,
};
use deltime::date_text::DateFormat;

fn date(year: u16, month: u8, day: u8, hour: u8, minute: u8, second: u8) -> Date {
    Date::new(year, month, day, hour, minute, second).unwrap()
}

fn fields(d: &Date) -> (u16, u8, u8, u8, u8, u8) {
    (d.year(), d.month(), d.day(), d.hour(), d.minute(), d.second())
}

fn chrono_of(d: &Date) -> NaiveDateTime {
    NaiveDate::from_ymd_opt(d.year() as i32, d.month() as u32, d.day() as u32)
        .unwrap()
        .and_hms_opt(d.hour() as u32, d.minute() as u32, d.second() as u32)
        .unwrap()
}

#[test]
fn test_date_time_diff() {
    let d1 = Date::parse("2022-10-26T13:23:52").unwrap();
    let d2 = Date::parse("2022-10-26T13:24:52").unwrap();
    let diff = time_diff(&d1, &d2);
    println!("{:?}", diff);
    assert_eq!(diff, 60);
    assert_eq!(time_diff(&d2, &d1), -60);
}

#[test]
fn new_keeps_the_fields() {
    let d = date(2022, 10, 26, 13, 23, 52);
    assert_eq!(fields(&d), (2022, 10, 26, 13, 23, 52));
}

#[test]
fn new_rejects_what_is_no_date() {
    assert!(Date::new(0, 1, 1, 0, 0, 0).is_none());
    assert!(Date::new(10000, 1, 1, 0, 0, 0).is_none());
    assert!(Date::new(2023, 0, 1, 0, 0, 0).is_none());
    assert!(Date::new(2023, 13, 1, 0, 0, 0).is_none());
    assert!(Date::new(2023, 1, 0, 0, 0, 0).is_none());
    assert!(Date::new(2023, 1, 32, 0, 0, 0).is_none());
    assert!(Date::new(2023, 4, 31, 0, 0, 0).is_none());
    assert!(Date::new(2023, 2, 29, 0, 0, 0).is_none());
    assert!(Date::new(1900, 2, 29, 0, 0, 0).is_none());
    assert!(Date::new(2023, 1, 1, 24, 0, 0).is_none());
    assert!(Date::new(2023, 1, 1, 0, 60, 0).is_none());
    assert!(Date::new(2023, 1, 1, 0, 0, 60).is_none());
    assert!(Date::new(2024, 2, 29, 23, 59, 59).is_some());
    assert!(Date::new(2000, 2, 29, 0, 0, 0).is_some());
    assert!(Date::new(1, 1, 1, 0, 0, 0).is_some());
    assert!(Date::new(9999, 12, 31, 23, 59, 59).is_some());
}

#[test]
fn leap_years_follow_the_gregorian_rule() {
    assert!(leap_year(2024));
    assert!(leap_year(2000));
    assert!(!leap_year(1900));
    assert!(!leap_year(2023));
    assert_eq!(month_length(2024, 2), 29);
    assert_eq!(month_length(2023, 2), 28);
    assert_eq!(month_length(2023, 4), 30);
    assert_eq!(month_length(2023, 12), 31);
}

#[test]
fn timestamps_have_their_exact_values() {
    assert_eq!(date(1970, 1, 1, 0, 0, 0).timestamp(), 0);
    assert_eq!(date(1969, 12, 31, 23, 59, 59).timestamp(), -1);
    assert_eq!(date(2022, 10, 26, 13, 23, 52).timestamp(), 1666790632);
    assert_eq!(date(2000, 2, 29, 12, 0, 0).timestamp(), 951825600);
    assert_eq!(date(1900, 3, 1, 0, 0, 0).timestamp(), -2203891200);
    assert_eq!(date(1, 1, 1, 0, 0, 0).timestamp(), MIN_TIMESTAMP);
    assert_eq!(date(9999, 12, 31, 23, 59, 59).timestamp(), MAX_TIMESTAMP);
    assert_eq!(MIN_TIMESTAMP, -62135596800);
    assert_eq!(MAX_TIMESTAMP, 253402300799);
}

#[test]
fn from_timestamp_inverts_timestamp() {
    assert_eq!(fields(&Date::from_timestamp(0).unwrap()), (1970, 1, 1, 0, 0, 0));
    assert_eq!(fields(&Date::from_timestamp(-1).unwrap()), (1969, 12, 31, 23, 59, 59));
    assert_eq!(fields(&Date::from_timestamp(1666790632).unwrap()), (2022, 10, 26, 13, 23, 52));
    assert_eq!(fields(&Date::from_timestamp(MIN_TIMESTAMP).unwrap()), (1, 1, 1, 0, 0, 0));
    assert_eq!(fields(&Date::from_timestamp(MAX_TIMESTAMP).unwrap()), (9999, 12, 31, 23, 59, 59));
    assert!(Date::from_timestamp(MIN_TIMESTAMP - 1).is_none());
    assert!(Date::from_timestamp(MAX_TIMESTAMP + 1).is_none());
    assert!(Date::from_timestamp(i64::MIN).is_none());
    assert!(Date::from_timestamp(i64::MAX).is_none());
}

#[test]
fn timestamps_agree_with_chrono() {
    let mut seconds: i64 = MIN_TIMESTAMP;
    let mut steps: u32 = 0;
    while seconds <= MAX_TIMESTAMP {
        let ours = Date::from_timestamp(seconds).unwrap();
        let theirs = chrono::DateTime::from_timestamp(seconds, 0).unwrap().naive_utc();
        assert_eq!(ours.year() as i32, theirs.year());
        assert_eq!(ours.month() as u32, theirs.month());
        assert_eq!(ours.day() as u32, theirs.day());
        assert_eq!(ours.hour() as u32, theirs.hour());
        assert_eq!(ours.minute() as u32, theirs.minute());
        assert_eq!(ours.second() as u32, theirs.second());
        assert_eq!(ours.timestamp(), seconds);
        assert_eq!(chrono_of(&ours).and_utc().timestamp(), seconds);
        seconds += 86_400 * 97 + 3_607;
        steps += 1;
    }
    assert!(steps > 37_000);
}

#[test]
fn next_day_agrees_with_chrono_over_four_centuries() {
    let mut day = date(1899, 12, 30, 7, 8, 9);
    for _ in 0..(366 * 401) {
        let next = day.next_day().unwrap();
        let theirs = chrono_of(&day) + chrono::Duration::days(1);
        assert_eq!(chrono_of(&next), theirs);
        assert_eq!(next.timestamp(), day.timestamp() + SECONDS_PER_DAY);
        day = next;
    }
}

#[test]
fn next_day_crosses_months_and_years() {
    assert_eq!(fields(&date(2023, 1, 31, 8, 0, 0).next_day().unwrap()), (2023, 2, 1, 8, 0, 0));
    assert_eq!(fields(&date(2023, 2, 28, 8, 0, 0).next_day().unwrap()), (2023, 3, 1, 8, 0, 0));
    assert_eq!(fields(&date(2024, 2, 28, 8, 0, 0).next_day().unwrap()), (2024, 2, 29, 8, 0, 0));
    assert_eq!(fields(&date(2024, 12, 31, 23, 59, 59).next_day().unwrap()), (2025, 1, 1, 23, 59, 59));
    assert!(date(9999, 12, 31, 0, 0, 0).next_day().is_none());
    assert!(date(9999, 12, 30, 0, 0, 0).next_day().is_some());
}

#[test]
fn next_month_keeps_the_day_or_fails() {
    assert_eq!(fields(&date(2023, 3, 15, 9, 30, 1).next_month().unwrap()), (2023, 4, 15, 9, 30, 1));
    assert_eq!(fields(&date(2023, 12, 31, 9, 30, 1).next_month().unwrap()), (2024, 1, 31, 9, 30, 1));
    assert_eq!(fields(&date(2024, 1, 29, 0, 0, 0).next_month().unwrap()), (2024, 2, 29, 0, 0, 0));
    assert!(date(2023, 1, 29, 0, 0, 0).next_month().is_none());
    assert!(date(2023, 1, 31, 0, 0, 0).next_month().is_none());
    assert!(date(2023, 3, 31, 0, 0, 0).next_month().is_none());
    assert!(date(2023, 5, 31, 0, 0, 0).next_month().is_none());
    assert!(date(9999, 12, 1, 0, 0, 0).next_month().is_none());
    assert!(date(9999, 11, 30, 0, 0, 0).next_month().is_some());
}

#[test]
fn seconds_and_minutes_are_added_exactly() {
    let start = date(2022, 10, 26, 13, 23, 52);
    assert_eq!(fields(&start.add_seconds(8).unwrap()), (2022, 10, 26, 13, 24, 0));
    assert_eq!(fields(&start.add_seconds(-52).unwrap()), (2022, 10, 26, 13, 23, 0));
    assert_eq!(fields(&start.add_seconds(86_400).unwrap()), (2022, 10, 27, 13, 23, 52));
    assert_eq!(fields(&start.add_minutes(3).unwrap()), (2022, 10, 26, 13, 26, 52));
    assert_eq!(fields(&start.sub_minutes(5).unwrap()), (2022, 10, 26, 13, 18, 52));
    assert_eq!(fields(&start.sub_minutes(24 * 60).unwrap()), (2022, 10, 25, 13, 23, 52));
    assert!(start.add_seconds(i64::MAX).is_none());
    assert!(start.add_seconds(i64::MIN).is_none());
    assert!(date(9999, 12, 31, 23, 59, 0).add_minutes(1).is_none());
    assert!(date(1, 1, 1, 0, 0, 59).sub_minutes(1).is_none());
    assert!(date(9999, 12, 31, 23, 59, 0).add_seconds(59).is_some());
}

#[test]
fn a_date_is_reached_from_its_own_second_on() {
    let target = date(2022, 10, 26, 13, 23, 52);
    assert!(target.is_reached(&target));
    assert!(target.is_reached(&date(2022, 10, 26, 13, 23, 53)));
    assert!(!target.is_reached(&date(2022, 10, 26, 13, 23, 51)));
    assert!(!target.is_reached(&date(2021, 12, 31, 23, 59, 59)));
}

#[test]
fn parse_reads_the_serialized_form() {
    let d = Date::parse("2022-10-26T13:23:52").unwrap();
    assert_eq!(fields(&d), (2022, 10, 26, 13, 23, 52));
    assert_eq!(fields(&Date::parse("0001-01-01T00:00:00").unwrap()), (1, 1, 1, 0, 0, 0));
    assert_eq!(fields(&Date::parse("2024-02-29T23:59:59").unwrap()), (2024, 2, 29, 23, 59, 59));
}

#[test]
fn parse_rejects_any_other_text() {
    for text in [
        "",
        "2022-10-26",
        "2022-10-26 13:23:52",
        "2022-10-26T13:23:5",
        "2022-10-26T13:23:520",
        "2022/10/26T13:23:52",
        "2022-10-26T13-23-52",
        "2022-10-26t13:23:52",
        "2022-13-26T13:23:52",
        "2022-02-30T13:23:52",
        "2022-10-26T24:00:00",
        "2022-10-26T13:60:00",
        "2022-10-26T13:23:60",
        "0000-10-26T13:23:52",
        "20a2-10-26T13:23:52",
        "2022-1x-26T13:23:52",
        "+022-10-26T13:23:52",
        "2022-10-26T13:23:５2",
        "２０２２-10-26T13:23:52",
    ] {
        assert!(Date::parse(text).is_none(), "{:?}", text);
    }
}

#[test]
fn format_writes_each_form() {
    let d = date(2022, 10, 26, 13, 23, 52);
    assert_eq!(d.format(DateFormat::DotDate), "26.10.2022");
    assert_eq!(d.format(DateFormat::Time), "13:23:52");
    assert_eq!(d.format(DateFormat::Iso), "2022-10-26T13:23:52");
    let early = date(7, 1, 2, 3, 4, 5);
    assert_eq!(early.format(DateFormat::DotDate), "02.01.0007");
    assert_eq!(early.format(DateFormat::Time), "03:04:05");
    assert_eq!(early.format(DateFormat::Iso), "0007-01-02T03:04:05");
}

#[test]
fn parse_inverts_the_serialized_form() {
    for d in [
        date(1, 1, 1, 0, 0, 0),
        date(999, 9, 9, 9, 9, 9),
        date(2024, 2, 29, 23, 59, 59),
        date(9999, 12, 31, 23, 59, 59),
    ] {
        let text = d.format(DateFormat::Iso);
        assert_eq!(Date::parse(&text), Some(d));
    }
}
