use strecken_info::time::{Date, DateTime, Time};

fn dt(year: i32, month: u32, day: u32, hour: u32, minute: u32, second: u32) -> DateTime {
    DateTime { date: Date { year, month, day }, time: Time { hour, minute, second, nanosecond: 0 } }
}

#[test]
fn db_text_pads_every_field() {
    assert_eq!(dt(2023, 11, 9, 7, 5, 9).to_db_text(), "2023-11-09T07:05:09");
    assert_eq!(dt(2024, 2, 29, 23, 59, 59).to_db_text(), "2024-02-29T23:59:59");
}

#[test]
fn db_text_writes_signed_years_outside_four_digits() {
    assert_eq!(dt(12345, 1, 2, 0, 0, 0).to_db_text(), "+12345-01-02T00:00:00");
    assert_eq!(dt(-5, 1, 2, 0, 0, 0).to_db_text(), "-0005-01-02T00:00:00");
    assert_eq!(dt(987, 1, 2, 0, 0, 0).to_db_text(), "0987-01-02T00:00:00");
}

#[test]
fn db_text_reads_back() {
    assert_eq!(DateTime::from_db_text("2023-11-09T07:05:09"), Some(dt(2023, 11, 9, 7, 5, 9)));
    assert_eq!(DateTime::from_db_text("2023-02-30T07:05:09"), None);
    assert_eq!(DateTime::from_db_text("not a date"), None);
}

#[test]
fn compact_texts_are_read() {
    assert_eq!(Date::from_compact_text("20231119"), Some(Date { year: 2023, month: 11, day: 19 }));
    assert_eq!(Date::from_compact_text("20231319"), None);
    assert_eq!(Time::from_compact_text("070509"), Some(Time { hour: 7, minute: 5, second: 9, nanosecond: 0 }));
    assert_eq!(Time::from_compact_text("250000"), None);
}

#[test]
fn and_time_combines() {
    let date = Date { year: 2023, month: 11, day: 19 };
    let time = Time { hour: 12, minute: 30, second: 0, nanosecond: 0 };
    assert_eq!(date.and_time(time), DateTime { date, time });
}

#[test]
fn validity_follows_the_calendar() {
    assert!(Date { year: 2000, month: 2, day: 29 }.is_valid());
    assert!(!Date { year: 1900, month: 2, day: 29 }.is_valid());
    assert!(Date { year: 2024, month: 2, day: 29 }.is_valid());
    assert!(!Date { year: 2023, month: 2, day: 29 }.is_valid());
    assert!(Date { year: -4, month: 2, day: 29 }.is_valid());
    assert!(!Date { year: 2023, month: 4, day: 31 }.is_valid());
    assert!(!Date { year: 2023, month: 13, day: 1 }.is_valid());
    assert!(!Date { year: 2023, month: 1, day: 0 }.is_valid());
    assert!(!Date { year: 300000, month: 1, day: 1 }.is_valid());
    assert!(Time { hour: 23, minute: 59, second: 59, nanosecond: 0 }.is_valid());
    assert!(!Time { hour: 24, minute: 0, second: 0, nanosecond: 0 }.is_valid());
    assert!(!dt(2023, 1, 1, 0, 60, 0).is_valid());
}

#[test]
fn leap_seconds_are_kept() {
    let leap = DateTime::from_db_text("2016-12-31T23:59:60").unwrap();
    assert_eq!(leap.time, Time { hour: 23, minute: 59, second: 59, nanosecond: 1_000_000_000 });
    assert!(leap.is_valid());
    assert_eq!(leap.to_db_text(), "2016-12-31T23:59:60");
    assert_ne!(leap, dt(2016, 12, 31, 23, 59, 59));
    assert!(!Time { hour: 10, minute: 0, second: 30, nanosecond: 1_000_000_000 }.is_valid());
    assert!(!Time { hour: 10, minute: 0, second: 59, nanosecond: 2_000_000_000 }.is_valid());
}
