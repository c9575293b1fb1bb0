//! Calendar values as plain numbers, and their textual forms.
use chrono::{Datelike, Timelike};
use vstd::prelude::*;

verus! {

/// A calendar date of the proleptic Gregorian calendar.
#[derive(Debug, Clone, Copy, PartialEq, Eq, Structural)]
pub struct Date {
    pub year: i32,
    pub month: u32,
    pub day: u32,
}

/// A time of day: hour, minute, second and the nanoseconds past that second.
/// As in chrono, a leap second is second 59 with at least 1,000,000,000
/// nanoseconds.
#[derive(Debug, Clone, Copy, PartialEq, Eq, Structural)]
pub struct Time {
    pub hour: u32,
    pub minute: u32,
    pub second: u32,
    pub nanosecond: u32,
}

/// A date together with a time of day.
#[derive(Debug, Clone, Copy, PartialEq, Eq, Structural)]
pub struct DateTime {
    pub date: Date,
    pub time: Time,
}

/// The smallest year that a date may hold.
pub const MIN_YEAR: i32 = -262143i32;

/// The largest year that a date may hold.
pub const MAX_YEAR: i32 = 262142i32;

pub open spec fn is_leap_year(year: int) -> bool {
    year % 4 == 0 && (year % 100 != 0 || year % 400 == 0)
}

pub open spec fn days_in_month(year: int, month: int) -> int {
    if month == 2 {
        if is_leap_year(year) { 29 } else { 28 }
    } else if month == 4 || month == 6 || month == 9 || month == 11 {
        30
    } else {
        31
    }
}

/// The character of a decimal digit.
pub open spec fn digit(d: int) -> char {
    (48 + d) as char
}

/// The two-digit decimal form of a number below one hundred.
pub open spec fn two_digits(n: int) -> Seq<char> {
    seq![digit(n / 10), digit(n % 10)]
}

/// The decimal digits of `n`, padded with zeros on the left to at least `width` digits.
pub open spec fn padded_digits(n: nat, width: nat) -> Seq<char>
    decreases n, width,
{
    if n < 10 && width <= 1 {
        seq![digit(n as int)]
    } else {
        padded_digits(n / 10, if width > 0 { (width - 1) as nat } else { 0 }) + seq![digit(
            (n % 10) as int,
        )]
    }
}

/// The year as written by the `%Y` directive: four digits for years from 0 to
/// 9999, otherwise a sign followed by at least four digits.
pub open spec fn year_text(year: int) -> Seq<char> {
    if 0 <= year <= 9999 {
        padded_digits(year as nat, 4)
    } else if year < 0 {
        seq!['-'] + padded_digits((-year) as nat, 4)
    } else {
        seq!['+'] + padded_digits(year as nat, 4)
    }
}

/// The second as `%S` writes it: 60 during a leap second.
pub open spec fn shown_second(time: Time) -> int {
    time.second + time.nanosecond / 1_000_000_000
}

/// The date in the compact form `YYYYMMDD`.
pub open spec fn compact_date_text(date: Date) -> Seq<char> {
    year_text(date.year as int) + two_digits(date.month as int) + two_digits(date.day as int)
}

/// The time of day in the compact form `HHMMSS`.
pub open spec fn compact_time_text(time: Time) -> Seq<char> {
    two_digits(time.hour as int) + two_digits(time.minute as int) + two_digits(shown_second(time))
}

impl Date {
    /// The date exists in the calendar and lies in the supported range of years.
    pub open spec fn wf(self) -> bool {
        &&& MIN_YEAR <= self.year <= MAX_YEAR
        &&& 1 <= self.month <= 12
        &&& 1 <= self.day <= days_in_month(self.year as int, self.month as int)
    }

    /// The date combined with a time of day.
    pub fn and_time(self, time: Time) -> (res: DateTime)
        ensures
            res == (DateTime { date: self, time }),
    {
        DateTime { date: self, time }
    }
}

impl Date {
    /// Tells whether the date exists and lies in the supported range of years.
    pub fn is_valid(&self) -> (res: bool)
        ensures
            res == self.wf(),
    {
        if self.year < MIN_YEAR || self.year > MAX_YEAR || self.month < 1 || self.month > 12
            || self.day < 1 {
            return false;
        }
        let leap = self.year % 4 == 0 && (self.year % 100 != 0 || self.year % 400 == 0);
        proof {
            assert((self.year % 4 == 0) == ((self.year as int) % 4 == 0)) by (nonlinear_arith);
            assert((self.year % 100 == 0) == ((self.year as int) % 100 == 0)) by (nonlinear_arith);
            assert((self.year % 400 == 0) == ((self.year as int) % 400 == 0)) by (nonlinear_arith);
        }
        let days: u32 = if self.month == 2 {
            if leap { 29 } else { 28 }
        } else if self.month == 4 || self.month == 6 || self.month == 9 || self.month == 11 {
            30
        } else {
            31
        };
        self.day <= days
    }
}

impl Time {
    /// The time is one that chrono's `NaiveTime` can hold: a leap second
    /// only as second 59, and less than two seconds of nanoseconds.
    pub open spec fn wf(self) -> bool {
        &&& self.hour < 24
        &&& self.minute < 60
        &&& self.second < 60
        &&& self.nanosecond < 2_000_000_000
        &&& self.nanosecond >= 1_000_000_000 ==> self.second == 59
    }

    /// Tells whether the time is one that chrono's `NaiveTime` can hold.
    pub fn is_valid(&self) -> (res: bool)
        ensures
            res == self.wf(),
    {
        self.hour < 24 && self.minute < 60 && self.second < 60 && self.nanosecond < 2_000_000_000
            && (self.nanosecond < 1_000_000_000 || self.second == 59)
    }
}

impl DateTime {
    pub open spec fn wf(self) -> bool {
        self.date.wf() && self.time.wf()
    }

    /// Tells whether date and time are both valid.
    pub fn is_valid(&self) -> (res: bool)
        ensures
            res == self.wf(),
    {
        self.date.is_valid() && self.time.is_valid()
    }
}

/// Writes a date as `YYYYMMDD`, through chrono's `NaiveDate::format` with the
/// pattern `%Y%m%d`; the contract states chrono's documented output for this
/// pattern: the year as `%Y` writes it, then month and day with two digits.
#[verifier::external_body]
pub(crate) fn format_compact_date(date: &Date) -> (text: String)
    requires
        date.wf(),
    ensures
        text@ == compact_date_text(*date),
{
    chrono::NaiveDate::from_ymd_opt(date.year, date.month, date.day).unwrap().format(
        "%Y%m%d",
    ).to_string()
}

/// Writes a time of day as `HHMMSS`, through chrono's `NaiveTime::format` with
/// the pattern `%H%M%S`; the contract states chrono's documented output: hour,
/// minute and second with two digits each, the second being 60 in a leap second.
#[verifier::external_body]
pub(crate) fn format_compact_time(time: &Time) -> (text: String)
    requires
        time.wf(),
    ensures
        text@ == compact_time_text(*time),
{
    chrono::NaiveTime::from_hms_nano_opt(time.hour, time.minute, time.second, time.nanosecond).unwrap().format(
        "%H%M%S",
    ).to_string()
}

/// The date and time in the form `YYYY-MM-DDTHH:MM:SS` that the disruption
/// service of strecken-info.de uses.
pub open spec fn db_text(dt: DateTime) -> Seq<char> {
    year_text(dt.date.year as int) + seq!['-'] + two_digits(dt.date.month as int) + seq!['-']
        + two_digits(dt.date.day as int) + seq!['T'] + two_digits(dt.time.hour as int) + seq![':']
        + two_digits(dt.time.minute as int) + seq![':'] + two_digits(shown_second(dt.time))
}

/// What chrono's `NaiveDateTime::parse_from_str` makes of a text with the
/// pattern `%Y-%m-%dT%H:%M:%S`: the date and time it reads, or nothing.
pub uninterp spec fn chrono_parse_db_datetime(text: Seq<char>) -> Option<DateTime>;

/// What chrono's `NaiveDate::parse_from_str` makes of a text with the pattern
/// `%Y%m%d`.
pub uninterp spec fn chrono_parse_compact_date(text: Seq<char>) -> Option<Date>;

/// What chrono's `NaiveTime::parse_from_str` makes of a text with the pattern
/// `%H%M%S`.
pub uninterp spec fn chrono_parse_compact_time(text: Seq<char>) -> Option<Time>;

/// Writes a date and time through chrono's `NaiveDateTime::format` with the
/// pattern `%Y-%m-%dT%H:%M:%S`; the contract states chrono's documented
/// output for this pattern.
#[verifier::external_body]
fn format_db_datetime(dt: &DateTime) -> (text: String)
    requires
        dt.wf(),
    ensures
        text@ == db_text(*dt),
{
    chrono::NaiveDate::from_ymd_opt(dt.date.year, dt.date.month, dt.date.day).unwrap().and_hms_nano_opt(
        dt.time.hour,
        dt.time.minute,
        dt.time.second,
        dt.time.nanosecond,
    ).unwrap().format("%Y-%m-%dT%H:%M:%S").to_string()
}

/// Reads a date and time through chrono's `NaiveDateTime::parse_from_str` with
/// the pattern `%Y-%m-%dT%H:%M:%S`. The contract names the result, and states
/// that a value chrono yields is a valid date and time, as chrono's types
/// guarantee for all their values.
#[verifier::external_body]
fn parse_db_datetime(text: &str) -> (res: Option<DateTime>)
    ensures
        res == chrono_parse_db_datetime(text@),
        res matches Some(dt) ==> dt.wf(),
{
    match chrono::NaiveDateTime::parse_from_str(text, "%Y-%m-%dT%H:%M:%S") {
        Ok(v) => Some(DateTime {
            date: Date { year: v.year(), month: v.month(), day: v.day() },
            time: Time { hour: v.hour(), minute: v.minute(), second: v.second(), nanosecond: v.nanosecond() },
        }),
        Err(_) => None,
    }
}

/// Reads a date through chrono's `NaiveDate::parse_from_str` with the pattern
/// `%Y%m%d`. The contract names the result, and states that a value chrono
/// yields is a valid date.
#[verifier::external_body]
fn parse_compact_date(text: &str) -> (res: Option<Date>)
    ensures
        res == chrono_parse_compact_date(text@),
        res matches Some(d) ==> d.wf(),
{
    match chrono::NaiveDate::parse_from_str(text, "%Y%m%d") {
        Ok(v) => Some(Date { year: v.year(), month: v.month(), day: v.day() }),
        Err(_) => None,
    }
}

/// Reads a time of day through chrono's `NaiveTime::parse_from_str` with the
/// pattern `%H%M%S`. The contract names the result, and states that a value
/// chrono yields is a valid time of day.
#[verifier::external_body]
fn parse_compact_time(text: &str) -> (res: Option<Time>)
    ensures
        res == chrono_parse_compact_time(text@),
        res matches Some(t) ==> t.wf(),
{
    match chrono::NaiveTime::parse_from_str(text, "%H%M%S") {
        Ok(v) => Some(Time { hour: v.hour(), minute: v.minute(), second: v.second(), nanosecond: v.nanosecond() }),
        Err(_) => None,
    }
}

impl DateTime {
    /// The form `YYYY-MM-DDTHH:MM:SS` of the date and time.
    pub fn to_db_text(&self) -> (text: String)
        requires
            self.wf(),
        ensures
            text@ == db_text(*self),
    {
        format_db_datetime(self)
    }

    /// Reads a date and time of the form `YYYY-MM-DDTHH:MM:SS`.
    pub fn from_db_text(text: &str) -> (res: Option<DateTime>)
        ensures
            res == chrono_parse_db_datetime(text@),
            res matches Some(dt) ==> dt.wf(),
    {
        parse_db_datetime(text)
    }
}

impl Date {
    /// Reads a date of the form `YYYYMMDD`.
    pub fn from_compact_text(text: &str) -> (res: Option<Date>)
        ensures
            res == chrono_parse_compact_date(text@),
            res matches Some(d) ==> d.wf(),
    {
        parse_compact_date(text)
    }
}

impl Time {
    /// Reads a time of day of the form `HHMMSS`.
    pub fn from_compact_text(text: &str) -> (res: Option<Time>)
        ensures
            res == chrono_parse_compact_time(text@),
            res matches Some(t) ==> t.wf(),
    {
        parse_compact_time(text)
    }
}

} // verus!
