//! Dates and times of day, as the timetable gives them.
//!
//! The calendar is chrono's: it decides which dates exist, gives today's date
//! and writes dates and times out. A date or a time is kept here by its
//! numbers.

use crate::error::Error;
use crate::text::{digits_of, read_numbers, numbers_in, two_digits_of};
use chrono::Datelike;
use vstd::prelude::*;

verus! {

/// Whether the year `y` has a 29th of February.
pub open spec fn is_leap_year(y: int) -> bool {
    y % 4 == 0 && (y % 100 != 0 || y % 400 == 0)
}

/// The number of days of month `m` in year `y`.
pub open spec fn days_in_month(y: int, m: int) -> int {
    if m == 2 {
        if is_leap_year(y) {
            29
        } else {
            28
        }
    } else if m == 4 || m == 6 || m == 9 || m == 11 {
        30
    } else {
        31
    }
}

/// Whether day `d` of month `m` of year `y` is a date of the calendar.
pub open spec fn is_date(y: int, m: int, d: int) -> bool {
    -262143 <= y <= 262142 && 1 <= m <= 12 && 1 <= d <= days_in_month(y, m)
}

/// Whether `h:m` is a time of day.
pub open spec fn is_time(h: int, m: int) -> bool {
    0 <= h < 24 && 0 <= m < 60
}

/// `n` in at least four decimal digits.
pub open spec fn four_digits_of(n: nat) -> Seq<char> {
    if n < 10 {
        seq!['0', '0', '0'] + digits_of(n)
    } else if n < 100 {
        seq!['0', '0'] + digits_of(n)
    } else if n < 1000 {
        seq!['0'] + digits_of(n)
    } else {
        digits_of(n)
    }
}

/// How a year is written: in four digits where it has no more, with its sign
/// where it is negative or has more.
pub open spec fn year_text(y: int) -> Seq<char> {
    if 0 <= y <= 9999 {
        four_digits_of(y as nat)
    } else if y > 9999 {
        seq!['+'] + digits_of(y as nat)
    } else {
        seq!['-'] + four_digits_of((-y) as nat)
    }
}

/// How a date is written: day, month and year, with a period between them.
pub open spec fn date_text(y: int, m: int, d: int) -> Seq<char> {
    two_digits_of(d as nat) + seq!['.'] + two_digits_of(m as nat) + seq!['.'] + year_text(y)
}

/// How a time of day is written: hours and minutes, with a colon between them.
pub open spec fn time_text(h: int, m: int) -> Seq<char> {
    two_digits_of(h as nat) + seq![':'] + two_digits_of(m as nat)
}

/// The year that a caller means by `year`: itself, but for the numbers above
/// the largest `i32`, which stand for the negative years.
pub open spec fn year_of(year: u32) -> int {
    if year <= i32::MAX {
        year as int
    } else {
        year - 0x1_0000_0000
    }
}

/// Asks chrono's `NaiveDate::from_ymd_opt` whether the date exists. It does
/// where the year lies between chrono's first and last year, the month is one
/// of the twelve, and the month of that year has the day.
#[verifier::external_body]
fn date_exists(year: i32, month: u32, day: u32) -> (r: bool)
    ensures
        r == is_date(year as int, month as int, day as int),
{
    chrono::NaiveDate::from_ymd_opt(year, month, day).is_some()
}

/// Asks chrono's `NaiveTime::from_hms_opt` whether the time of day exists, with
/// no seconds. It does where the hour is below 24 and the minute below 60.
#[verifier::external_body]
fn time_exists(hours: u32, minutes: u32) -> (r: bool)
    ensures
        r == is_time(hours as int, minutes as int),
{
    chrono::NaiveTime::from_hms_opt(hours, minutes, 0).is_some()
}

/// Today's date by chrono's `Utc::now`, as year, month and day. Which date it
/// is depends on the clock; it is a date of the calendar.
#[verifier::external_body]
fn today() -> (r: (i32, u32, u32))
    ensures
        is_date(r.0 as int, r.1 as int, r.2 as int),
{
    let date = chrono::Utc::now().naive_utc().date();
    (date.year(), date.month(), date.day())
}

/// Has chrono write the date by the pattern of day, month and year: `%d` and
/// `%m` give two digits each, `%Y` the year in four digits, or with its sign
/// where it is negative or has more than four.
#[verifier::external_body]
fn write_date(year: i32, month: u32, day: u32, pattern: &str) -> (r: String)
    requires
        is_date(year as int, month as int, day as int),
        pattern@ == "%d.%m.%Y"@,
    ensures
        r@ == date_text(year as int, month as int, day as int),
{
    chrono::NaiveDate::from_ymd_opt(year, month, day).unwrap().format(pattern).to_string()
}

/// Has chrono write the time of day by the pattern of hour and minute: `%H`
/// and `%M` give two digits each.
#[verifier::external_body]
fn write_time(hours: u32, minutes: u32, pattern: &str) -> (r: String)
    requires
        is_time(hours as int, minutes as int),
        pattern@ == "%H:%M"@,
    ensures
        r@ == time_text(hours as int, minutes as int),
{
    chrono::NaiveTime::from_hms_opt(hours, minutes, 0).unwrap().format(pattern).to_string()
}

/// A date of departure or arrival of the train.
#[derive(Debug, Copy, Clone, PartialEq, Eq, Structural)]
pub struct TrainDate {
    year: i32,
    month: u32,
    day: u32,
}

impl TrainDate {
    #[verifier::type_invariant]
    spec fn is_valid(self) -> bool {
        is_date(self.year as int, self.month as int, self.day as int)
    }

    pub closed spec fn year(self) -> int {
        self.year as int
    }

    pub closed spec fn month(self) -> int {
        self.month as int
    }

    pub closed spec fn day(self) -> int {
        self.day as int
    }

    /// Two dates of the same year, month and day are the same date.
    pub proof fn lemma_same_numbers(self, other: TrainDate)
        requires
            self.year() == other.year(),
            self.month() == other.month(),
            self.day() == other.day(),
        ensures
            self == other,
    {
    }

    /// The year, the month and the day of the date.
    pub fn ymd(&self) -> (r: (i32, u32, u32))
        ensures
            r.0 == self.year(),
            r.1 == self.month(),
            r.2 == self.day(),
            is_date(self.year(), self.month(), self.day()),
    {
        proof {
            use_type_invariant(self);
        }
        (self.year, self.month, self.day)
    }

    /// What `new` may give for these numbers: the date that they name, or,
    /// where they name none, any date.
    pub open spec fn is_new(self, year: u32, month: u32, day: u32) -> bool {
        &&& is_date(self.year(), self.month(), self.day())
        &&& is_date(year_of(year), month as int, day as int) ==> {
            &&& self.year() == year_of(year)
            &&& self.month() == month
            &&& self.day() == day
        }
    }

    /// Creates `TrainDate` from a year, a month and a day. Where they name no
    /// date of the calendar, the result is today's date.
    pub fn new(year: u32, month: u32, day: u32) -> (r: Self)
        ensures
            r.is_new(year, month, day),
    {
        let y: i32 = if year <= 0x7fff_ffff {
            year as i32
        } else {
            (year as i64 - 0x1_0000_0000) as i32
        };
        if date_exists(y, month, day) {
            TrainDate { year: y, month, day }
        } else {
            let now = today();
            TrainDate { year: now.0, month: now.1, day: now.2 }
        }
    }

    /// The date as day, month and year, with a period between them.
    pub fn to_string(&self) -> (r: String)
        ensures
            r@ == date_text(self.year(), self.month(), self.day()),
            is_date(self.year(), self.month(), self.day()),
    {
        proof {
            use_type_invariant(self);
        }
        write_date(self.year, self.month, self.day, "%d.%m.%Y")
    }

    /// What reading `s` as a date may give: the pieces between the periods
    /// that write a number must be a day, a month and a year.
    pub open spec fn is_parsed(s: Seq<char>, r: Option<TrainDate>) -> bool {
        let v = numbers_in(s, '.');
        if v.len() == 3 {
            r matches Some(d) && d.is_new(v[2], v[1], v[0])
        } else {
            r is None
        }
    }

    /// Reads a date written as day, month and year with periods between them.
    pub fn parse(s: &str) -> (r: Result<Self, Error>)
        ensures
            Self::is_parsed(s@, r.ok()),
            r matches Err(e) ==> e matches Error::ParseDateError(t) && t@ == s@,
    {
        let v = read_numbers(s, '.');
        if v.len() == 3 {
            Ok(TrainDate::new(v[2], v[1], v[0]))
        } else {
            Err(Error::ParseDateError(String::from_str(s)))
        }
    }
}

impl core::str::FromStr for TrainDate {
    type Err = Error;

    /// Reads a date written as day, month and year with periods between
    /// them, as `TrainDate::parse` does.
    fn from_str(s: &str) -> (r: Result<Self, Error>)
        ensures
            TrainDate::is_parsed(s@, r.ok()),
            r matches Err(e) ==> e matches Error::ParseDateError(t) && t@ == s@,
    {
        TrainDate::parse(s)
    }
}

/// A time of departure or arrival of the train.
#[derive(Debug, Copy, Clone, PartialEq, Eq, Structural)]
pub struct TrainTime {
    hours: u32,
    minutes: u32,
}

impl TrainTime {
    #[verifier::type_invariant]
    spec fn is_valid(self) -> bool {
        is_time(self.hours as int, self.minutes as int)
    }

    pub closed spec fn hours(self) -> int {
        self.hours as int
    }

    pub closed spec fn minutes(self) -> int {
        self.minutes as int
    }

    /// Two times of the same hours and minutes are the same time.
    pub proof fn lemma_same_numbers(self, other: TrainTime)
        requires
            self.hours() == other.hours(),
            self.minutes() == other.minutes(),
        ensures
            self == other,
    {
    }

    /// The hours and the minutes of the time.
    pub fn hm(&self) -> (r: (u32, u32))
        ensures
            r.0 == self.hours(),
            r.1 == self.minutes(),
            is_time(self.hours(), self.minutes()),
    {
        proof {
            use_type_invariant(self);
        }
        (self.hours, self.minutes)
    }

    /// The time that `new` gives for these numbers: the one they name, or
    /// midnight where they name none.
    pub open spec fn is_new(self, hours: u32, minutes: u32) -> bool {
        if is_time(hours as int, minutes as int) {
            self.hours() == hours && self.minutes() == minutes
        } else {
            self.hours() == 0 && self.minutes() == 0
        }
    }

    /// Creates `TrainTime` from the number of hours and minutes. Where they
    /// name no time of day, the result is midnight.
    pub fn new(hours: u32, minutes: u32) -> (r: Self)
        ensures
            r.is_new(hours, minutes),
    {
        if time_exists(hours, minutes) {
            TrainTime { hours, minutes }
        } else {
            TrainTime { hours: 0, minutes: 0 }
        }
    }

    /// The time as hours and minutes, with a colon between them.
    pub fn to_string(&self) -> (r: String)
        ensures
            r@ == time_text(self.hours(), self.minutes()),
            is_time(self.hours(), self.minutes()),
    {
        proof {
            use_type_invariant(self);
        }
        write_time(self.hours, self.minutes, "%H:%M")
    }

    /// What reading `s` as a time gives: the pieces between the colons that
    /// write a number must be hours and minutes, with or without seconds.
    pub open spec fn is_parsed(s: Seq<char>, r: Option<TrainTime>) -> bool {
        let v = numbers_in(s, ':');
        if v.len() == 2 || v.len() == 3 {
            r matches Some(t) && t.is_new(v[0], v[1])
        } else {
            r is None
        }
    }

    /// Reads a time written as hours and minutes, with or without seconds,
    /// and colons between them.
    pub fn parse(s: &str) -> (r: Result<Self, Error>)
        ensures
            Self::is_parsed(s@, r.ok()),
            r matches Err(e) ==> e matches Error::ParseTimeError(t) && t@ == s@,
    {
        let v = read_numbers(s, ':');
        if v.len() == 2 || v.len() == 3 {
            Ok(TrainTime::new(v[0], v[1]))
        } else {
            Err(Error::ParseTimeError(String::from_str(s)))
        }
    }
}

impl core::str::FromStr for TrainTime {
    type Err = Error;

    /// Reads a time written as hours and minutes, with or without seconds,
    /// and colons between them, as `TrainTime::parse` does.
    fn from_str(s: &str) -> (r: Result<Self, Error>)
        ensures
            TrainTime::is_parsed(s@, r.ok()),
            r matches Err(e) ==> e matches Error::ParseTimeError(t) && t@ == s@,
    {
        TrainTime::parse(s)
    }
}

/// Reads a date as `TrainDate::parse` does; `None` where that fails.
pub fn parse_train_date(s: &str) -> (r: Option<TrainDate>)
    ensures
        TrainDate::is_parsed(s@, r),
{
    match TrainDate::parse(s) {
        Ok(d) => Some(d),
        Err(_) => None,
    }
}

/// Reads a time as `TrainTime::parse` does; `None` where that fails.
pub fn parse_train_time(s: &str) -> (r: Option<TrainTime>)
    ensures
        TrainTime::is_parsed(s@, r),
{
    match TrainTime::parse(s) {
        Ok(t) => Some(t),
        Err(_) => None,
    }
}

} // verus!
