//! Points in time and calendar dates, held as plain numbers.

use vstd::prelude::*;

verus! {

/// A point in time in UTC: whole seconds since 1970-01-01T00:00:00Z and the
/// nanoseconds into that second.
#[derive(Clone, Copy, Debug, PartialEq, Eq, Structural)]
pub struct Timestamp {
    pub secs: i64,
    pub nanos: u32,
}

/// A calendar date without a time of day, held as its day number in the
/// proleptic Gregorian calendar: 0001-01-01 is day 1.
#[derive(Clone, Copy, Debug, PartialEq, Eq, Structural)]
pub struct Date {
    pub days: i32,
}

/// The day number of the calendar date `year`-`month`-`day`, or `None` where
/// the calendar has no such date or the year is out of the supported range.
pub uninterp spec fn day_number_from_ce(year: i32, month: u32, day: u32) -> Option<i32>;

/// Calls `chrono::NaiveDate::from_ymd_opt` and, on a date, `Datelike::num_days_from_ce`.
/// The result is a function of the three numbers alone; the contract names it
/// and says nothing of which dates exist.
#[verifier::external_body]
fn day_number_of(year: i32, month: u32, day: u32) -> (number: Option<i32>)
    ensures
        number == day_number_from_ce(year, month, day),
{
    match chrono::NaiveDate::from_ymd_opt(year, month, day) {
        Some(date) => Some(chrono::Datelike::num_days_from_ce(&date)),
        None => None,
    }
}

/// Reads the clock with `std::time::SystemTime::now`, turns the reading into
/// a `chrono::DateTime<Utc>` with chrono's `From<SystemTime>` and takes that
/// apart with `DateTime::timestamp` and `DateTime::timestamp_subsec_nanos`.
/// Nothing is claimed of the time read. A clock that stands before 1970 gives
/// a negative number of seconds; the conversion is defined for every time
/// within the years that chrono holds, which end with the year 262142.
#[verifier::external_body]
fn utc_now() -> (now: Timestamp) {
    let t = chrono::DateTime::<chrono::Utc>::from(std::time::SystemTime::now());
    Timestamp { secs: t.timestamp(), nanos: t.timestamp_subsec_nanos() }
}

impl Timestamp {
    /// The time that the system clock shows. Which time that is cannot be
    /// known beforehand, so nothing is promised of it: the functions that
    /// take a time say what they do with whatever time they are given.
    pub fn now() -> (now: Timestamp) {
        utc_now()
    }
}

impl Date {
    /// The date with the given day number.
    pub fn from_days(days: i32) -> (date: Date)
        ensures
            date.days == days,
    {
        Date { days }
    }

    /// The date `year`-`month`-`day`, where the calendar has one.
    pub fn from_ymd(year: i32, month: u32, day: u32) -> (date: Option<Date>)
        ensures
            date == Self::from_day_number_spec(day_number_from_ce(year, month, day)),
    {
        Self::from_day_number(day_number_of(year, month, day))
    }

    /// What `from_day_number` returns.
    pub open spec fn from_day_number_spec(number: Option<i32>) -> Option<Date> {
        match number {
            Some(days) => Some(Date { days }),
            None => None,
        }
    }

    /// The date of a day number, where there is one.
    pub fn from_day_number(number: Option<i32>) -> (date: Option<Date>)
        ensures
            date == Self::from_day_number_spec(number),
    {
        match number {
            Some(days) => Some(Date { days }),
            None => None,
        }
    }

    /// The whole days from `other` to `self`: negative where `self` is the earlier.
    pub open spec fn days_since_spec(self, other: Date) -> int {
        self.days - other.days
    }

    /// The whole days from `other` to `self`: negative where `self` is the earlier.
    pub fn days_since(&self, other: Date) -> (n: i64)
        ensures
            n == self.days_since_spec(other),
    {
        let a: i64 = self.days as i64;
        let b: i64 = other.days as i64;
        a - b
    }

    /// Whether `self` is an earlier date than `other`.
    pub fn is_before(&self, other: Date) -> (b: bool)
        ensures
            b == (self.days < other.days),
    {
        self.days < other.days
    }
}

} // verus!
