//! Calendar dates and clock times, as the decoded content of a cell.
//!
//! A date or time is held as plain numbers. Whether a triple of numbers is a
//! day that exists, or a time of day, is asked of `chrono`. A [`Date`] or a
//! [`Time`] can only be made through that question, so each one that exists
//! is a day that exists, or a time of day.

use chrono::Datelike;
use chrono::Timelike;
use vstd::prelude::*;
use vstd::string::*;

use crate::text::all_digits;
use crate::text::decimal_value;
use crate::text::fixed_digits;
use crate::text::lemma_all_digits_subrange;
use crate::text::lemma_decimal_value_bounds;
use crate::text::number_at;
use crate::text::pow10;
use crate::text::push_fixed;
use crate::text::ToText;

verus! {

/// A day of the proleptic Gregorian calendar, in a year from 0 to 9999.
#[derive(Clone, Copy, Debug, PartialEq, Eq)]
pub struct Date {
    year: i32,
    month: u32,
    day: u32,
}

/// A time of day on a 24-hour clock, to the second.
#[derive(Clone, Copy, Debug, PartialEq, Eq)]
pub struct Time {
    hour: u32,
    minute: u32,
    second: u32,
}

/// A day together with a time of day.
#[derive(Clone, Copy, Debug, PartialEq, Eq)]
pub struct DateTime {
    pub date: Date,
    pub time: Time,
}

/// Year, month and day, as mathematical values.
pub struct DateModel {
    pub year: int,
    pub month: int,
    pub day: int,
}

/// Hour, minute and second, as mathematical values.
pub struct TimeModel {
    pub hour: int,
    pub minute: int,
    pub second: int,
}

/// A day and a time of day, as mathematical values.
pub struct DateTimeModel {
    pub date: DateModel,
    pub time: TimeModel,
}

impl DeepView for Date {
    type V = DateModel;

    closed spec fn deep_view(&self) -> DateModel {
        DateModel { year: self.year as int, month: self.month as int, day: self.day as int }
    }
}

impl DeepView for Time {
    type V = TimeModel;

    closed spec fn deep_view(&self) -> TimeModel {
        TimeModel {
            hour: self.hour as int,
            minute: self.minute as int,
            second: self.second as int,
        }
    }
}

impl DeepView for DateTime {
    type V = DateTimeModel;

    open spec fn deep_view(&self) -> DateTimeModel {
        DateTimeModel { date: self.date.deep_view(), time: self.time.deep_view() }
    }
}

/// Leap years: every fourth year, but of the century years only every fourth.
pub open spec fn is_leap_year(year: int) -> bool {
    year % 4 == 0 && (year % 100 != 0 || year % 400 == 0)
}

/// The number of days of a month, for `month` from 1 to 12.
pub open spec fn days_in_month(year: int, month: int) -> int {
    if month == 2 {
        if is_leap_year(year) {
            29
        } else {
            28
        }
    } else if month == 4 || month == 6 || month == 9 || month == 11 {
        30
    } else {
        31
    }
}

/// The day `day` of month `month` of `year` exists.
pub open spec fn is_calendar_date(year: int, month: int, day: int) -> bool {
    1 <= month <= 12 && 1 <= day <= days_in_month(year, month)
}

/// A time of day: hours below 24, minutes and seconds below 60. There are no
/// leap seconds.
pub open spec fn is_clock_time(hour: int, minute: int, second: int) -> bool {
    0 <= hour < 24 && 0 <= minute < 60 && 0 <= second < 60
}

impl DateModel {
    /// The day exists, and its year has at most four digits.
    pub open spec fn wf(self) -> bool {
        0 <= self.year <= 9999 && is_calendar_date(self.year, self.month, self.day)
    }
}

impl TimeModel {
    /// It is a time of day.
    pub open spec fn wf(self) -> bool {
        is_clock_time(self.hour, self.minute, self.second)
    }
}

/// The date with this year, month and day, if the year has at most four
/// digits and the day exists.
pub open spec fn date_of_ymd(year: int, month: int, day: int) -> Option<DateModel> {
    if 0 <= year <= 9999 && is_calendar_date(year, month, day) {
        Some(DateModel { year: year, month: month, day: day })
    } else {
        None
    }
}

/// The time with this hour, minute and second, if it is a time of day.
pub open spec fn time_of_hms(hour: int, minute: int, second: int) -> Option<TimeModel> {
    if is_clock_time(hour, minute, second) {
        Some(TimeModel { hour: hour, minute: minute, second: second })
    } else {
        None
    }
}

/// The date that eight digits `YYYYMMDD` write, if that day exists.
pub open spec fn date_of_digits(digits: Seq<char>) -> Option<DateModel> {
    date_of_ymd(
        decimal_value(digits.subrange(0, 4)),
        decimal_value(digits.subrange(4, 6)),
        decimal_value(digits.subrange(6, 8)),
    )
}

/// The time that six digits `HHMMSS` write, if it is a time of day.
pub open spec fn time_of_digits(digits: Seq<char>) -> Option<TimeModel> {
    time_of_hms(
        decimal_value(digits.subrange(0, 2)),
        decimal_value(digits.subrange(2, 4)),
        decimal_value(digits.subrange(4, 6)),
    )
}

/// Calls `chrono::NaiveDate::from_ymd_opt` and reads year, month and day back
/// from the date it made. Trusted: for a year of at most four digits, chrono
/// makes a date exactly when the day exists in the proleptic Gregorian
/// calendar, and the date it makes has the year, month and day it was given.
#[verifier::external_body]
fn naive_date(year: i32, month: u32, day: u32) -> (ymd: Option<(i32, u32, u32)>)
    requires
        0 <= year <= 9999,
    ensures
        ymd == (if is_calendar_date(year as int, month as int, day as int) {
            Some((year, month, day))
        } else {
            None::<(i32, u32, u32)>
        }),
{
    chrono::NaiveDate::from_ymd_opt(year, month, day).map(|d| (d.year(), d.month(), d.day()))
}

/// Calls `chrono::NaiveTime::from_hms_opt` and reads hour, minute and second
/// back from the time it made. Trusted: chrono makes a time exactly when the
/// hour is below 24 and minute and second are below 60, and the time it makes
/// has the hour, minute and second it was given.
#[verifier::external_body]
fn naive_time(hour: u32, minute: u32, second: u32) -> (hms: Option<(u32, u32, u32)>)
    ensures
        hms == (if is_clock_time(hour as int, minute as int, second as int) {
            Some((hour, minute, second))
        } else {
            None::<(u32, u32, u32)>
        }),
{
    chrono::NaiveTime::from_hms_opt(hour, minute, second).map(
        |t| (t.hour(), t.minute(), t.second()),
    )
}

impl Date {
    #[verifier::type_invariant]
    spec fn inv(self) -> bool {
        0 <= self.year <= 9999 && is_calendar_date(
            self.year as int,
            self.month as int,
            self.day as int,
        )
    }

    /// The date with this year, month and day, if the year has at most four
    /// digits and the day exists.
    pub fn from_ymd(year: i32, month: u32, day: u32) -> (date: Option<Date>)
        ensures
            date.deep_view() == date_of_ymd(year as int, month as int, day as int),
    {
        if year < 0 || year > 9999 {
            return None;
        }
        match naive_date(year, month, day) {
            Some((y, m, d)) => Some(Date { year: y, month: m, day: d }),
            None => None,
        }
    }

    /// Reads the eight digits `YYYYMMDD` that stand in `v` at position `at`.
    pub fn from_digits(v: &Vec<char>, at: usize) -> (date: Option<Date>)
        requires
            at + 8 <= v.len(),
            all_digits(v@.subrange(at as int, at + 8)),
        ensures
            date.deep_view() == date_of_digits(v@.subrange(at as int, at + 8)),
    {
        let ghost digits = v@.subrange(at as int, at + 8);
        proof {
            assert(digits.subrange(0, 4) =~= v@.subrange(at as int, at + 4));
            assert(digits.subrange(4, 6) =~= v@.subrange(at + 4, at + 6));
            assert(digits.subrange(6, 8) =~= v@.subrange(at + 6, at + 8));
            lemma_all_digits_subrange(digits, 0, 4);
            lemma_all_digits_subrange(digits, 4, 6);
            lemma_all_digits_subrange(digits, 6, 8);
            lemma_decimal_value_bounds(digits.subrange(0, 4));
            assert(pow10(4) == 10000) by {
                reveal_with_fuel(pow10, 5);
            }
        }
        let year: u32 = number_at(v, at, at + 4);
        let month: u32 = number_at(v, at + 4, at + 6);
        let day: u32 = number_at(v, at + 6, at + 8);
        Date::from_ymd(year as i32, month, day)
    }

    /// The year, from 0 to 9999.
    pub fn year(&self) -> (year: i32)
        ensures
            year == self.deep_view().year,
            self.deep_view().wf(),
    {
        proof {
            use_type_invariant(self);
        }
        self.year
    }

    /// The month, from 1 to 12.
    pub fn month(&self) -> (month: u32)
        ensures
            month == self.deep_view().month,
            self.deep_view().wf(),
    {
        proof {
            use_type_invariant(self);
        }
        self.month
    }

    /// The day of the month, from 1.
    pub fn day(&self) -> (day: u32)
        ensures
            day == self.deep_view().day,
            self.deep_view().wf(),
    {
        proof {
            use_type_invariant(self);
        }
        self.day
    }
}

impl Time {
    #[verifier::type_invariant]
    spec fn inv(self) -> bool {
        is_clock_time(self.hour as int, self.minute as int, self.second as int)
    }

    /// The time with this hour, minute and second, if it is a time of day.
    pub fn from_hms(hour: u32, minute: u32, second: u32) -> (time: Option<Time>)
        ensures
            time.deep_view() == time_of_hms(hour as int, minute as int, second as int),
    {
        match naive_time(hour, minute, second) {
            Some((h, m, s)) => Some(Time { hour: h, minute: m, second: s }),
            None => None,
        }
    }

    /// Reads the six digits `HHMMSS` that stand in `v` at position `at`.
    pub fn from_digits(v: &Vec<char>, at: usize) -> (time: Option<Time>)
        requires
            at + 6 <= v.len(),
            all_digits(v@.subrange(at as int, at + 6)),
        ensures
            time.deep_view() == time_of_digits(v@.subrange(at as int, at + 6)),
    {
        let ghost digits = v@.subrange(at as int, at + 6);
        proof {
            assert(digits.subrange(0, 2) =~= v@.subrange(at as int, at + 2));
            assert(digits.subrange(2, 4) =~= v@.subrange(at + 2, at + 4));
            assert(digits.subrange(4, 6) =~= v@.subrange(at + 4, at + 6));
            lemma_all_digits_subrange(digits, 0, 2);
            lemma_all_digits_subrange(digits, 2, 4);
            lemma_all_digits_subrange(digits, 4, 6);
        }
        let hour: u32 = number_at(v, at, at + 2);
        let minute: u32 = number_at(v, at + 2, at + 4);
        let second: u32 = number_at(v, at + 4, at + 6);
        Time::from_hms(hour, minute, second)
    }

    /// The hour, from 0 to 23.
    pub fn hour(&self) -> (hour: u32)
        ensures
            hour == self.deep_view().hour,
            self.deep_view().wf(),
    {
        proof {
            use_type_invariant(self);
        }
        self.hour
    }

    /// The minute, from 0 to 59.
    pub fn minute(&self) -> (minute: u32)
        ensures
            minute == self.deep_view().minute,
            self.deep_view().wf(),
    {
        proof {
            use_type_invariant(self);
        }
        self.minute
    }

    /// The second, from 0 to 59.
    pub fn second(&self) -> (second: u32)
        ensures
            second == self.deep_view().second,
            self.deep_view().wf(),
    {
        proof {
            use_type_invariant(self);
        }
        self.second
    }
}

/// A date as `YYYY-MM-DD`.
pub open spec fn date_text(date: DateModel) -> Seq<char> {
    fixed_digits(date.year as nat, 4) + "-"@ + fixed_digits(date.month as nat, 2) + "-"@
        + fixed_digits(date.day as nat, 2)
}

impl ToText for Date {
    open spec fn text(&self) -> Seq<char> {
        date_text(self.deep_view())
    }

    fn to_text(&self) -> (s: String) {
        proof {
            use_type_invariant(self);
        }
        let mut s = String::new();
        push_fixed(&mut s, self.year as u32, 4);
        s.append("-");
        push_fixed(&mut s, self.month, 2);
        s.append("-");
        push_fixed(&mut s, self.day, 2);
        assert(s@ =~= date_text(self.deep_view()));
        s
    }
}

} // verus!
