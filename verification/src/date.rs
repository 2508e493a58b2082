//! Calendar dates as day numbers.
//!
//! A [`Date`] is a day of the proleptic Gregorian calendar, counted from
//! 1 January of year 1, which is day 1. Order and distance between dates are
//! order and distance between their day numbers. Text, ISO weeks, weekday names
//! and the clock come from `chrono`.

use chrono::Datelike;
use vstd::prelude::*;

verus! {

/// Day number of the earliest date that `chrono::NaiveDate` holds, 1 January 262144 BCE.
pub const MIN_DAYS: i32 = -95_746_129;

/// Day number of the latest date that `chrono::NaiveDate` holds, 31 December 262142 CE.
pub const MAX_DAYS: i32 = 95_745_399;

/// The `chrono` pattern of a stored date: year, month and day, separated by hyphens.
pub const DATE_PATTERN: &'static str = "%Y-%m-%d";

/// Whether `days` is the day number of a date that can be represented.
pub open spec fn representable(days: int) -> bool {
    MIN_DAYS <= days <= MAX_DAYS
}

/// The day number that `chrono::NaiveDate::parse_from_str` reads from `text` under
/// `pattern`, or `None` where it reports an error.
pub uninterp spec fn parsed_day_number(text: Seq<char>, pattern: Seq<char>) -> Option<int>;

/// The text that `chrono::NaiveDate::format` gives for the date with day number `days`
/// under `pattern`.
pub uninterp spec fn formatted_date(days: int, pattern: Seq<char>) -> Seq<char>;

/// ISO 8601 week of the date with day number `days`, as `chrono` computes it:
/// the week's year, then its number in that year.
pub uninterp spec fn iso_week_of(days: int) -> (int, int);

/// The name that `chrono` prints for the weekday of the date with day number `days`.
pub uninterp spec fn weekday_name_of(days: int) -> Seq<char>;

/// Calls `chrono::NaiveDate::parse_from_str` and hands back the day number of
/// the date it read (`Datelike::num_days_from_ce`), or `None` for any parse error.
/// Trusted: the result is a function of the two texts alone, and a date that
/// `chrono` returns lies between its earliest and latest date.
#[verifier::external_body]
fn parse_day_number(text: &str, pattern: &str) -> (r: Option<i32>)
    ensures
        match r {
            Some(days) => parsed_day_number(text@, pattern@) == Some(days as int) && representable(
                days as int,
            ),
            None => parsed_day_number(text@, pattern@) is None,
        },
{
    match chrono::NaiveDate::parse_from_str(text, pattern) {
        Ok(date) => Some(date.num_days_from_ce()),
        Err(_) => None,
    }
}

/// Calls `chrono::NaiveDate::format` on the date with day number `days` and
/// collects the text. Trusted: the text is a function of the day number and the
/// pattern alone. The pattern is held to [`DATE_PATTERN`], for which formatting
/// does not fail, and the day number to the dates that `chrono` can build.
#[verifier::external_body]
fn format_day_number(days: i32, pattern: &str) -> (r: String)
    requires
        representable(days as int),
        pattern@ == DATE_PATTERN@,
    ensures
        r@ == formatted_date(days as int, pattern@),
{
    chrono::NaiveDate::from_num_days_from_ce_opt(days).unwrap().format(pattern).to_string()
}

/// Calls `Datelike::iso_week` on the date with day number `days` and hands back
/// the week's year and number. Trusted: both are functions of the day number alone.
#[verifier::external_body]
fn iso_week_of_day_number(days: i32) -> (r: (i32, u32))
    requires
        representable(days as int),
    ensures
        (r.0 as int, r.1 as int) == iso_week_of(days as int),
{
    let week = chrono::NaiveDate::from_num_days_from_ce_opt(days).unwrap().iso_week();
    (week.year(), week.week())
}

/// Prints `Datelike::weekday` of the date with day number `days` through
/// `chrono::Weekday`'s `Display`. Trusted: the text is a function of the day
/// number alone.
#[verifier::external_body]
fn weekday_name_of_day_number(days: i32) -> (r: String)
    requires
        representable(days as int),
    ensures
        r@ == weekday_name_of(days as int),
{
    format!("{}", chrono::NaiveDate::from_num_days_from_ce_opt(days).unwrap().weekday())
}

/// Reads the clock through `chrono::Local::now` and hands back the day number of
/// the local calendar date. Trusted: only that the day number is one of a date
/// that `chrono` holds; which one depends on the clock and the time zone.
#[verifier::external_body]
fn local_day_number() -> (days: i32)
    ensures
        representable(days as int),
{
    chrono::Local::now().date_naive().num_days_from_ce()
}

/// A calendar date.
#[derive(Clone, Copy, Debug, PartialEq, Eq, Structural)]
pub struct Date {
    days: i32,
}

impl View for Date {
    type V = int;

    /// The date's day number.
    closed spec fn view(&self) -> int {
        self.days as int
    }
}

impl Date {
    #[verifier::type_invariant]
    spec fn in_range(self) -> bool {
        representable(self.days as int)
    }

    /// The date with day number `days`, if there is one.
    pub fn from_days(days: i32) -> (r: Option<Date>)
        ensures
            match r {
                Some(date) => date@ == days && representable(days as int),
                None => !representable(days as int),
            },
    {
        if MIN_DAYS <= days && days <= MAX_DAYS {
            Some(Date { days })
        } else {
            None
        }
    }

    /// The date's day number.
    pub fn days(&self) -> (days: i32)
        ensures
            days == self@,
            representable(days as int),
    {
        proof {
            use_type_invariant(self);
        }
        self.days
    }

    /// Reads a date written as year, month and day; `None` where the text is no such date.
    pub fn parse(text: &str) -> (r: Option<Date>)
        ensures
            match r {
                Some(date) => parsed_day_number(text@, DATE_PATTERN@) == Some(date@)
                    && representable(date@),
                None => parsed_day_number(text@, DATE_PATTERN@) is None,
            },
    {
        match parse_day_number(text, DATE_PATTERN) {
            Some(days) => Some(Date { days }),
            None => None,
        }
    }

    /// The date written as year, month and day.
    pub fn to_text(&self) -> (text: String)
        ensures
            text@ == formatted_date(self@, DATE_PATTERN@),
    {
        proof {
            use_type_invariant(self);
        }
        format_day_number(self.days, DATE_PATTERN)
    }

    /// The local calendar date at the time of the call.
    pub fn today() -> (date: Date)
        ensures
            representable(date@),
    {
        Date { days: local_day_number() }
    }

    /// The date `n` days after this one; `None` past the latest date.
    pub fn plus_days(&self, n: u8) -> (r: Option<Date>)
        ensures
            match r {
                Some(date) => date@ == self@ + n && representable(date@),
                None => !representable(self@ + n),
            },
    {
        proof {
            use_type_invariant(self);
        }
        let days: i32 = self.days + n as i32;
        if days <= MAX_DAYS {
            Some(Date { days })
        } else {
            None
        }
    }

    /// Year and number of the ISO 8601 week that holds the date.
    pub fn iso_week(&self) -> (week: (i32, u32))
        ensures
            (week.0 as int, week.1 as int) == iso_week_of(self@),
    {
        proof {
            use_type_invariant(self);
        }
        iso_week_of_day_number(self.days)
    }

    /// Name of the date's weekday.
    pub fn weekday_name(&self) -> (name: String)
        ensures
            name@ == weekday_name_of(self@),
    {
        proof {
            use_type_invariant(self);
        }
        weekday_name_of_day_number(self.days)
    }
}

} // verus!
