use vstd::prelude::*;

use crate::error::Error;
use crate::month::Month;
use crate::table::Day;
use crate::table::DayOfYear;
use crate::table::month_days_spec;
use crate::table::total_days_spec;
use crate::year::Year;
use crate::year::is_leap_spec;

verus! {

/// The day-of-month is within the month's day count for the given
/// leap-ness.
pub open spec fn valid_day(leap: bool, month: Month, day: int) -> bool {
    1 <= day <= month_days_spec(leap, month)
}

/// The triple (year, month, day), ordered lexicographically by
/// (year, month ordinal, day), is on or after October 15, 1582 — the first
/// date valid under the Gregorian calendar as modeled here.
pub open spec fn on_or_after_cutover(year: int, month: Month, day: int) -> bool {
    ||| year > 1582
    ||| (year == 1582 && month.ordinal_spec() > 10)
    ||| (year == 1582 && month.ordinal_spec() == 10 && day >= 15)
}

/// An immutable, validated (year, month, day-of-month) triple: the day is
/// within the month for that year's leap-ness, and the whole triple is on
/// or after the Gregorian cutover.
#[derive(Debug, Clone, Copy, PartialEq, Eq, Structural)]
pub struct Date {
    year: Year,
    month: Month,
    day: Day,
}

impl Date {
    /// The stored year value.
    pub closed spec fn spec_year(self) -> Year {
        self.year
    }

    /// The stored month.
    pub closed spec fn spec_month(self) -> Month {
        self.month
    }

    /// The stored day-of-month.
    pub closed spec fn spec_day(self) -> int {
        self.day as int
    }

    /// Every date the constructors hand out satisfies this: the year's leap
    /// flag agrees with the rule, the day fits its month, and the triple is
    /// on or after the cutover.
    pub open spec fn wf(self) -> bool {
        &&& self.spec_year().wf()
        &&& valid_day(self.spec_year().spec_leap(), self.spec_month(), self.spec_day())
        &&& on_or_after_cutover(self.spec_year().spec_value(), self.spec_month(), self.spec_day())
    }

    /// Validates and assembles a (year, month, day) triple: rejects a day
    /// outside the month with `InvalidDay`, then a triple earlier than
    /// October 15, 1582 with `InvalidDate`; anything equal or later succeeds.
    pub fn new(year: u16, month: Month, day: Day) -> (r: Result<Date, Error>)
        ensures
            r is Ok <==> valid_day(is_leap_spec(year as int), month, day as int)
                && on_or_after_cutover(year as int, month, day as int),
            r matches Ok(date) ==> {
                &&& date.wf()
                &&& date.spec_year().spec_value() == year as int
                &&& date.spec_month() == month
                &&& date.spec_day() == day as int
            },
            r == Err::<Date, Error>(Error::InvalidDay)
                <==> !valid_day(is_leap_spec(year as int), month, day as int),
            r == Err::<Date, Error>(Error::InvalidDate)
                <==> valid_day(is_leap_spec(year as int), month, day as int)
                    && !on_or_after_cutover(year as int, month, day as int),
    {
        let y = Year::new(year);
        let days_in_month = y.month_days(month);
        if day < 1 || day > days_in_month {
            return Err(Error::InvalidDay);
        }
        let month_ordinal = month.ordinal();
        let before_cutover = year < 1582
            || (year == 1582 && (month_ordinal < 10 || (month_ordinal == 10 && day < 15)));
        if before_cutover {
            return Err(Error::InvalidDate);
        }
        Ok(Date { year: y, month, day })
    }

    /// The year of this date.
    pub fn year(&self) -> (r: Year)
        ensures
            r == self.spec_year(),
    {
        self.year
    }

    /// The month of this date.
    pub fn month(&self) -> (r: Month)
        ensures
            r == self.spec_month(),
    {
        self.month
    }

    /// The day-of-month of this date.
    pub fn day_of_month(&self) -> (r: Day)
        ensures
            r as int == self.spec_day(),
    {
        self.day
    }

    /// Whether this date's year is leap.
    pub fn is_leap_year(&self) -> (r: bool)
        ensures
            r == self.spec_year().spec_leap(),
    {
        self.year.is_leap()
    }

    /// The number of days in this date's year.
    pub fn year_days(&self) -> (r: DayOfYear)
        ensures
            r as int == total_days_spec(self.spec_year().spec_leap()),
    {
        self.year.total_days()
    }

    /// The number of days in this date's month.
    pub fn month_days(&self) -> (r: Day)
        ensures
            r as int == month_days_spec(self.spec_year().spec_leap(), self.spec_month()),
    {
        self.year.month_days(self.month)
    }
}

} // verus!
