use vstd::prelude::*;

use crate::month::Month;
use crate::table;
use crate::table::Day;
use crate::table::DayOfYear;
use crate::table::decode_spec;
use crate::table::month_days_spec;
use crate::table::total_days_spec;

verus! {

/// A year is leap if and only if it is divisible by 4 and either not
/// divisible by 100 or divisible by 400.
pub open spec fn is_leap_spec(year: int) -> bool {
    year % 4 == 0 && (year % 100 != 0 || year % 400 == 0)
}

/// A calendar year: the year integer together with its leap flag, which is
/// classified once at construction and never recomputed.
#[derive(Debug, Clone, Copy, PartialEq, Eq, Structural)]
pub struct Year {
    value: u16,
    leap: bool,
}

impl Year {
    /// The calendar-year integer this value wraps.
    pub closed spec fn spec_value(self) -> int {
        self.value as int
    }

    /// The leap flag stored at construction.
    pub closed spec fn spec_leap(self) -> bool {
        self.leap
    }

    /// A well-formed year's stored leap flag agrees with the leap rule.
    pub open spec fn wf(self) -> bool {
        self.spec_leap() == is_leap_spec(self.spec_value())
    }

    /// Wraps a year integer, classifying its leap-ness by the rule
    /// (total: no invalid calendar years).
    pub fn new(year: u16) -> (r: Year)
        ensures
            r.spec_value() == year as int,
            r.wf(),
    {
        let leap = (year % 4 == 0) && (year % 100 != 0 || year % 400 == 0);
        Year { value: year, leap }
    }

    /// The year integer.
    pub fn value(&self) -> (r: u16)
        ensures
            r as int == self.spec_value(),
    {
        self.value
    }

    /// Whether this year is leap, from the flag cached at construction.
    pub fn is_leap(&self) -> (r: bool)
        ensures
            r == self.spec_leap(),
    {
        self.leap
    }

    /// The number of days of the given month in this year.
    pub fn month_days(&self, month: Month) -> (r: Day)
        ensures
            r as int == month_days_spec(self.spec_leap(), month),
    {
        table::month_days_of(self.leap, month)
    }

    /// The number of days in this year: 366 when leap, 365 otherwise.
    pub fn total_days(&self) -> (r: DayOfYear)
        ensures
            r as int == total_days_spec(self.spec_leap()),
    {
        table::total_days_of(self.leap)
    }

    /// Decodes a day-of-year into its (month, day-of-month) pair for this
    /// year's leap-ness; succeeds exactly on [1, total days of this year].
    pub fn day_of_year_to_month_and_day(&self, day_of_year: DayOfYear) -> (r: Option<(Month, Day)>)
        ensures
            r is Some <==> 1 <= day_of_year as int <= total_days_spec(self.spec_leap()),
            r matches Some((month, day))
                ==> decode_spec(self.spec_leap(), day_of_year as int) == Some((month, day as int)),
            r is None ==> decode_spec(self.spec_leap(), day_of_year as int) is None,
    {
        table::decode_day_of_year(self.leap, day_of_year)
    }
}

/// The leap rule in full: a year is leap exactly when it is divisible by 4
/// and either not divisible by 100 or divisible by 400.
pub proof fn lemma_leap_rule(year: int)
    ensures
        is_leap_spec(year) <==> (year % 4 == 0 && (year % 100 != 0 || year % 400 == 0)),
{
}

} // verus!
