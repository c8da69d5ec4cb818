use vstd::prelude::*;

use crate::date::Date;
use crate::date::on_or_after_cutover;
use crate::date::valid_day;
use crate::error::Error;
use crate::month::Month;
use crate::table::Day;
use crate::table::DayOfYear;
use crate::table::decode_spec;
use crate::table::lemma_decode_some;
use crate::table::total_days_spec;
use crate::year::Year;
use crate::year::is_leap_spec;

verus! {

/// Which of the builder's two mutually exclusive modes holds the day input:
/// an explicit (month, day-of-month) pair, or a raw day-of-year ordinal.
#[derive(Debug, Clone, Copy, PartialEq, Eq, Structural)]
pub enum DaySelection {
    MonthAndDay(Month, Day),
    DayOfYear(DayOfYear),
}

/// Setting a month keeps an explicit day, and switches day-of-year mode to
/// month-and-day mode with the day reset to 1.
pub open spec fn set_month_sel(sel: DaySelection, month: Month) -> DaySelection {
    match sel {
        DaySelection::MonthAndDay(_, day) => DaySelection::MonthAndDay(month, day),
        DaySelection::DayOfYear(_) => DaySelection::MonthAndDay(month, 1),
    }
}

/// Setting a day keeps an explicit month, and switches day-of-year mode to
/// month-and-day mode with the month reset to January.
pub open spec fn set_day_sel(sel: DaySelection, day: Day) -> DaySelection {
    match sel {
        DaySelection::MonthAndDay(month, _) => DaySelection::MonthAndDay(month, day),
        DaySelection::DayOfYear(_) => DaySelection::MonthAndDay(Month::January, day),
    }
}

/// Setting a day-of-year discards whatever was selected before.
pub open spec fn set_day_of_year_sel(sel: DaySelection, day_of_year: DayOfYear) -> DaySelection {
    DaySelection::DayOfYear(day_of_year)
}

/// A mutable accumulator of date-construction inputs: a year (default 2000)
/// and either an explicit (month, day) pair (default January 1) or a
/// day-of-year ordinal. Consumed by `build`, which validates the inputs.
pub struct DateBuilder {
    year: u16,
    date: DaySelection,
}

impl DateBuilder {
    /// The accumulated year input.
    pub closed spec fn spec_year(self) -> int {
        self.year as int
    }

    /// The accumulated day input, in whichever mode it was last set.
    pub closed spec fn spec_selection(self) -> DaySelection {
        self.date
    }

    /// A fresh builder: year 2000, month-and-day mode with January 1.
    pub fn new() -> (r: DateBuilder)
        ensures
            r.spec_year() == 2000,
            r.spec_selection() == DaySelection::MonthAndDay(Month::January, 1 as Day),
    {
        DateBuilder { year: 2000, date: DaySelection::MonthAndDay(Month::January, 1) }
    }

    /// Replaces the year input; the day selection is untouched.
    pub fn year(self, year: u16) -> (r: DateBuilder)
        ensures
            r.spec_year() == year as int,
            r.spec_selection() == self.spec_selection(),
    {
        DateBuilder { year, date: self.date }
    }

    /// Replaces the month input, switching to month-and-day mode: an
    /// explicit day is kept, a day-of-year is discarded and the day reset
    /// to 1.
    pub fn month(self, month: Month) -> (r: DateBuilder)
        ensures
            r.spec_year() == self.spec_year(),
            r.spec_selection() == set_month_sel(self.spec_selection(), month),
    {
        let date = match self.date {
            DaySelection::MonthAndDay(_, day) => DaySelection::MonthAndDay(month, day),
            DaySelection::DayOfYear(_) => DaySelection::MonthAndDay(month, 1),
        };
        DateBuilder { year: self.year, date }
    }

    /// Replaces the day input, switching to month-and-day mode: an explicit
    /// month is kept, a day-of-year is discarded and the month reset to
    /// January.
    pub fn day(self, day: Day) -> (r: DateBuilder)
        ensures
            r.spec_year() == self.spec_year(),
            r.spec_selection() == set_day_sel(self.spec_selection(), day),
    {
        let date = match self.date {
            DaySelection::MonthAndDay(month, _) => DaySelection::MonthAndDay(month, day),
            DaySelection::DayOfYear(_) => DaySelection::MonthAndDay(Month::January, day),
        };
        DateBuilder { year: self.year, date }
    }

    /// Replaces the day input with a day-of-year ordinal, discarding any
    /// month and day previously set.
    pub fn day_of_year(self, day_of_year: DayOfYear) -> (r: DateBuilder)
        ensures
            r.spec_year() == self.spec_year(),
            r.spec_selection() == set_day_of_year_sel(self.spec_selection(), day_of_year),
    {
        DateBuilder { year: self.year, date: DaySelection::DayOfYear(day_of_year) }
    }

    /// Validates the accumulated inputs into a `Date`. In month-and-day
    /// mode a day outside the month fails with `InvalidDay`; in day-of-year
    /// mode an ordinal outside [1, total days of the year] fails with
    /// `InvalidDayOfYear`, and an ordinal inside it decodes to a (month,
    /// day) pair. Either way, a resolved triple earlier than October 15,
    /// 1582 fails with `InvalidDate`. The builder is not consumed.
    pub fn build(&self) -> (r: Result<Date, Error>)
        ensures
            r matches Ok(date) ==> date.wf() && date.spec_year().spec_value() == self.spec_year(),
            match self.spec_selection() {
                DaySelection::MonthAndDay(month, day) => {
                    &&& (r is Ok <==> valid_day(is_leap_spec(self.spec_year()), month, day as int)
                        && on_or_after_cutover(self.spec_year(), month, day as int))
                    &&& (r matches Ok(date)
                        ==> date.spec_month() == month && date.spec_day() == day as int)
                    &&& (r == Err::<Date, Error>(Error::InvalidDay)
                        <==> !valid_day(is_leap_spec(self.spec_year()), month, day as int))
                    &&& (r == Err::<Date, Error>(Error::InvalidDate)
                        <==> valid_day(is_leap_spec(self.spec_year()), month, day as int)
                            && !on_or_after_cutover(self.spec_year(), month, day as int))
                },
                DaySelection::DayOfYear(day_of_year) => {
                    &&& (r == Err::<Date, Error>(Error::InvalidDayOfYear)
                        <==> !(1 <= day_of_year as int
                            <= total_days_spec(is_leap_spec(self.spec_year()))))
                    &&& (decode_spec(is_leap_spec(self.spec_year()), day_of_year as int)
                        matches Some((month, day)) ==> {
                            &&& (r is Ok <==> on_or_after_cutover(self.spec_year(), month, day))
                            &&& (r matches Ok(date)
                                ==> date.spec_month() == month && date.spec_day() == day)
                            &&& (r == Err::<Date, Error>(Error::InvalidDate)
                                <==> !on_or_after_cutover(self.spec_year(), month, day))
                        })
                },
            },
    {
        match self.date {
            DaySelection::MonthAndDay(month, day) => Date::new(self.year, month, day),
            DaySelection::DayOfYear(day_of_year) => {
                let year = Year::new(self.year);
                match year.day_of_year_to_month_and_day(day_of_year) {
                    Some((month, day)) => {
                        proof {
                            lemma_decode_some(is_leap_spec(self.year as int), day_of_year as int);
                        }
                        Date::new(self.year, month, day)
                    },
                    None => Err(Error::InvalidDayOfYear),
                }
            },
        }
    }
}

/// Mode switches discard the other mode's accumulated day input: setting a
/// day-of-year then a month yields that month with the day reset to 1;
/// setting a day-of-year then a day yields January with that day; and
/// setting a day-of-year after any month or day discards them entirely.
pub proof fn lemma_builder_mode_switch(sel: DaySelection, day_of_year: DayOfYear, month: Month, day: Day)
    ensures
        set_month_sel(set_day_of_year_sel(sel, day_of_year), month)
            == DaySelection::MonthAndDay(month, 1 as Day),
        set_day_sel(set_day_of_year_sel(sel, day_of_year), day)
            == DaySelection::MonthAndDay(Month::January, day),
        set_day_of_year_sel(set_month_sel(sel, month), day_of_year)
            == DaySelection::DayOfYear(day_of_year),
        set_day_of_year_sel(set_day_sel(sel, day), day_of_year)
            == DaySelection::DayOfYear(day_of_year),
{
}

} // verus!
