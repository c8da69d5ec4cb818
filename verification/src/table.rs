use vstd::prelude::*;

use crate::month::Month;

verus! {

/// A day of the month, 1-based.
pub type Day = u8;

/// A day of the year, 1-based: 1 is January 1.
pub type DayOfYear = u16;

/// The fixed per-leap-ness day-count table:
/// [31, 28 or 29, 31, 30, 31, 30, 31, 31, 30, 31, 30, 31].
pub open spec fn month_days_spec(leap: bool, month: Month) -> int {
    match month {
        Month::January => 31,
        Month::February => if leap { 29 } else { 28 },
        Month::March => 31,
        Month::April => 30,
        Month::May => 31,
        Month::June => 30,
        Month::July => 31,
        Month::August => 31,
        Month::September => 30,
        Month::October => 31,
        Month::November => 30,
        Month::December => 31,
    }
}

/// The 1-based day-of-year on which a month begins: January starts on
/// day 1, and every other month starts one past the end of its predecessor.
pub open spec fn first_of_month_spec(leap: bool, month: Month) -> int
    decreases month.ordinal_spec(),
{
    if month == Month::January {
        1
    } else {
        first_of_month_spec(leap, month.prev_spec())
            + month_days_spec(leap, month.prev_spec())
    }
}

/// The 1-based day-of-year on which a month ends (inclusive).
pub open spec fn last_of_month_spec(leap: bool, month: Month) -> int {
    first_of_month_spec(leap, month) + month_days_spec(leap, month) - 1
}

/// The number of days in a year of the given leap-ness: the last day of
/// December.
pub open spec fn total_days_spec(leap: bool) -> int {
    last_of_month_spec(leap, Month::December)
}

/// The first-of-month table written out: the cumulative sums of the
/// day-count table, for both leap-nesses, and the year totals 366 and 365.
pub proof fn lemma_month_starts(leap: bool)
    ensures
        first_of_month_spec(leap, Month::January) == 1,
        first_of_month_spec(leap, Month::February) == 32,
        first_of_month_spec(leap, Month::March) == if leap { 61int } else { 60int },
        first_of_month_spec(leap, Month::April) == if leap { 92int } else { 91int },
        first_of_month_spec(leap, Month::May) == if leap { 122int } else { 121int },
        first_of_month_spec(leap, Month::June) == if leap { 153int } else { 152int },
        first_of_month_spec(leap, Month::July) == if leap { 183int } else { 182int },
        first_of_month_spec(leap, Month::August) == if leap { 214int } else { 213int },
        first_of_month_spec(leap, Month::September) == if leap { 245int } else { 244int },
        first_of_month_spec(leap, Month::October) == if leap { 275int } else { 274int },
        first_of_month_spec(leap, Month::November) == if leap { 306int } else { 305int },
        first_of_month_spec(leap, Month::December) == if leap { 336int } else { 335int },
        total_days_spec(leap) == if leap { 366int } else { 365int },
{
    reveal_with_fuel(first_of_month_spec, 13);
}

/// February has 29 days if and only if the year is leap, and 28 days
/// otherwise; no other month's day count depends on leap-ness.
pub proof fn lemma_february_days(leap: bool)
    ensures
        month_days_spec(leap, Month::February) == 29 <==> leap,
        month_days_spec(leap, Month::February) == if leap { 29int } else { 28int },
        forall|month: Month| month != Month::February
            ==> month_days_spec(leap, month) == month_days_spec(!leap, month),
{
}

/// A year has 366 days if and only if it is leap, and 365 days otherwise.
pub proof fn lemma_total_days(leap: bool)
    ensures
        total_days_spec(leap) == 366 <==> leap,
        total_days_spec(leap) == if leap { 366int } else { 365int },
{
    lemma_month_starts(leap);
}

/// The number of days in the given month for the given leap-ness.
pub fn month_days_of(leap: bool, month: Month) -> (r: Day)
    ensures
        r as int == month_days_spec(leap, month),
{
    match month {
        Month::January => 31,
        Month::February => if leap { 29 } else { 28 },
        Month::March => 31,
        Month::April => 30,
        Month::May => 31,
        Month::June => 30,
        Month::July => 31,
        Month::August => 31,
        Month::September => 30,
        Month::October => 31,
        Month::November => 30,
        Month::December => 31,
    }
}

/// The 1-based day-of-year on which the given month begins, from the
/// precomputed table for the given leap-ness.
pub fn first_of_month(leap: bool, month: Month) -> (r: DayOfYear)
    ensures
        r as int == first_of_month_spec(leap, month),
{
    proof {
        lemma_month_starts(leap);
    }
    match month {
        Month::January => 1,
        Month::February => 32,
        Month::March => if leap { 61 } else { 60 },
        Month::April => if leap { 92 } else { 91 },
        Month::May => if leap { 122 } else { 121 },
        Month::June => if leap { 153 } else { 152 },
        Month::July => if leap { 183 } else { 182 },
        Month::August => if leap { 214 } else { 213 },
        Month::September => if leap { 245 } else { 244 },
        Month::October => if leap { 275 } else { 274 },
        Month::November => if leap { 306 } else { 305 },
        Month::December => if leap { 336 } else { 335 },
    }
}

/// The 1-based day-of-year on which the given month ends (inclusive).
pub fn last_of_month(leap: bool, month: Month) -> (r: DayOfYear)
    ensures
        r as int == last_of_month_spec(leap, month),
{
    proof {
        lemma_month_starts(leap);
    }
    let f = first_of_month(leap, month);
    let d = month_days_of(leap, month);
    f + d as DayOfYear - 1
}

/// The number of days in a year of the given leap-ness.
pub fn total_days_of(leap: bool) -> (r: DayOfYear)
    ensures
        r as int == total_days_spec(leap),
{
    proof {
        lemma_month_starts(leap);
    }
    if leap {
        366
    } else {
        365
    }
}

/// The month whose day-of-year range contains the given day, found by the
/// calendar-order scan starting at `month`: the first month from there on
/// whose [first, last] range contains the day, or none past December.
pub open spec fn find_month_spec(leap: bool, day_of_year: int, month: Month) -> Option<Month>
    decreases 12 - month.ordinal_spec(),
{
    if first_of_month_spec(leap, month) <= day_of_year
        && day_of_year <= last_of_month_spec(leap, month) {
        Some(month)
    } else if month == Month::December {
        None
    } else {
        find_month_spec(leap, day_of_year, month.next_spec())
    }
}

/// The (month, day-of-month) pair a day-of-year decodes to: the month whose
/// range contains it, and the 1-based offset into that month; or none when
/// no month's range contains it.
pub open spec fn decode_spec(leap: bool, day_of_year: int) -> Option<(Month, int)> {
    match find_month_spec(leap, day_of_year, Month::January) {
        Some(month) => Some((
            month,
            day_of_year - first_of_month_spec(leap, month) + 1,
        )),
        None => None,
    }
}

/// A day inside some month's day-of-year range is found by the scan from
/// January, and no other month is: the ranges are disjoint.
pub proof fn lemma_find_month_some(leap: bool, day_of_year: int, month: Month)
    requires
        first_of_month_spec(leap, month) <= day_of_year,
        day_of_year <= last_of_month_spec(leap, month),
    ensures
        find_month_spec(leap, day_of_year, Month::January) == Some(month),
{
    lemma_month_starts(leap);
    reveal_with_fuel(find_month_spec, 13);
}

/// A day outside [1, total days] is found by no month: the scan from
/// January falls through past December.
pub proof fn lemma_find_month_none(leap: bool, day_of_year: int)
    requires
        day_of_year < 1 || day_of_year > total_days_spec(leap),
    ensures
        find_month_spec(leap, day_of_year, Month::January) is None,
{
    lemma_month_starts(leap);
    reveal_with_fuel(find_month_spec, 13);
}

/// Every day in [1, total days] is found by the scan from January, in a
/// month whose range contains it: the twelve ranges cover the whole year.
pub proof fn lemma_find_month_in_range(leap: bool, day_of_year: int)
    requires
        1 <= day_of_year <= total_days_spec(leap),
    ensures
        find_month_spec(leap, day_of_year, Month::January) matches Some(month)
            && first_of_month_spec(leap, month) <= day_of_year
            && day_of_year <= last_of_month_spec(leap, month),
{
    lemma_month_starts(leap);
    reveal_with_fuel(find_month_spec, 13);
}

/// Decoding a day-of-year in [1, total days] yields the month whose range
/// contains it and a day-of-month in [1, days of that month].
pub proof fn lemma_decode_some(leap: bool, day_of_year: int)
    requires
        1 <= day_of_year <= total_days_spec(leap),
    ensures
        decode_spec(leap, day_of_year) matches Some((month, day))
            && first_of_month_spec(leap, month) <= day_of_year
            && day_of_year <= last_of_month_spec(leap, month)
            && day == day_of_year - first_of_month_spec(leap, month) + 1
            && 1 <= day <= month_days_spec(leap, month),
{
    lemma_find_month_in_range(leap, day_of_year);
}

/// Round trip: encoding a valid (month, day-of-month) as a day-of-year by
/// `first_of_month(month) + day - 1` and decoding it again gives back
/// exactly the same pair.
pub proof fn lemma_decode_round_trip(leap: bool, month: Month, day: int)
    requires
        1 <= day <= month_days_spec(leap, month),
    ensures
        decode_spec(leap, first_of_month_spec(leap, month) + day - 1)
            == Some((month, day)),
{
    lemma_find_month_some(leap, first_of_month_spec(leap, month) + day - 1, month);
}

/// Boundaries of the decoder's domain: day 0 and day total+1 decode to
/// nothing; day 1 is January 1 and the last day is December 31.
pub proof fn lemma_decode_bounds(leap: bool)
    ensures
        decode_spec(leap, 0) is None,
        decode_spec(leap, total_days_spec(leap) + 1) is None,
        decode_spec(leap, 1) == Some((Month::January, 1int)),
        decode_spec(leap, total_days_spec(leap)) == Some((Month::December, 31int)),
{
    lemma_month_starts(leap);
    lemma_find_month_none(leap, 0);
    lemma_find_month_none(leap, total_days_spec(leap) + 1);
    lemma_find_month_some(leap, 1, Month::January);
    lemma_find_month_some(leap, total_days_spec(leap), Month::December);
}

/// Decodes a day-of-year into its (month, day-of-month) pair by scanning
/// the months in calendar order; succeeds exactly on [1, total days].
pub fn decode_day_of_year(leap: bool, day_of_year: DayOfYear) -> (r: Option<(Month, Day)>)
    ensures
        r is Some <==> 1 <= day_of_year as int <= total_days_spec(leap),
        r matches Some((month, day))
            ==> decode_spec(leap, day_of_year as int) == Some((month, day as int)),
        r is None ==> decode_spec(leap, day_of_year as int) is None,
{
    let mut month = Month::January;
    loop
        invariant
            find_month_spec(leap, day_of_year as int, Month::January)
                == find_month_spec(leap, day_of_year as int, month),
        decreases 12 - month.ordinal_spec(),
    {
        let first = first_of_month(leap, month);
        let last = last_of_month(leap, month);
        if first <= day_of_year && day_of_year <= last {
            proof {
                lemma_month_starts(leap);
            }
            let day = (day_of_year - first + 1) as Day;
            return Some((month, day));
        }
        if matches!(month, Month::December) {
            proof {
                if 1 <= day_of_year as int && day_of_year as int <= total_days_spec(leap) {
                    lemma_find_month_in_range(leap, day_of_year as int);
                }
            }
            return None;
        }
        month = month.next();
    }
}

} // verus!
