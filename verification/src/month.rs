use vstd::prelude::*;

use crate::error::Error;

verus! {

/// A calendar month: a closed 12-value enumeration with cyclic
/// successor/predecessor and a bijective mapping to the integers 1..=12.
#[derive(Debug, Clone, Copy, PartialEq, Eq, Structural)]
pub enum Month {
    January,
    February,
    March,
    April,
    May,
    June,
    July,
    August,
    September,
    October,
    November,
    December,
}

impl Month {
    /// The fixed ordinal of this month: January is 1, December is 12.
    pub open spec fn ordinal_spec(self) -> int {
        match self {
            Month::January => 1,
            Month::February => 2,
            Month::March => 3,
            Month::April => 4,
            Month::May => 5,
            Month::June => 6,
            Month::July => 7,
            Month::August => 8,
            Month::September => 9,
            Month::October => 10,
            Month::November => 11,
            Month::December => 12,
        }
    }

    /// The cyclic successor: December wraps to January.
    pub open spec fn next_spec(self) -> Month {
        match self {
            Month::January => Month::February,
            Month::February => Month::March,
            Month::March => Month::April,
            Month::April => Month::May,
            Month::May => Month::June,
            Month::June => Month::July,
            Month::July => Month::August,
            Month::August => Month::September,
            Month::September => Month::October,
            Month::October => Month::November,
            Month::November => Month::December,
            Month::December => Month::January,
        }
    }

    /// The cyclic predecessor: January wraps to December.
    pub open spec fn prev_spec(self) -> Month {
        match self {
            Month::January => Month::December,
            Month::February => Month::January,
            Month::March => Month::February,
            Month::April => Month::March,
            Month::May => Month::April,
            Month::June => Month::May,
            Month::July => Month::June,
            Month::August => Month::July,
            Month::September => Month::August,
            Month::October => Month::September,
            Month::November => Month::October,
            Month::December => Month::November,
        }
    }

    /// The month of a given ordinal, if the ordinal lies in 1..=12.
    pub open spec fn from_ordinal_spec(n: int) -> Option<Month> {
        if n == 1 {
            Some(Month::January)
        } else if n == 2 {
            Some(Month::February)
        } else if n == 3 {
            Some(Month::March)
        } else if n == 4 {
            Some(Month::April)
        } else if n == 5 {
            Some(Month::May)
        } else if n == 6 {
            Some(Month::June)
        } else if n == 7 {
            Some(Month::July)
        } else if n == 8 {
            Some(Month::August)
        } else if n == 9 {
            Some(Month::September)
        } else if n == 10 {
            Some(Month::October)
        } else if n == 11 {
            Some(Month::November)
        } else if n == 12 {
            Some(Month::December)
        } else {
            None
        }
    }

    /// The cyclic successor of this month (total: no error case).
    pub fn next(&self) -> (r: Month)
        ensures
            r == self.next_spec(),
    {
        match self {
            Month::January => Month::February,
            Month::February => Month::March,
            Month::March => Month::April,
            Month::April => Month::May,
            Month::May => Month::June,
            Month::June => Month::July,
            Month::July => Month::August,
            Month::August => Month::September,
            Month::September => Month::October,
            Month::October => Month::November,
            Month::November => Month::December,
            Month::December => Month::January,
        }
    }

    /// The cyclic predecessor of this month (total: no error case).
    pub fn prev(&self) -> (r: Month)
        ensures
            r == self.prev_spec(),
    {
        match self {
            Month::January => Month::December,
            Month::February => Month::January,
            Month::March => Month::February,
            Month::April => Month::March,
            Month::May => Month::April,
            Month::June => Month::May,
            Month::July => Month::June,
            Month::August => Month::July,
            Month::September => Month::August,
            Month::October => Month::September,
            Month::November => Month::October,
            Month::December => Month::November,
        }
    }

    /// The ordinal of this month, in 1..=12.
    pub fn ordinal(&self) -> (r: u8)
        ensures
            r as int == self.ordinal_spec(),
    {
        match self {
            Month::January => 1,
            Month::February => 2,
            Month::March => 3,
            Month::April => 4,
            Month::May => 5,
            Month::June => 6,
            Month::July => 7,
            Month::August => 8,
            Month::September => 9,
            Month::October => 10,
            Month::November => 11,
            Month::December => 12,
        }
    }

    /// The month with the given ordinal; rejects 0 and any value >= 13.
    pub fn from_ordinal(n: u8) -> (r: Result<Month, Error>)
        ensures
            r is Ok <==> 1 <= n <= 12,
            r matches Ok(m) ==> Month::from_ordinal_spec(n as int) == Some(m),
            r matches Err(e) ==> e == Error::InvalidMonthNumber,
    {
        match n {
            1 => Ok(Month::January),
            2 => Ok(Month::February),
            3 => Ok(Month::March),
            4 => Ok(Month::April),
            5 => Ok(Month::May),
            6 => Ok(Month::June),
            7 => Ok(Month::July),
            8 => Ok(Month::August),
            9 => Ok(Month::September),
            10 => Ok(Month::October),
            11 => Ok(Month::November),
            12 => Ok(Month::December),
            _ => Err(Error::InvalidMonthNumber),
        }
    }
}

/// The ordinal mapping is a bijection between the 12 months and 1..=12:
/// every month is recovered from its own ordinal, every ordinal in 1..=12
/// names exactly one month, and every other integer names none.
pub proof fn lemma_ordinal_bijection(m: Month, n: int)
    ensures
        Month::from_ordinal_spec(m.ordinal_spec()) == Some(m),
        1 <= n <= 12 ==> (Month::from_ordinal_spec(n) matches Some(mn)
            && mn.ordinal_spec() == n),
        !(1 <= n <= 12) ==> Month::from_ordinal_spec(n) is None,
{
}

} // verus!
