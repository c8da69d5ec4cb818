use vstd::prelude::*;

verus! {

/// The error kinds surfaced by every fallible operation of this library.
#[derive(Debug, Clone, Copy, PartialEq, Eq, Structural)]
pub enum Error {
    /// A structurally valid (year, month, day) that predates October 15, 1582.
    InvalidDate,
    /// An integer outside 1..=12 passed to month conversion.
    InvalidMonthNumber,
    /// A day-of-month outside [1, days-in-that-month-for-that-year].
    InvalidDay,
    /// A day-of-year outside [1, total-days-for-that-year].
    InvalidDayOfYear,
}

} // verus!
