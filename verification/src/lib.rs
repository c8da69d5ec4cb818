//! A proleptic Gregorian calendar date library.
//!
//! Validates, normalizes, and decomposes (year, month, day) triples,
//! rejects dates earlier than the Gregorian calendar adoption date
//! (October 15, 1582), computes leap-year status, and converts between
//! (month, day-of-month) and day-of-year representations.

pub mod builder;
pub mod date;
pub mod error;
pub mod month;
pub mod table;
pub mod year;

pub use builder::DateBuilder;
pub use builder::DaySelection;
pub use date::Date;
pub use error::Error;
pub use month::Month;
pub use table::Day;
pub use table::DayOfYear;
pub use year::Year;
