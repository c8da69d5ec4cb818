use gregorian::Date;
use gregorian::DateBuilder;
use gregorian::Error;
use gregorian::Month;
use gregorian::Year;

const MONTHS: [Month; 12] = [
    Month::January,
    Month::February,
    Month::March,
    Month::April,
    Month::May,
    Month::June,
    Month::July,
    Month::August,
    Month::September,
    Month::October,
    Month::November,
    Month::December,
];

#[test]
fn leap_rule_concrete() {
    assert!(Year::new(2000).is_leap());
    assert!(!Year::new(2001).is_leap());
    assert!(!Year::new(2002).is_leap());
    assert!(!Year::new(2003).is_leap());
    assert!(Year::new(2004).is_leap());
    assert!(!Year::new(2100).is_leap());
    assert!(Year::new(1600).is_leap());
    assert!(!Year::new(1900).is_leap());
}

#[test]
fn year_total_days() {
    assert_eq!(Year::new(2000).total_days(), 366);
    assert_eq!(Year::new(2001).total_days(), 365);
    assert_eq!(Year::new(2100).total_days(), 365);
    assert_eq!(Year::new(2400).total_days(), 366);
}

#[test]
fn february_days_follow_leap_ness() {
    assert_eq!(Year::new(2000).month_days(Month::February), 29);
    assert_eq!(Year::new(2001).month_days(Month::February), 28);
    assert_eq!(Year::new(2100).month_days(Month::February), 28);
}

#[test]
fn day_of_year_round_trip() {
    for year in [2000u16, 2001] {
        let y = Year::new(year);
        let leap = y.is_leap();
        for m in MONTHS {
            let first = gregorian::table::first_of_month(leap, m);
            let days = y.month_days(m);
            for d in 1..=days {
                let day_of_year = first + d as u16 - 1;
                assert_eq!(y.day_of_year_to_month_and_day(day_of_year), Some((m, d)));
            }
        }
    }
}

#[test]
fn day_of_year_boundaries() {
    for year in [2000u16, 2001] {
        let y = Year::new(year);
        let total = y.total_days();
        assert_eq!(y.day_of_year_to_month_and_day(0), None);
        assert_eq!(y.day_of_year_to_month_and_day(total + 1), None);
        assert_eq!(y.day_of_year_to_month_and_day(1), Some((Month::January, 1)));
        assert_eq!(y.day_of_year_to_month_and_day(total), Some((Month::December, 31)));
    }
}

#[test]
fn decode_concrete_values() {
    let leap = Year::new(2000);
    assert_eq!(leap.day_of_year_to_month_and_day(32), Some((Month::February, 1)));
    assert_eq!(leap.day_of_year_to_month_and_day(60), Some((Month::February, 29)));
    assert_eq!(leap.day_of_year_to_month_and_day(61), Some((Month::March, 1)));
    let common = Year::new(2001);
    assert_eq!(common.day_of_year_to_month_and_day(60), Some((Month::March, 1)));
    assert_eq!(common.day_of_year_to_month_and_day(366), None);
}

#[test]
fn cutover_boundaries() {
    assert!(Date::new(1582, Month::October, 15).is_ok());
    assert_eq!(Date::new(1582, Month::October, 14), Err(Error::InvalidDate));
    assert!(Date::new(1582, Month::October, 16).is_ok());
    assert!(Date::new(1583, Month::January, 1).is_ok());
    assert_eq!(Date::new(1582, Month::September, 30), Err(Error::InvalidDate));
    assert_eq!(Date::new(1581, Month::December, 31), Err(Error::InvalidDate));
    assert_eq!(Date::new(0, Month::January, 1), Err(Error::InvalidDate));
}

#[test]
fn month_ordinal_bijection() {
    for m in MONTHS {
        assert_eq!(Month::from_ordinal(m.ordinal()), Ok(m));
    }
    assert_eq!(Month::from_ordinal(0), Err(Error::InvalidMonthNumber));
    assert_eq!(Month::from_ordinal(13), Err(Error::InvalidMonthNumber));
    assert_eq!(Month::from_ordinal(255), Err(Error::InvalidMonthNumber));
}

#[test]
fn month_cyclic_successor() {
    for i in 0..12usize {
        assert_eq!(MONTHS[i].next(), MONTHS[(i + 1) % 12]);
        assert_eq!(MONTHS[(i + 1) % 12].prev(), MONTHS[i]);
    }
    assert_eq!(Month::December.next(), Month::January);
    assert_eq!(Month::January.prev(), Month::December);
}

#[test]
fn builder_mode_switch_resets() {
    // Day-of-year then month: the day-of-month resets to 1.
    let date = DateBuilder::new()
        .year(2000)
        .day_of_year(100)
        .month(Month::March)
        .build()
        .unwrap();
    assert_eq!(date.month(), Month::March);
    assert_eq!(date.day_of_month(), 1);

    // Day-of-year then day: the month resets to January.
    let date = DateBuilder::new()
        .year(2000)
        .day_of_year(100)
        .day(20)
        .build()
        .unwrap();
    assert_eq!(date.month(), Month::January);
    assert_eq!(date.day_of_month(), 20);

    // Month and day then day-of-year: both are discarded.
    let date = DateBuilder::new()
        .year(2000)
        .month(Month::May)
        .day(20)
        .day_of_year(32)
        .build()
        .unwrap();
    assert_eq!(date.month(), Month::February);
    assert_eq!(date.day_of_month(), 1);
}

#[test]
fn builder_day_of_year_path() {
    let date = DateBuilder::new().year(2000).day_of_year(366).build().unwrap();
    assert_eq!(date.month(), Month::December);
    assert_eq!(date.day_of_month(), 31);
    assert_eq!(
        DateBuilder::new().year(2001).day_of_year(366).build().err(),
        Some(Error::InvalidDayOfYear)
    );
    assert_eq!(
        DateBuilder::new().year(2000).day_of_year(0).build().err(),
        Some(Error::InvalidDayOfYear)
    );
    // A decoded day-of-year before the cutover is an invalid date.
    assert_eq!(
        DateBuilder::new().year(1582).day_of_year(1).build().err(),
        Some(Error::InvalidDate)
    );
}

#[test]
fn builder_rejects_invalid_day() {
    assert_eq!(
        DateBuilder::new().year(2000).month(Month::February).day(30).build().err(),
        Some(Error::InvalidDay)
    );
    assert_eq!(
        DateBuilder::new().year(2001).month(Month::February).day(29).build().err(),
        Some(Error::InvalidDay)
    );
    assert_eq!(
        DateBuilder::new().year(2000).month(Month::January).day(0).build().err(),
        Some(Error::InvalidDay)
    );
}

#[test]
fn builder_defaults_and_idempotent_build() {
    let builder = DateBuilder::new();
    let first = builder.build().unwrap();
    let second = builder.build().unwrap();
    assert_eq!(first, second);
    assert_eq!(first.year().value(), 2000);
    assert_eq!(first.month(), Month::January);
    assert_eq!(first.day_of_month(), 1);
}

#[test]
fn date_accessors() {
    let date = Date::new(2024, Month::February, 29).unwrap();
    assert_eq!(date.year().value(), 2024);
    assert!(date.year().is_leap());
    assert_eq!(date.month(), Month::February);
    assert_eq!(date.day_of_month(), 29);
    assert!(date.is_leap_year());
    assert_eq!(date.year_days(), 366);
    assert_eq!(date.month_days(), 29);
}

#[test]
fn month_boundaries_in_year() {
    assert_eq!(gregorian::table::first_of_month(false, Month::January), 1);
    assert_eq!(gregorian::table::last_of_month(false, Month::January), 31);
    assert_eq!(gregorian::table::first_of_month(false, Month::December), 335);
    assert_eq!(gregorian::table::last_of_month(false, Month::December), 365);
    assert_eq!(gregorian::table::first_of_month(true, Month::December), 336);
    assert_eq!(gregorian::table::last_of_month(true, Month::December), 366);
    assert_eq!(gregorian::table::total_days_of(true), 366);
    assert_eq!(gregorian::table::total_days_of(false), 365);
}
