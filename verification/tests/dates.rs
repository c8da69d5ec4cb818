use gregorian::DateBuilder;
use gregorian::Error;
use gregorian::Month;

#[test]
fn build_first_date() {
    let date = DateBuilder::new()
        .year(1582)
        .month(Month::October)
        .day(15)
        .build();
    assert!(date.is_ok());
}

#[test]
fn build_date_previous_to_first_date() {
    let date = DateBuilder::new()
        .year(1582)
        .month(Month::October)
        .day(14)
        .build();
    assert_eq!(date.err(), Some(Error::InvalidDate));
}

#[test]
fn is_leap_year() {
    assert!(DateBuilder::new()
        .year(2000)
        .month(Month::January)
        .day(1)
        .build()
        .unwrap()
        .is_leap_year());
    assert!(!DateBuilder::new()
        .year(2001)
        .month(Month::January)
        .day(1)
        .build()
        .unwrap()
        .is_leap_year());
    assert!(!DateBuilder::new()
        .year(2002)
        .month(Month::January)
        .day(1)
        .build()
        .unwrap()
        .is_leap_year());
    assert!(!DateBuilder::new()
        .year(2003)
        .month(Month::January)
        .day(1)
        .build()
        .unwrap()
        .is_leap_year());
    assert!(DateBuilder::new()
        .year(2004)
        .month(Month::January)
        .day(1)
        .build()
        .unwrap()
        .is_leap_year());
    assert!(!DateBuilder::new()
        .year(2100)
        .month(Month::January)
        .day(1)
        .build()
        .unwrap()
        .is_leap_year());
}

#[test]
fn year_days() {
    assert_eq!(
        DateBuilder::new()
            .year(2000)
            .month(Month::January)
            .day(1)
            .build()
            .unwrap()
            .year_days(),
        366
    );
    assert_eq!(
        DateBuilder::new()
            .year(2001)
            .month(Month::January)
            .day(1)
            .build()
            .unwrap()
            .year_days(),
        365
    );
}

#[test]
fn month_days() {
    let leap_year_month_days: [(Month, u8); 12] = [
        (Month::January, 31),
        (Month::February, 29),
        (Month::March, 31),
        (Month::April, 30),
        (Month::May, 31),
        (Month::June, 30),
        (Month::July, 31),
        (Month::August, 31),
        (Month::September, 30),
        (Month::October, 31),
        (Month::November, 30),
        (Month::December, 31),
    ];
    for value in leap_year_month_days {
        assert_eq!(gregorian::table::month_days_of(true, value.0), value.1);
    }

    let non_leap_year_month_days: [(Month, u8); 12] = [
        (Month::January, 31),
        (Month::February, 28),
        (Month::March, 31),
        (Month::April, 30),
        (Month::May, 31),
        (Month::June, 30),
        (Month::July, 31),
        (Month::August, 31),
        (Month::September, 30),
        (Month::October, 31),
        (Month::November, 30),
        (Month::December, 31),
    ];
    for value in non_leap_year_month_days {
        assert_eq!(gregorian::table::month_days_of(false, value.0), value.1);
    }
}
