use spacepix::dates::Date;
use spacepix::errors::FeedError;

#[test]
fn test_parse_date_valid() {
    let d = Date::parse("2024-10-01").unwrap();
    assert_eq!(d, Date { year: 2024, month: 10, day: 1 });
    // A leap day in a leap year parses.
    let leap = Date::parse("2024-02-29").unwrap();
    assert_eq!(leap, Date { year: 2024, month: 2, day: 29 });
    // A century year divisible by 400 is a leap year.
    assert!(Date::parse("2000-02-29").is_ok());
    assert_eq!(Date::parse("0001-01-01").unwrap(), Date { year: 1, month: 1, day: 1 });
    assert_eq!(
        Date::parse("9999-12-31").unwrap(),
        Date { year: 9999, month: 12, day: 31 }
    );
}

#[test]
fn test_parse_date_invalid() {
    let bad = [
        "",
        "2024-02-30",
        "2023-02-29",
        "1900-02-29",
        "2024-13-01",
        "2024-00-10",
        "2024-04-31",
        "2024-10-00",
        "2024-1-01",
        "24-10-01",
        "2024/10/01",
        "yyyy-MM-dd",
        "2024-10-011",
    ];
    for text in bad {
        assert_eq!(Date::parse(text), Err(FeedError::InvalidDateInput));
    }
}

#[test]
fn test_format_round_trip() {
    let texts = ["2024-10-01", "0001-01-01", "9999-12-31", "2024-02-29"];
    for text in texts {
        let d = Date::parse(text).unwrap();
        assert_eq!(d.to_text(), text);
        assert_eq!(Date::parse(&d.to_text()), Ok(d));
    }
}

#[test]
fn test_date_order() {
    let a = Date::parse("2024-10-01").unwrap();
    let b = Date::parse("2024-10-07").unwrap();
    let c = Date::parse("2025-01-01").unwrap();
    assert!(a.lt(&b));
    assert!(b.lt(&c));
    assert!(!b.lt(&a));
    assert!(!a.lt(&a));
}

#[test]
fn test_from_ymd_bounds() {
    assert!(Date::from_ymd(2024, 10, 1).is_some());
    assert!(Date::from_ymd(2024, 2, 29).is_some());
    assert!(Date::from_ymd(2023, 2, 29).is_none());
    assert!(Date::from_ymd(-5, 1, 1).is_none());
    assert!(Date::from_ymd(10000, 1, 1).is_none());
    assert!(Date::from_ymd(2024, 0, 1).is_none());
    assert!(Date::from_ymd(2024, 1, 32).is_none());
}

#[test]
fn test_today_is_a_valid_date() {
    // Whatever the clock says, the wrapper yields a real calendar date.
    let t = Date::today().unwrap();
    assert!(1 <= t.month && t.month <= 12);
    assert!(1 <= t.day && t.day <= 31);
    assert_eq!(Date::parse(&t.to_text()), Ok(t));
}
