use spacepix::dates::Date;
use spacepix::errors::FeedError;
use spacepix::urls::Urls;

#[test]
fn test_make_secret_sauce() {
    match Urls::make_secret_sauce("TEST_KEY") {
        Ok(s) => {
            assert_eq!(s.apod, "https://api.nasa.gov/planetary/apod?api_key=TEST_KEY");
            assert_eq!(s.neows, "https://api.nasa.gov/neo/rest/v1/feed?start_date=START_DATE&end_date=END_DATE&api_key=TEST_KEY");
            assert_eq!(s.donki, "https://api.nasa.gov/DONKI/CME?startDate=yyyy-MM-dd&endDate=yyyy-MM-dd&api_key=TEST_KEY")
        },
        Err(_e) => {}
    }
}

#[test]
fn test_urls() {
    assert_eq!(Urls::urls().apod, "https://api.nasa.gov/planetary/apod?api_key=");
    assert_eq!(Urls::urls().neows, "https://api.nasa.gov/neo/rest/v1/feed?start_date=START_DATE&end_date=END_DATE&api_key=");
    assert_eq!(Urls::urls().donki, "https://api.nasa.gov/DONKI/CME?startDate=yyyy-MM-dd&endDate=yyyy-MM-dd&api_key=");
}

#[test]
fn test_build_url_neows() {
    match Urls::build_url_neows(
        Date::from_ymd(2024, 10, 1).unwrap(),
        Some(Date::from_ymd(2024, 10, 7).unwrap()),
        "TEST_KEY",
    ) {
        Ok(u) => {
            assert_eq!(u, "https://api.nasa.gov/neo/rest/v1/feed?start_date=2024-10-01&end_date=2024-10-07&api_key=TEST_KEY")
        },
        Err(_) => {}
    }
}

#[test]
fn test_build_url_neows_omitted_end_reuses_start() {
    let start = Date::from_ymd(2024, 10, 1).unwrap();
    let today = Date::from_ymd(2024, 10, 7).unwrap();
    let single = Urls::build_url_neows_at(start, None, today, "TEST_KEY").unwrap();
    let both = Urls::build_url_neows_at(start, Some(start), today, "TEST_KEY").unwrap();
    assert_eq!(single, both);
    assert_eq!(
        single,
        "https://api.nasa.gov/neo/rest/v1/feed?start_date=2024-10-01&end_date=2024-10-01&api_key=TEST_KEY"
    );
}

#[test]
fn test_build_url_neows_reversed_range_rejected() {
    let start = Date::from_ymd(2024, 10, 7).unwrap();
    let end = Date::from_ymd(2024, 10, 1).unwrap();
    let today = Date::from_ymd(2024, 10, 7).unwrap();
    assert_eq!(
        Urls::build_url_neows_at(start, Some(end), today, "TEST_KEY"),
        Err(FeedError::InvalidDateInput)
    );
    assert_eq!(
        Urls::build_url_neows(start, Some(end), "TEST_KEY"),
        Err(FeedError::InvalidDateInput)
    );
}

#[test]
fn test_build_url_neows_future_date_rejected() {
    // The far future is past any clock this runs under.
    let start = Date::from_ymd(9999, 12, 31).unwrap();
    assert_eq!(
        Urls::build_url_neows(start, None, "TEST_KEY"),
        Err(FeedError::InvalidDateInput)
    );
}
