use spacepix::app::{ApodPlan, FeedKind, NeowsPlan, SpacePixUi};
use spacepix::dates::Date;
use spacepix::errors::{ApiKeyError, FeedError, NeowsError, NetworkError};
use spacepix::parser::Parser;

fn apod_body() -> &'static str {
    "{\"date\":\"2024-01-01\",\"title\":\"T\",\"url\":\"http://x\",\"hdurl\":\"http://y\",\"explanation\":\"E\",\"media_type\":\"image\",\"service_version\":\"v1\",\"copyright\":\"C\"}"
}

fn neows_body() -> &'static str {
    "{\"links\":{\"next\":\"n\",\"prev\":\"p\",\"self\":\"s\"},\"element_count\":1,\"near_earth_objects\":{\"2024-10-01\":[{\"id\":\"3542519\",\"neo_reference_id\":\"3542519\",\"name\":\"(2010 PK9)\",\"estimated_diameter\":{\"feet\":{\"estimated_diameter_min\":\"472.8\",\"estimated_diameter_max\":\"1057.2\"}},\"is_potentially_hazardous_asteroid\":true,\"close_approach_data\":[{\"close_approach_date\":\"2024-10-01\",\"close_approach_date_full\":\"2024-Oct-01 10:20\",\"relative_velocity\":{\"kilometers_per_second\":\"10.1\",\"kilometers_per_hour\":\"36360\",\"miles_per_hour\":\"22593\"},\"miss_distance\":{\"astronomical\":\"0.1\",\"lunar\":\"38.9\",\"kilometers\":\"14960000\",\"miles\":\"9295000\"},\"orbiting_body\":\"Earth\"}]}]}}"
}

#[test]
fn app_test_get_apod_data_blocking() {
    // The full request flow around the blocking fetch: the first step
    // plans exactly one request, the stored record is returned, and every
    // later step serves the identical record with no request planned.
    let mut state = SpacePixUi::new(Parser::new(String::from("TEST_KEY")));
    let url = match state.apod_step() {
        ApodPlan::NeedFetch(url) => url,
        _ => panic!("first step must plan a fetch"),
    };
    assert_eq!(url, "https://api.nasa.gov/planetary/apod?api_key=TEST_KEY");
    let stored = state.apod_store(apod_body()).unwrap();
    assert_eq!(stored.title, "T");
    match state.apod_step() {
        ApodPlan::Cached(a) => {
            assert_eq!(a.title, stored.title);
            assert_eq!(a.copyright, stored.copyright);
            assert_eq!(a.date, stored.date);
            assert_eq!(a.explanation, stored.explanation);
            assert_eq!(a.hdurl, stored.hdurl);
            assert_eq!(a.media_type, stored.media_type);
            assert_eq!(a.service_version, stored.service_version);
            assert_eq!(a.url, stored.url);
        },
        _ => panic!("second step must serve the cache"),
    }
}

#[test]
fn test_neows_flow_caches_and_ignores_params() {
    let mut state = SpacePixUi::new(Parser::new(String::from("TEST_KEY")));
    let today = Date::from_ymd(2024, 10, 7).unwrap();
    let url = match state.neows_step_at("2024-10-01", None, today) {
        NeowsPlan::NeedFetch(url) => url,
        _ => panic!("first step must plan a fetch"),
    };
    assert_eq!(
        url,
        "https://api.nasa.gov/neo/rest/v1/feed?start_date=2024-10-01&end_date=2024-10-01&api_key=TEST_KEY"
    );
    let stored = state.neows_store("2024-10-01", neows_body()).unwrap();
    assert_eq!(stored.element_count, 1);
    assert_eq!(stored.links.next, "n");
    assert_eq!(stored.links.previous, "p");
    assert_eq!(stored.links.current, "s");
    assert_eq!(stored.near_earth_objects[0].name, "(2010 PK9)");
    // A later step serves the slot even for different parameters.
    match state.neows_step_at("1999-01-01", Some("1999-01-02"), today) {
        NeowsPlan::Cached(f) => {
            assert_eq!(f.element_count, 1);
            assert_eq!(f.near_earth_objects[0].name, "(2010 PK9)");
        },
        _ => panic!("a filled slot must be served"),
    }
}

#[test]
fn test_failed_fetch_is_not_cached() {
    let mut state = SpacePixUi::new(Parser::new(String::from("TEST_KEY")));
    assert!(matches!(
        state.apod_store("not json"),
        Err(FeedError::ParseFailed)
    ));
    // The failure left the slot empty, so the next step retries.
    assert!(matches!(state.apod_step(), ApodPlan::NeedFetch(_)));
    assert!(matches!(
        state.neows_store("2024-10-01", "{broken"),
        Err(FeedError::ParseFailed)
    ));
    let today = Date::from_ymd(2024, 10, 7).unwrap();
    assert!(matches!(
        state.neows_step_at("2024-10-01", None, today),
        NeowsPlan::NeedFetch(_)
    ));
}

#[test]
fn test_missing_credential() {
    // No key file: both feeds fail before any request is planned.
    let mut state = SpacePixUi::without_credential();
    assert!(matches!(
        state.apod_step(),
        ApodPlan::Rejected(FeedError::CredentialMissing)
    ));
    let today = Date::from_ymd(2024, 10, 7).unwrap();
    assert!(matches!(
        state.neows_step_at("2024-10-01", None, today),
        NeowsPlan::Rejected(FeedError::CredentialMissing)
    ));
    // A cached record is still served without a credential.
    state.apod_store(apod_body()).unwrap();
    assert!(matches!(state.apod_step(), ApodPlan::Cached(_)));
}

#[test]
fn test_neows_rejects_reversed_range() {
    let state = SpacePixUi::new(Parser::new(String::from("TEST_KEY")));
    let today = Date::from_ymd(2024, 10, 7).unwrap();
    assert!(matches!(
        state.neows_step_at("2024-10-07", Some("2024-10-01"), today),
        NeowsPlan::Rejected(FeedError::InvalidDateInput)
    ));
    assert!(matches!(
        state.neows_step("2024-10-07", Some("2024-10-01")),
        NeowsPlan::Rejected(FeedError::InvalidDateInput)
    ));
}

#[test]
fn test_neows_rejects_malformed_dates() {
    let state = SpacePixUi::new(Parser::new(String::from("TEST_KEY")));
    let today = Date::from_ymd(2024, 10, 7).unwrap();
    assert!(matches!(
        state.neows_step_at("10/01/2024", None, today),
        NeowsPlan::Rejected(FeedError::InvalidDateInput)
    ));
    assert!(matches!(
        state.neows_step_at("2024-10-01", Some("not a date"), today),
        NeowsPlan::Rejected(FeedError::InvalidDateInput)
    ));
}

#[test]
fn test_clear_forces_refetch() {
    let mut state = SpacePixUi::new(Parser::new(String::from("TEST_KEY")));
    state.apod_store(apod_body()).unwrap();
    state.neows_store("2024-10-01", neows_body()).unwrap();
    // The explicit new-search action empties one slot and keeps the other.
    state.clear(FeedKind::PictureOfDay);
    assert!(matches!(state.apod_step(), ApodPlan::NeedFetch(_)));
    let today = Date::from_ymd(2024, 10, 7).unwrap();
    assert!(matches!(
        state.neows_step_at("2024-10-01", None, today),
        NeowsPlan::Cached(_)
    ));
    state.clear(FeedKind::NearEarthObjects);
    assert!(matches!(
        state.neows_step_at("2024-10-01", None, today),
        NeowsPlan::NeedFetch(_)
    ));
}

#[test]
fn test_window_toggles() {
    let mut state = SpacePixUi::default();
    assert!(!state.about.about_window_visible);
    state.show_about(true);
    assert!(state.about.about_window_visible);
    state.show_about(false);
    assert!(!state.about.about_window_visible);
    state.show_apod_full(true);
    assert!(state.apod_ui.apod_full_window_visible);
    assert!(!state.apod_ui.apod_window_visible);
}

#[test]
fn test_named_error_messages() {
    assert_eq!(NetworkError::ConnectionFailed.message(), "Failed to connect to NASA API");
    assert_eq!(NeowsError::BadRequest.message(), "Bad Request");
    assert_eq!(ApiKeyError::InvalidApiKey.message(), "Invalid API key");
    assert_eq!(ApiKeyError::KeyStore.message(), "Failed to save API key");
}

#[test]
fn test_feed_error_messages() {
    assert_eq!(
        FeedError::ConnectionFailed.message(),
        "Failed to connect to NASA API"
    );
    assert_eq!(FeedError::CredentialMissing.message(), "No API key file was found.");
    assert_eq!(FeedError::CredentialWriteFailed.message(), "Failed to save the API key.");
    assert_eq!(FeedError::ParseFailed.message(), "The response was not valid JSON.");
    assert_eq!(FeedError::InvalidDateInput.message(), "Invalid date input.");
}
