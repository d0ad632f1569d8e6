use spacepix::apis::{map_apod, map_neows, pic_data_from_body};
use spacepix::errors::FeedError;

fn apod_body() -> &'static str {
    "{\"date\":\"2024-01-01\",\"title\":\"T\",\"url\":\"http://x\",\"hdurl\":\"http://y\",\"explanation\":\"E\",\"media_type\":\"image\",\"service_version\":\"v1\",\"copyright\":\"C\"}"
}

#[test]
fn apis_test_get_apod_data_blocking() {
    // The mapping step of the blocking fetch: all eight fields verbatim.
    let a = map_apod(apod_body()).unwrap();
    assert_eq!(a.date, "2024-01-01");
    assert_eq!(a.title, "T");
    assert_eq!(a.url, "http://x");
    assert_eq!(a.hdurl, "http://y");
    assert_eq!(a.explanation, "E");
    assert_eq!(a.media_type, "image");
    assert_eq!(a.service_version, "v1");
    assert_eq!(a.copyright, "C");
}

#[test]
fn test_map_apod_missing_copyright() {
    // The same body with the copyright key absent entirely: the field
    // degrades to empty, everything else is verbatim, and nothing fails.
    let body = "{\"date\":\"2024-01-01\",\"title\":\"T\",\"url\":\"http://x\",\"hdurl\":\"http://y\",\"explanation\":\"E\",\"media_type\":\"image\",\"service_version\":\"v1\"}";
    let a = map_apod(body).unwrap();
    assert_eq!(a.copyright, "");
    assert_eq!(a.date, "2024-01-01");
    assert_eq!(a.title, "T");
    assert_eq!(a.url, "http://x");
    assert_eq!(a.hdurl, "http://y");
    assert_eq!(a.explanation, "E");
    assert_eq!(a.media_type, "image");
    assert_eq!(a.service_version, "v1");
}

#[test]
fn test_map_apod_invalid_json() {
    assert!(matches!(map_apod("not json"), Err(FeedError::ParseFailed)));
    assert!(matches!(map_apod(""), Err(FeedError::ParseFailed)));
}

#[test]
fn test_pic_data_from_body() {
    let (hdurl, explanation) = pic_data_from_body(apod_body()).unwrap();
    assert_eq!(hdurl, "http://y");
    assert_eq!(explanation, "E");
}

fn neows_body() -> &'static str {
    "{\"links\":{\"next\":\"n\",\"prev\":\"p\",\"self\":\"s\"},\"element_count\":1,\"near_earth_objects\":{\"2024-10-01\":[{\"id\":\"3542519\",\"neo_reference_id\":\"3542519\",\"name\":\"(2010 PK9)\",\"estimated_diameter\":{\"feet\":{\"estimated_diameter_min\":\"472.8\",\"estimated_diameter_max\":\"1057.2\"}},\"is_potentially_hazardous_asteroid\":true,\"close_approach_data\":[{\"close_approach_date\":\"2024-10-01\",\"close_approach_date_full\":\"2024-Oct-01 10:20\",\"relative_velocity\":{\"kilometers_per_second\":\"10.1\",\"kilometers_per_hour\":\"36360\",\"miles_per_hour\":\"22593\"},\"miss_distance\":{\"astronomical\":\"0.1\",\"lunar\":\"38.9\",\"kilometers\":\"14960000\",\"miles\":\"9295000\"},\"orbiting_body\":\"Earth\"}]}]}}"
}

#[test]
fn test_get_neows_data_blocking() {
    // The mapping step of the blocking feed fetch: one element under the
    // request's start date, every field read along its nested path.
    let list = map_neows(neows_body(), "2024-10-01").unwrap();
    assert_eq!(list.len(), 1);
    let o = &list[0];
    assert_eq!(o.id, "3542519");
    assert_eq!(o.neo_reference_id, "3542519");
    assert_eq!(o.name, "(2010 PK9)");
    assert_eq!(o.estimated_diameter.0, "472.8");
    assert_eq!(o.estimated_diameter.1, "1057.2");
    assert!(o.is_potentially_hazardous_asteroid);
    assert_eq!(o.close_approach_date, "2024-10-01");
    assert_eq!(o.close_approach_date_full, "2024-Oct-01 10:20");
    assert_eq!(o.relative_velocity.0, "10.1");
    assert_eq!(o.relative_velocity.1, "36360");
    assert_eq!(o.relative_velocity.2, "22593");
    assert_eq!(o.miss_distance.0, "0.1");
    assert_eq!(o.miss_distance.1, "38.9");
    assert_eq!(o.miss_distance.2, "14960000");
    assert_eq!(o.miss_distance.3, "9295000");
    assert_eq!(o.orbiting_body, "Earth");
}

#[test]
fn test_map_neows_other_date_yields_no_records() {
    // The cache key is the request's start date; a body keyed by another
    // date has nothing under it.
    let list = map_neows(neows_body(), "2024-10-02").unwrap();
    assert_eq!(list.len(), 0);
}

#[test]
fn test_map_neows_invalid_json() {
    assert!(matches!(
        map_neows("{broken", "2024-10-01"),
        Err(FeedError::ParseFailed)
    ));
}

#[test]
fn test_map_neows_number_fields_read_as_text() {
    // Diameter bounds served as JSON numbers rather than strings still
    // read as their textual form.
    let body = "{\"near_earth_objects\":{\"2024-10-01\":[{\"id\":\"1\",\"estimated_diameter\":{\"feet\":{\"estimated_diameter_min\":472.8,\"estimated_diameter_max\":1057.2}},\"close_approach_data\":[]}]}}";
    let list = map_neows(body, "2024-10-01").unwrap();
    assert_eq!(list.len(), 1);
    assert_eq!(list[0].id, "1");
    assert_eq!(list[0].estimated_diameter.0, "472.8");
    assert_eq!(list[0].estimated_diameter.1, "1057.2");
    // No close-approach entry: those fields degrade to empty.
    assert_eq!(list[0].close_approach_date, "");
    assert_eq!(list[0].orbiting_body, "");
    assert!(!list[0].is_potentially_hazardous_asteroid);
}
