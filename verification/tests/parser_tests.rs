use spacepix::errors::ApiKeyError;
use spacepix::parser::Parser;

#[test]
fn test_set_api_key() {
    // The text that storing a key writes, and the key read back from it.
    let text = Parser::make_key_file("TEST_KEY");
    assert_eq!(text, "{\"key\":\"TEST_KEY\"}");
    assert_eq!(Parser::read_key_file(&text), Ok(String::from("TEST_KEY")));
}

#[test]
fn test_key_file_round_trip() {
    let keys = [
        "",
        "TEST_KEY",
        "DEMO_KEY",
        "a b c",
        "with\"quote",
        "with\\backslash",
        "\\\"both\\\"",
        "unicode-\u{00e9}\u{2603}",
        "line\nbreak",
        "tab\there",
        "\u{1}\u{1f}\r",
    ];
    for k in keys {
        let text = Parser::make_key_file(k);
        assert_eq!(Parser::read_key_file(&text), Ok(String::from(k)));
    }
}

#[test]
fn test_make_key_file_escapes_control_characters() {
    // Control characters are written as `\u00` escapes, so the file is
    // valid JSON even for such keys: the real JSON parser reads the same
    // key back out of it.
    let text = Parser::make_key_file("a\nb");
    assert_eq!(text, "{\"key\":\"a\\u000ab\"}");
    let parsed = spacepix::jsonval::parse_json(&text).unwrap();
    assert_eq!(parsed.str_field("key"), "a\nb");
}

#[test]
fn test_read_key_file_accepts_json() {
    // Any JSON object with a string `key` field is read, whatever its
    // formatting: a spaced form, and a pretty-printed one.
    assert_eq!(
        Parser::read_key_file("{\"key\" : \"x\"}"),
        Ok(String::from("x"))
    );
    assert_eq!(
        Parser::read_key_file("{\"key\": \"TEST_KEY\"}"),
        Ok(String::from("TEST_KEY"))
    );
    assert_eq!(
        Parser::read_key_file("{\n  \"key\": \"K\"\n}"),
        Ok(String::from("K"))
    );
    assert_eq!(
        Parser::read_key_file("{\"other\": 1, \"key\": \"k2\"}"),
        Ok(String::from("k2"))
    );
}

#[test]
fn test_read_key_file_rejects_json_without_string_key() {
    let bad = [
        "{\"key\": 5}",
        "{\"key\": null}",
        "{\"key\": [\"x\"]}",
        "[\"key\"]",
        "\"key\"",
    ];
    for text in bad {
        assert_eq!(Parser::read_key_file(text), Err(ApiKeyError::InvalidApiKey));
    }
}

#[test]
fn test_read_key_file_rejects_malformed() {
    let bad = [
        "",
        "{",
        "{\"key\":\"unterminated",
        "{\"key\":\"x\"",
        "{\"key\":\"x\"} trailing",
        "{\"other\":\"x\"}",
        "not json at all",
        "{\"key\":\"bad\\escape\"}",
    ];
    for text in bad {
        assert_eq!(Parser::read_key_file(text), Err(ApiKeyError::InvalidApiKey));
    }
}

#[test]
fn test_apod_url() {
    let p = Parser::new(String::from("TEST_KEY"));
    assert_eq!(
        p.apod_url(),
        "https://api.nasa.gov/planetary/apod?api_key=TEST_KEY"
    );
}

#[test]
fn test_neows_url() {
    let p = Parser::new(String::from("TEST_KEY"));
    assert_eq!(
        p.neows_url("2024-10-01"),
        "https://api.nasa.gov/neo/rest/v1/feed?start_date=2024-10-01&end_date=2024-10-01&api_key=TEST_KEY"
    );
}

#[test]
fn test_default_parser_uses_demo_key() {
    let p = Parser::default();
    assert_eq!(
        p.apod_url(),
        "https://api.nasa.gov/planetary/apod?api_key=DEMO_KEY"
    );
}
