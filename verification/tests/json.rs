use ddog::builder::Builder;
use ddog::json::parse_failure;

#[test]
fn empty_object_is_valid_json() {
    assert!(Builder::is_body_valid_json("{}").is_none());
}

#[test]
fn unquoted_key_is_a_parse_error() {
    let error = Builder::is_body_valid_json("{invalid");
    assert!(error.is_some());
    let error = error.unwrap();
    assert!(error.is_syntax());
    assert_eq!(error.line(), 1);
    assert_eq!(error.column(), 2);
}

#[test]
fn empty_text_is_a_parse_error() {
    let error = Builder::is_body_valid_json("").unwrap();
    assert!(error.is_eof());
}

#[test]
fn trailing_text_is_a_parse_error() {
    assert!(Builder::is_body_valid_json("{} {}").is_some());
}

#[test]
fn a_series_payload_is_valid_json() {
    let body = "{\"series\":[{\"metric\":\"cpu.load\",\"points\":[[1636629071,0.7]]}]}";
    assert!(Builder::is_body_valid_json(body).is_none());
}

#[test]
fn scalars_and_surrounding_whitespace_are_valid_json() {
    assert!(Builder::is_body_valid_json("null").is_none());
    assert!(Builder::is_body_valid_json(" [1, 2, 3]\n").is_none());
}

#[test]
fn validation_agrees_with_the_parser() {
    for text in ["{}", "{invalid", "[", "\"s\"", "tru", "{\"a\":1}"] {
        let parsed = serde_json::from_str::<serde_json::Value>(text);
        assert_eq!(Builder::is_body_valid_json(text).is_none(), parsed.is_ok());
    }
}

#[test]
fn parse_failure_of_a_success_is_none() {
    let parsed = serde_json::from_str::<serde_json::Value>("{\"a\": [true, null]}");
    assert!(parsed.is_ok());
    assert!(parse_failure(parsed).is_none());
}

#[test]
fn parse_failure_of_an_error_is_that_error() {
    let parsed = serde_json::from_str::<serde_json::Value>("[1, 2");
    let expected = format!("{}", parsed.as_ref().unwrap_err());
    let failure = parse_failure(parsed);
    assert!(failure.is_some());
    assert_eq!(format!("{}", failure.unwrap()), expected);
}
