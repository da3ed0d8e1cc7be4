use otconstants::errors::{Field, ParseError};
use otconstants::session::SessionData;

#[test]
fn field_mapping_round_trip() {
    // Regression test for the historical token/sessionId swap: token maps to
    // token, sessionId to session_id, apiKey to api_key.
    let body = "{\"token\":\"T1\",\"sessionId\":\"S1\",\"apiKey\":\"K1\"}";
    let sd = SessionData::from_response(body, "room1", "https://example.test/room1").unwrap();
    assert_eq!(sd.token, "T1");
    assert_eq!(sd.session_id, "S1");
    assert_eq!(sd.api_key, "K1");
    assert_eq!(sd.room, "room1");
    assert_eq!(sd.url, "https://example.test/room1");
}

#[test]
fn missing_token_is_reported_as_such() {
    let body = "{\"sessionId\":\"S1\",\"apiKey\":\"K1\"}";
    let r = SessionData::from_response(body, "r", "u");
    assert_eq!(r.unwrap_err(), ParseError::MissingField(Field::Token));
}

#[test]
fn missing_session_id_is_reported_as_such() {
    let body = "{\"token\":\"T1\",\"apiKey\":\"K1\"}";
    let r = SessionData::from_response(body, "r", "u");
    assert_eq!(r.unwrap_err(), ParseError::MissingField(Field::SessionId));
}

#[test]
fn missing_api_key_is_reported_as_such() {
    let body = "{\"token\":\"T1\",\"sessionId\":\"S1\"}";
    let r = SessionData::from_response(body, "r", "u");
    assert_eq!(r.unwrap_err(), ParseError::MissingField(Field::ApiKey));
}

#[test]
fn first_missing_field_wins() {
    let r = SessionData::from_response("{}", "r", "u");
    assert_eq!(r.unwrap_err(), ParseError::MissingField(Field::Token));
}

#[test]
fn a_non_string_field_counts_as_missing() {
    let body = "{\"token\":5,\"sessionId\":\"S1\",\"apiKey\":\"K1\"}";
    let r = SessionData::from_response(body, "r", "u");
    assert_eq!(r.unwrap_err(), ParseError::MissingField(Field::Token));
}

#[test]
fn a_body_that_is_no_json_is_malformed() {
    let r = SessionData::from_response("this is not json", "r", "u");
    assert_eq!(r.unwrap_err(), ParseError::MalformedResponse);
}

#[test]
fn a_body_that_is_no_object_is_malformed() {
    let r = SessionData::from_response("[1, 2, 3]", "r", "u");
    assert_eq!(r.unwrap_err(), ParseError::MalformedResponse);
    let r = SessionData::from_response("\"just a string\"", "r", "u");
    assert_eq!(r.unwrap_err(), ParseError::MalformedResponse);
}

#[test]
fn extra_fields_are_ignored() {
    let body = "{\"token\":\"T\",\"sessionId\":\"S\",\"apiKey\":\"K\",\"extra\":true}";
    let sd = SessionData::from_response(body, "r", "u").unwrap();
    assert_eq!(sd.token, "T");
    assert_eq!(sd.session_id, "S");
    assert_eq!(sd.api_key, "K");
}

#[test]
fn descriptor_from_fields_short_circuits_in_order() {
    let r = SessionData::descriptor_from_fields(None, None, None, "r", "u");
    assert_eq!(r.unwrap_err(), ParseError::MissingField(Field::Token));
    let r = SessionData::descriptor_from_fields(Some(String::from("T")), None, None, "r", "u");
    assert_eq!(r.unwrap_err(), ParseError::MissingField(Field::SessionId));
    let r = SessionData::descriptor_from_fields(
        Some(String::from("T")),
        Some(String::from("S")),
        None,
        "r",
        "u",
    );
    assert_eq!(r.unwrap_err(), ParseError::MissingField(Field::ApiKey));
}

#[test]
fn descriptor_from_fields_builds_the_descriptor() {
    let sd = SessionData::descriptor_from_fields(
        Some(String::from("T")),
        Some(String::from("S")),
        Some(String::from("K")),
        "myroom",
        "https://example.test/myroom",
    )
    .unwrap();
    assert_eq!(sd.token, "T");
    assert_eq!(sd.session_id, "S");
    assert_eq!(sd.api_key, "K");
    assert_eq!(sd.room, "myroom");
    assert_eq!(sd.url, "https://example.test/myroom");
}

#[test]
fn a_deeply_nested_body_is_rejected_not_crashed() {
    let mut body = String::new();
    for _ in 0..100_000 {
        body.push('[');
    }
    let r = SessionData::from_response(&body, "r", "u");
    assert_eq!(r.unwrap_err(), ParseError::MalformedResponse);
    let mut objects = String::new();
    for _ in 0..100_000 {
        objects.push_str("{\"k\":");
    }
    let r = SessionData::from_response(&objects, "r", "u");
    assert_eq!(r.unwrap_err(), ParseError::MalformedResponse);
}

#[test]
fn an_oversized_multibyte_key_is_handled() {
    // An extra object key of ~80 KB of two-byte characters plus an ASCII
    // tail must neither crash the parser nor disturb the real fields.
    let mut key = "\u{00e9}".repeat(40_000);
    key.push('x');
    let body = format!(
        "{{\"{}\":\"v\",\"token\":\"T\",\"sessionId\":\"S\",\"apiKey\":\"K\"}}",
        key
    );
    let sd = SessionData::from_response(&body, "r", "u").unwrap();
    assert_eq!(sd.token, "T");
    assert_eq!(sd.session_id, "S");
    assert_eq!(sd.api_key, "K");
}

#[test]
fn parse_error_messages() {
    assert_eq!(ParseError::MalformedResponse.message(), "could not parse response");
    assert_eq!(ParseError::MissingField(Field::Token).message(), "could not parse token");
    assert_eq!(ParseError::MissingField(Field::SessionId).message(), "could not parse sessionId");
    assert_eq!(ParseError::MissingField(Field::ApiKey).message(), "could not parse apikey");
}
