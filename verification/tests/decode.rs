use std::collections::BTreeMap;

use bgg_client::decode::{classify_failed_decode, decode_response};
use bgg_client::error::Error;

const ENVELOPE: &str =
    "<errors><error><message>Invalid username specified</message></error></errors>";

#[test]
fn decodes_expected_type() {
    let result: Result<String, Error> = decode_response("<message>hello there</message>");
    assert_eq!(result, Ok("hello there".to_string()));
}

#[test]
fn decodes_structured_type() {
    let result: Result<BTreeMap<String, String>, Error> =
        decode_response("<item><name>Carcassonne</name><year>2000</year></item>");
    let mut expected = BTreeMap::new();
    expected.insert("name".to_string(), "Carcassonne".to_string());
    expected.insert("year".to_string(), "2000".to_string());
    assert_eq!(result, Ok(expected));
}

#[test]
fn envelope_body_becomes_api_error() {
    let result: Result<u32, Error> = decode_response(ENVELOPE);
    assert_eq!(
        result,
        Err(Error::ApiError("Invalid username specified".to_string()))
    );
}

#[test]
fn target_type_wins_over_envelope() {
    // A body that parses as both shapes must take the success path: the
    // envelope is only consulted after the target-type decode fails.
    let result: Result<BTreeMap<String, BTreeMap<String, String>>, Error> =
        decode_response(ENVELOPE);
    let mut inner = BTreeMap::new();
    inner.insert("message".to_string(), "Invalid username specified".to_string());
    let mut expected = BTreeMap::new();
    expected.insert("error".to_string(), inner);
    assert_eq!(result, Ok(expected));
}

#[test]
fn unmatched_body_keeps_target_diagnostic() {
    let body = "hello there";
    let result: Result<u32, Error> = decode_response(body);
    let expected_diagnostic = serde_xml_rs::from_str::<u32>(body).unwrap_err().to_string();
    match result {
        Err(Error::UnexpectedResponseError(diagnostic)) => {
            assert_eq!(diagnostic, expected_diagnostic);
        }
        other => panic!("expected an unexpected-response error, got {:?}", other),
    }
}

#[test]
fn classification_prefers_envelope_message() {
    let e = classify_failed_decode(
        "target diagnostic".to_string(),
        Some("user not found".to_string()),
    );
    assert_eq!(e, Error::ApiError("user not found".to_string()));
}

#[test]
fn classification_falls_back_to_diagnostic() {
    let e = classify_failed_decode("target diagnostic".to_string(), None);
    assert_eq!(
        e,
        Error::UnexpectedResponseError("target diagnostic".to_string())
    );
}
