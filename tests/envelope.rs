use gamesense::envelope::{decode_entries, decode_response};
use gamesense::error::GameSenseError;

#[test]
fn error_key_gives_engine_error() {
    assert_eq!(
        decode_response(r#"{"error":"boom"}"#),
        Err(GameSenseError::EngineError("boom".to_string()))
    );
}

#[test]
fn result_string_is_returned() {
    assert_eq!(decode_response(r#"{"result":"ok"}"#), Ok("ok".to_string()));
}

#[test]
fn result_number_is_returned_as_text() {
    assert_eq!(decode_response(r#"{"result":42}"#), Ok("42".to_string()));
}

#[test]
fn result_object_is_returned_as_json_text() {
    assert_eq!(decode_response(r#"{"result":{"a":1}}"#), Ok(r#"{"a":1}"#.to_string()));
}

#[test]
fn error_number_is_stringified() {
    assert_eq!(
        decode_response(r#"{"error":7}"#),
        Err(GameSenseError::EngineError("7".to_string()))
    );
}

#[test]
fn page_not_found_is_endpoint_not_found() {
    assert_eq!(decode_response("Page not found"), Err(GameSenseError::EndpointNotFound));
}

#[test]
fn empty_object_is_malformed() {
    assert_eq!(decode_response("{}"), Err(GameSenseError::MalformedResponse));
}

#[test]
fn invalid_json_is_malformed() {
    assert_eq!(decode_response("not json"), Err(GameSenseError::MalformedResponse));
    assert_eq!(decode_response("[1,2]"), Err(GameSenseError::MalformedResponse));
}

#[test]
fn first_entry_in_received_order_decides() {
    assert_eq!(decode_response(r#"{"zeta":"first","error":"second"}"#), Ok("first".to_string()));
    assert_eq!(
        decode_response(r#"{"error":"first","alpha":"second"}"#),
        Err(GameSenseError::EngineError("first".to_string()))
    );
}

#[test]
fn decode_entries_cases() {
    assert_eq!(decode_entries(None), Err(GameSenseError::MalformedResponse));
    assert_eq!(decode_entries(Some(vec![])), Err(GameSenseError::MalformedResponse));
    assert_eq!(
        decode_entries(Some(vec![("error".to_string(), "game not registered".to_string(), true)])),
        Err(GameSenseError::EngineError("game not registered".to_string()))
    );
    assert_eq!(
        decode_entries(Some(vec![("result".to_string(), "registered".to_string(), true)])),
        Ok("registered".to_string())
    );
}

#[test]
fn engine_error_message_is_kept() {
    let e = GameSenseError::EngineError("game not registered".to_string());
    assert_eq!(e.message(), "game not registered");
    assert_eq!(GameSenseError::EndpointNotFound.message(), "Endpoint not found");
}
