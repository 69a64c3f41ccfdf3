use nessus_launcher::ids::parse_scan_ids;
use nessus_launcher::session::{parse_session_response, session_request_body, session_token_from_member};
use nessus_launcher::token::extract_api_token;
use nessus_launcher::NessusError;

const SCRIPT: &str = "var a={x:1};{key:\"getApiToken\",value:function(){return\"ABC123\"}},{key:\"other\"}";

#[test]
fn token_is_third_quoted_piece_of_marked_fragment() {
    assert_eq!(extract_api_token(SCRIPT).unwrap(), "ABC123");
}

#[test]
fn token_with_real_script_shape() {
    let script = "e.exports={key:\"getApiToken\",value:function(){return\"2C3A7F4E-1B2D-4E5F-9A8B-0C1D2E3F4A5B\"}}";
    assert_eq!(extract_api_token(script).unwrap(), "2C3A7F4E-1B2D-4E5F-9A8B-0C1D2E3F4A5B");
}

#[test]
fn token_missing_marker_is_parse_error() {
    let r = extract_api_token("var x={key:\"somethingElse\",value:\"ABC123\"}");
    assert!(matches!(r, Err(NessusError::Parse(_))));
}

#[test]
fn token_empty_script_is_parse_error() {
    assert!(matches!(extract_api_token(""), Err(NessusError::Parse(_))));
}

#[test]
fn token_fragment_with_too_few_quotes_is_parse_error() {
    // The marker sits in the fragment before the delimiter, which has no quotes.
    let r = extract_api_token("...getApiToken:\"ABC123\",...");
    assert!(matches!(r, Err(NessusError::Parse(_))));
}

#[test]
fn token_last_piece_runs_to_fragment_end() {
    assert_eq!(extract_api_token("a:\"getApiToken\"x\"tail").unwrap(), "tail");
}

#[test]
fn session_token_is_extracted() {
    assert_eq!(parse_session_response("{\"token\":\"xyz\"}").unwrap(), "xyz");
}

#[test]
fn session_token_with_other_members() {
    let body = "{\"md5sum_wizard_templates\":\"abc\",\"token\":\"t0k3n\"}";
    assert_eq!(parse_session_response(body).unwrap(), "t0k3n");
}

#[test]
fn session_without_token_is_parse_error() {
    assert!(matches!(parse_session_response("{}"), Err(NessusError::Parse(_))));
}

#[test]
fn session_token_not_a_string_is_parse_error() {
    assert!(matches!(parse_session_response("{\"token\":5}"), Err(NessusError::Parse(_))));
}

#[test]
fn session_invalid_json_is_json_error() {
    assert!(matches!(parse_session_response("<html>"), Err(NessusError::Json(_))));
}

#[test]
fn session_token_from_member_cases() {
    assert_eq!(session_token_from_member(Some("abc".to_string())).unwrap(), "abc");
    assert!(matches!(session_token_from_member(None), Err(NessusError::Parse(_))));
}

#[test]
fn session_body_quotes_and_escapes() {
    let b = session_request_body("admin", "pa\"ss\\");
    assert_eq!(b, "{\"username\":\"admin\",\"password\":\"pa\\\"ss\\\\\"}");
}

#[test]
fn scan_ids_are_parsed_in_order() {
    assert_eq!(parse_scan_ids("5,8,11"), vec![5, 8, 11]);
}

#[test]
fn scan_ids_skip_invalid_entries() {
    assert_eq!(parse_scan_ids(" 5 , x,\t8,,+9,-3,4294967296,4294967295"), vec![5, 8, 9, 4294967295]);
}

#[test]
fn scan_ids_of_empty_text() {
    assert_eq!(parse_scan_ids(""), Vec::<u32>::new());
    assert_eq!(parse_scan_ids(" , "), Vec::<u32>::new());
}

#[test]
fn session_body_escapes_control_characters() {
    let b = session_request_body("a\nb\tc", "x\u{1}\u{1f}\u{8}\u{c}\re\u{e9}/");
    assert_eq!(
        b,
        "{\"username\":\"a\\nb\\tc\",\"password\":\"x\\u0001\\u001f\\b\\f\\re\u{e9}/\"}"
    );
}
