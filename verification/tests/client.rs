use splitwise_cli::client::{fill_path_exec, finish_response, parse_response_body, request_failure};
use splitwise_cli::error::CliError;
use splitwise_cli::json::{compact_json, JsonValue};
use splitwise_cli::operations::{delete_friend, get_groups};

#[test]
fn blank_response_is_null() {
    let v = parse_response_body(Some("application/json"), " \n ").unwrap();
    assert!(matches!(v, JsonValue::Null));
}

#[test]
fn text_response_stays_text_untrimmed() {
    let v = parse_response_body(Some("text/plain"), " hello ").unwrap();
    match v {
        JsonValue::String(s) => assert_eq!(s, " hello "),
        _ => panic!("expected a string"),
    }
}

#[test]
fn json_looking_response_parses_without_content_type() {
    let v = parse_response_body(None, "  [1, 2]").unwrap();
    assert_eq!(compact_json(&v).unwrap(), "[1,2]");
}

#[test]
fn advertised_json_that_does_not_parse_is_a_json_error() {
    let e = parse_response_body(Some("application/json; charset=utf-8"), "nope").unwrap_err();
    assert!(matches!(e, CliError::Json(_)));
}

#[test]
fn failed_status_is_a_request_error() {
    let e = finish_response(get_groups(), 404, Some("text/plain"), "missing").unwrap_err();
    match &e {
        CliError::Request(m) => assert_eq!(m, "404 Not Found: missing"),
        other => panic!("unexpected {other:?}"),
    }
    assert_eq!(e.exit_code(), 1);
    assert_eq!(e.message(), "request failed: 404 Not Found: missing");
    assert_eq!(request_failure(599, "x"), "599 <unknown status code>: x");
}

#[test]
fn success_response_must_pass_checks() {
    let ok = finish_response(delete_friend(), 200, None, r#"{"success":true}"#).unwrap();
    assert_eq!(compact_json(&ok).unwrap(), "{\"success\":true}");
    let e = finish_response(delete_friend(), 204, None, "").unwrap_err();
    match e {
        CliError::SemanticFailure(m) => assert_eq!(m, "null"),
        other => panic!("unexpected {other:?}"),
    }
}

#[test]
fn path_placeholders_are_filled() {
    let params = vec![("id".to_string(), "12".to_string())];
    assert_eq!(fill_path_exec("/get_user/{id}", &params), "/get_user/12");
    assert_eq!(fill_path_exec("/get_groups", &params), "/get_groups");
    assert_eq!(fill_path_exec("/{id}/{id}", &params), "/12/12");
}
