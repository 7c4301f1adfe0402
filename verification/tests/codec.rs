use openchat_core::decimal::u64_to_string;
use openchat_core::http::decode_http_response;
use openchat_core::json::JsonValue;
use openchat_core::rpc::extract_result_or_error;
use openchat_core::rpc::make_rpc_notification;
use openchat_core::rpc::make_rpc_req;

fn text(s: &str) -> JsonValue {
    JsonValue::Text(s.to_string())
}

fn obj(pairs: Vec<(&str, JsonValue)>) -> JsonValue {
    JsonValue::Object(pairs.into_iter().map(|(k, v)| (k.to_string(), v)).collect())
}

#[test]
fn renders_decimals() {
    assert_eq!(u64_to_string(0), "0");
    assert_eq!(u64_to_string(7), "7");
    assert_eq!(u64_to_string(10), "10");
    assert_eq!(u64_to_string(500), "500");
    assert_eq!(u64_to_string(18446744073709551615), "18446744073709551615");
}

#[test]
fn builds_request_envelope() {
    let req = make_rpc_req(42, "tools/list", obj(vec![]));
    let expected = obj(vec![
        ("jsonrpc", text("2.0")),
        ("id", JsonValue::Num("42".to_string())),
        ("method", text("tools/list")),
        ("params", obj(vec![])),
    ]);
    assert_eq!(req, expected);
}

#[test]
fn builds_notification_envelope_without_id() {
    let with_params = make_rpc_notification("notifications/initialized", Some(obj(vec![])));
    assert_eq!(
        with_params,
        obj(vec![
            ("jsonrpc", text("2.0")),
            ("method", text("notifications/initialized")),
            ("params", obj(vec![])),
        ])
    );
    let bare = make_rpc_notification("notifications/initialized", None);
    assert_eq!(
        bare,
        obj(vec![("jsonrpc", text("2.0")), ("method", text("notifications/initialized"))])
    );
}

#[test]
fn stdio_frames_are_newline_terminated() {
    assert_eq!(
        openchat_core::rpc::frame_stdio_line("{\"jsonrpc\":\"2.0\"}".to_string()),
        "{\"jsonrpc\":\"2.0\"}\n"
    );
}

#[test]
fn extracts_result_value() {
    let resp = obj(vec![("jsonrpc", text("2.0")), ("result", text("fine"))]);
    assert_eq!(extract_result_or_error(resp), Ok(text("fine")));
}

#[test]
fn missing_result_reads_as_null_not_error() {
    let resp = obj(vec![("jsonrpc", text("2.0")), ("id", JsonValue::Num("1".to_string()))]);
    assert_eq!(extract_result_or_error(resp), Ok(JsonValue::Null));
    assert_eq!(extract_result_or_error(JsonValue::Null), Ok(JsonValue::Null));
}

#[test]
fn error_member_carries_its_message() {
    let resp = obj(vec![(
        "error",
        obj(vec![("code", JsonValue::Num("-32601".to_string())), ("message", text("method not found"))]),
    )]);
    assert_eq!(extract_result_or_error(resp), Err("method not found".to_string()));
}

#[test]
fn error_without_message_falls_back() {
    let resp = obj(vec![("error", obj(vec![("code", JsonValue::Num("-32000".to_string()))]))]);
    assert_eq!(extract_result_or_error(resp), Err("rpc error".to_string()));
    let odd = obj(vec![("error", text("boom"))]);
    assert_eq!(extract_result_or_error(odd), Err("rpc error".to_string()));
}

#[test]
fn error_wins_over_result() {
    let resp = obj(vec![
        ("result", text("ignored")),
        ("error", obj(vec![("message", text("no"))])),
    ]);
    assert_eq!(extract_result_or_error(resp), Err("no".to_string()));
}

#[test]
fn http_failure_status_carries_status_and_body() {
    let r = decode_http_response(500, None, "Internal Server Error".to_string());
    assert_eq!(r, Err("HTTP 500: Internal Server Error".to_string()));
    let r404 = decode_http_response(404, Some(JsonValue::Null), "missing".to_string());
    assert_eq!(r404, Err("HTTP 404: missing".to_string()));
}

#[test]
fn http_success_with_unreadable_body_surfaces_the_body() {
    let r = decode_http_response(200, None, "<html>not json</html>".to_string());
    assert_eq!(r, Err("<html>not json</html>".to_string()));
}

#[test]
fn http_success_yields_the_document() {
    let doc = obj(vec![("result", text("ok"))]);
    let r = decode_http_response(204, Some(doc), "{\"result\":\"ok\"}".to_string());
    assert_eq!(r, Ok(obj(vec![("result", text("ok"))])));
}
