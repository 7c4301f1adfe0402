use openchat_core::config::json_object_or_empty;
use openchat_core::config::mcp_string_array;
use openchat_core::config::merge_auth_header;
use openchat_core::config::normalize_connect_timeout;
use openchat_core::config::plan_from_row;
use openchat_core::config::transport_kind_of;
use openchat_core::config::DbMcpServer;
use openchat_core::config::RowDirective;
use openchat_core::json::JsonValue;
use openchat_core::manager::TransportKind;

fn text(s: &str) -> JsonValue {
    JsonValue::Text(s.to_string())
}

fn obj(pairs: Vec<(&str, JsonValue)>) -> JsonValue {
    JsonValue::Object(pairs.into_iter().map(|(k, v)| (k.to_string(), v)).collect())
}

fn stdio_row() -> DbMcpServer {
    DbMcpServer {
        transport: "stdio".to_string(),
        command: Some("npx".to_string()),
        args: Some("[\"-y\"]".to_string()),
        env: None,
        cwd: None,
        url: None,
        headers: None,
        auth: None,
        heartbeat_sec: None,
        connect_timeout_ms: Some(7000),
        enabled: 1,
    }
}

#[test]
fn disabled_row_is_rejected_before_any_connection() {
    let mut row = stdio_row();
    row.enabled = 0;
    assert_eq!(plan_from_row(&row), Err("server disabled".to_string()));
}

#[test]
fn stdio_row_yields_its_directive() {
    let row = stdio_row();
    match plan_from_row(&row) {
        Ok(RowDirective::Stdio { command, args_json, connect_timeout_ms, .. }) => {
            assert_eq!(command, "npx");
            assert_eq!(args_json.as_deref(), Some("[\"-y\"]"));
            assert_eq!(connect_timeout_ms, 7000);
        }
        other => panic!("unexpected directive: {:?}", other.is_ok()),
    }
}

#[test]
fn missing_fields_are_named() {
    let mut row = stdio_row();
    row.command = None;
    assert_eq!(plan_from_row(&row), Err("missing command".to_string()));

    let mut row = stdio_row();
    row.transport = "http".to_string();
    assert_eq!(plan_from_row(&row), Err("missing url".to_string()));

    let mut row = stdio_row();
    row.transport = "carrier-pigeon".to_string();
    assert_eq!(plan_from_row(&row), Err("unsupported transport: carrier-pigeon".to_string()));
}

#[test]
fn transport_tags_parse() {
    assert_eq!(transport_kind_of("stdio"), Ok(TransportKind::Stdio));
    assert_eq!(transport_kind_of("http"), Ok(TransportKind::Http));
    assert!(transport_kind_of("ipc").is_err());
}

#[test]
fn negative_or_missing_timeouts_fall_back() {
    assert_eq!(normalize_connect_timeout(None), 5000);
    assert_eq!(normalize_connect_timeout(Some(-1)), 5000);
    assert_eq!(normalize_connect_timeout(Some(0)), 0);
    assert_eq!(normalize_connect_timeout(Some(12000)), 12000);
}

#[test]
fn string_arrays_decode_whole_or_not_at_all() {
    let good = JsonValue::Array(vec![text("-y"), text("pkg")]);
    assert_eq!(mcp_string_array(Some(good)), vec!["-y".to_string(), "pkg".to_string()]);
    let mixed = JsonValue::Array(vec![text("-y"), JsonValue::Num("3".to_string())]);
    assert_eq!(mcp_string_array(Some(mixed)), Vec::<String>::new());
    assert_eq!(mcp_string_array(Some(text("no array"))), Vec::<String>::new());
    assert_eq!(mcp_string_array(None), Vec::<String>::new());
}

#[test]
fn objects_default_to_empty() {
    assert_eq!(json_object_or_empty(None), obj(vec![]));
    let kept = obj(vec![("PATH", text("/usr/bin"))]);
    assert_eq!(json_object_or_empty(Some(kept)), obj(vec![("PATH", text("/usr/bin"))]));
}

#[test]
fn auth_token_becomes_a_header_when_absent() {
    let merged = merge_auth_header(None, Some("SECRET-REDACTED"));
    assert_eq!(merged, Some(obj(vec![("Authorization", text("SECRET-REDACTED"))])));

    let existing = obj(vec![("Accept", text("application/json"))]);
    let merged = merge_auth_header(Some(existing), Some("SECRET-REDACTED"));
    assert_eq!(
        merged,
        Some(obj(vec![
            ("Accept", text("application/json")),
            ("Authorization", text("SECRET-REDACTED")),
        ]))
    );
}

#[test]
fn existing_authorization_header_is_never_overwritten() {
    let existing = obj(vec![("Authorization", text("already"))]);
    let merged = merge_auth_header(Some(existing), Some("SECRET-REDACTED"));
    assert_eq!(merged, Some(obj(vec![("Authorization", text("already"))])));
}

#[test]
fn merging_without_a_token_changes_nothing() {
    assert_eq!(merge_auth_header(None, None), None);
    let headers = obj(vec![("Accept", text("*/*"))]);
    assert_eq!(merge_auth_header(Some(headers), None), Some(obj(vec![("Accept", text("*/*"))])));
    let odd = text("not an object");
    assert_eq!(merge_auth_header(Some(odd), Some("tok")), Some(text("not an object")));
}
