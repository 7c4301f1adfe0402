use openchat_core::http::decode_http_response;
use openchat_core::json::JsonValue;
use openchat_core::probe::ProbeAction;
use openchat_core::probe::ProbeStart;
use openchat_core::probe::ServerProbe;
use openchat_core::probe::TransportConfig;

fn text(s: &str) -> JsonValue {
    JsonValue::Text(s.to_string())
}

fn obj(pairs: Vec<(&str, JsonValue)>) -> JsonValue {
    JsonValue::Object(pairs.into_iter().map(|(k, v)| (k.to_string(), v)).collect())
}

fn stdio_config(command: &str) -> TransportConfig {
    TransportConfig::Stdio {
        command: command.to_string(),
        args: Vec::new(),
        env: None,
        cwd: None,
        connect_timeout_ms: 5000,
        list_tools_timeout_ms: 5000,
    }
}

fn http_config(url: &str) -> TransportConfig {
    TransportConfig::Http {
        url: url.to_string(),
        headers: None,
        connect_timeout_ms: 5000,
        list_tools_timeout_ms: 5000,
    }
}

fn init_ok_response() -> JsonValue {
    obj(vec![("jsonrpc", text("2.0")), ("result", obj(vec![]))])
}

#[test]
fn empty_command_is_rejected_before_any_connection() {
    let (_, start) = ServerProbe::start(&stdio_config("   "));
    match start {
        ProbeStart::Reject(result) => {
            assert!(!result.ok);
            assert_eq!(result.error.as_deref(), Some("Command cannot be empty"));
            assert!(result.tools.is_none());
            assert!(result.tools_count.is_none());
        }
        _ => panic!("probe was not rejected"),
    }
}

#[test]
fn stdio_peer_that_never_answers_initialize_fails_the_check() {
    // A command that exits at once never answers the handshake; the
    // driver reports the dead pipe as a failed exchange.
    let (mut probe, start) = ServerProbe::start(&stdio_config("true"));
    assert!(matches!(start, ProbeStart::LaunchStdio { .. }));
    let action = probe.on_connected(Ok(()));
    match action {
        ProbeAction::Send { timeout_ms, .. } => assert_eq!(timeout_ms, 5000),
        _ => panic!("no handshake request"),
    }
    let action = probe.on_response(Err("read error: broken pipe".to_string()));
    match action {
        ProbeAction::Finish { kill_child, result } => {
            assert!(kill_child);
            assert!(!result.ok);
            assert_eq!(result.error.as_deref(), Some("Failed to send initialize"));
            assert!(result.tools.is_none());
        }
        _ => panic!("probe did not finish"),
    }
}

#[test]
fn stdio_echo_server_lists_one_tool() {
    let (mut probe, start) = ServerProbe::start(&stdio_config("echo-server"));
    assert!(matches!(start, ProbeStart::LaunchStdio { .. }));
    probe.on_connected(Ok(()));
    let action = probe.on_response(Ok(init_ok_response()));
    match &action {
        ProbeAction::Send { request, timeout_ms } => {
            assert_eq!(*timeout_ms, 5000);
            match request {
                JsonValue::Object(pairs) => {
                    assert_eq!(pairs[2].1, text("tools/list"));
                }
                _ => panic!("request is not an object"),
            }
        }
        _ => panic!("no tools/list request"),
    }
    let tools_doc = obj(vec![(
        "result",
        obj(vec![("tools", JsonValue::Array(vec![obj(vec![("name", text("ping"))])]))]),
    )]);
    let action = probe.on_response(Ok(tools_doc));
    match action {
        ProbeAction::Finish { kill_child, result } => {
            assert!(kill_child, "the probe must never leave the subprocess running");
            assert!(result.ok);
            assert_eq!(result.tools_count, Some(1));
            let tools = result.tools.expect("tools are absent");
            assert_eq!(tools.len(), 1);
            assert_eq!(tools[0].name, "ping");
            assert!(tools[0].description.is_none());
            assert!(tools[0].input_schema.is_none());
        }
        _ => panic!("probe did not finish"),
    }
}

#[test]
fn http_500_on_tools_list_surfaces_the_status() {
    let (mut probe, start) = ServerProbe::start(&http_config("http://127.0.0.1:9/rpc"));
    assert!(matches!(start, ProbeStart::LaunchHttp { .. }));
    probe.on_connected(Ok(()));
    probe.on_response(Ok(init_ok_response()));
    let outcome = decode_http_response(500, None, "Internal Server Error".to_string());
    let action = probe.on_response(outcome);
    match action {
        ProbeAction::Finish { kill_child, result } => {
            assert!(!kill_child);
            assert!(!result.ok);
            let error = result.error.expect("no error text");
            assert!(error.contains("500"), "error does not name the status: {}", error);
            assert_eq!(error, "Failed HTTP tools/list: HTTP 500: Internal Server Error");
        }
        _ => panic!("probe did not finish"),
    }
}

#[test]
fn http_client_build_failure_ends_the_probe() {
    let (mut probe, _) = ServerProbe::start(&http_config("not a url"));
    let action = probe.on_connected(Err("Failed to build HTTP client: bad url".to_string()));
    match action {
        ProbeAction::Finish { kill_child, result } => {
            assert!(!kill_child);
            assert!(!result.ok);
            assert_eq!(result.error.as_deref(), Some("Failed to build HTTP client: bad url"));
        }
        _ => panic!("probe did not finish"),
    }
}

#[test]
fn stdio_tools_list_failure_kills_the_child() {
    let (mut probe, _) = ServerProbe::start(&stdio_config("flaky"));
    probe.on_connected(Ok(()));
    probe.on_response(Ok(init_ok_response()));
    let action = probe.on_response(Err("read timeout".to_string()));
    match action {
        ProbeAction::Finish { kill_child, result } => {
            assert!(kill_child);
            assert!(!result.ok);
            assert_eq!(result.error.as_deref(), Some("Failed to request tools/list"));
        }
        _ => panic!("probe did not finish"),
    }
}

#[test]
fn rpc_error_during_handshake_fails_the_check() {
    let (mut probe, _) = ServerProbe::start(&stdio_config("srv"));
    probe.on_connected(Ok(()));
    let resp = obj(vec![(
        "error",
        obj(vec![("message", text("unsupported protocol version"))]),
    )]);
    let action = probe.on_response(Ok(resp));
    match action {
        ProbeAction::Finish { kill_child, result } => {
            assert!(kill_child);
            assert_eq!(result.error.as_deref(), Some("Failed to send initialize"));
        }
        _ => panic!("probe did not finish"),
    }
}
