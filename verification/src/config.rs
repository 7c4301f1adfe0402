//! The config-row adapter: from a persisted server record to the
//! manager's connection inputs.
//!
//! A row whose enabled flag is off is rejected before any connection
//! attempt, as is a row missing the fields its declared transport
//! needs. A negative or missing connect timeout falls back to the
//! default. The row's argument list, environment and headers arrive as
//! JSON-encoded text; the caller decodes that text and this module
//! reads the decoded values.

use vstd::prelude::*;

use crate::json::has_key;
use crate::json::spec_lookup;
use crate::json::str_eq;
use crate::json::JsonValue;
use crate::manager::TransportKind;

verus! {

/// Default deadline for connecting and for the handshake.
pub const MCP_DEFAULT_CONNECT_TIMEOUT_MS: u64 = 5000;

/// Default deadline for a `tools/list` exchange.
pub const MCP_DEFAULT_LIST_TOOLS_TIMEOUT_MS: u64 = 5000;

/// Default deadline for a `tools/call` exchange.
pub const MCP_DEFAULT_TOOL_CALL_TIMEOUT_MS: u64 = 20000;

/// A persisted server-configuration record, as the store hands it over.
#[derive(Debug, PartialEq, Eq)]
pub struct DbMcpServer {
    pub transport: String,
    pub command: Option<String>,
    pub args: Option<String>,
    pub env: Option<String>,
    pub cwd: Option<String>,
    pub url: Option<String>,
    pub headers: Option<String>,
    pub auth: Option<String>,
    pub heartbeat_sec: Option<i64>,
    pub connect_timeout_ms: Option<i64>,
    pub enabled: i64,
}

/// The connect timeout a row calls for: its own value when present and
/// non-negative, the default otherwise.
pub open spec fn spec_normalize_connect_timeout(value: Option<i64>) -> u64 {
    match value {
        Some(v) => if v < 0 {
            MCP_DEFAULT_CONNECT_TIMEOUT_MS
        } else {
            v as u64
        },
        None => MCP_DEFAULT_CONNECT_TIMEOUT_MS,
    }
}

/// Normalises a row's connect timeout.
pub fn normalize_connect_timeout(value: Option<i64>) -> (r: u64)
    ensures
        r == spec_normalize_connect_timeout(value),
{
    match value {
        Some(v) => if v < 0 {
            MCP_DEFAULT_CONNECT_TIMEOUT_MS
        } else {
            v as u64
        },
        None => MCP_DEFAULT_CONNECT_TIMEOUT_MS,
    }
}

/// Reads a row's transport tag.
pub fn transport_kind_of(tag: &str) -> (r: Result<TransportKind, String>)
    ensures
        tag@ == "stdio"@ ==> r == Ok::<TransportKind, String>(TransportKind::Stdio),
        tag@ == "http"@ ==> r == Ok::<TransportKind, String>(TransportKind::Http),
        tag@ != "stdio"@ && tag@ != "http"@ ==> (r matches Err(m) && m@
            == "unsupported transport: "@ + tag@),
{
    proof {
        reveal_strlit("stdio");
        reveal_strlit("http");
        assert("stdio"@.len() == 5);
        assert("http"@.len() == 4);
    }
    if str_eq(tag, "stdio") {
        Ok(TransportKind::Stdio)
    } else if str_eq(tag, "http") {
        Ok(TransportKind::Http)
    } else {
        let mut m: String = "unsupported transport: ".to_owned();
        m.append(tag);
        Err(m)
    }
}

/// What a validated row directs the caller to do. The argument list,
/// environment and headers are still JSON-encoded text, to be decoded
/// before the connection inputs are assembled.
#[derive(Debug, PartialEq, Eq)]
pub enum RowDirective {
    Stdio {
        command: String,
        args_json: Option<String>,
        env_json: Option<String>,
        cwd: Option<String>,
        connect_timeout_ms: u64,
    },
    Http {
        url: String,
        headers_json: Option<String>,
        auth: Option<String>,
        connect_timeout_ms: u64,
    },
}

/// Views of an optional string match.
pub open spec fn spec_opt_text_eq(a: Option<String>, b: Option<String>) -> bool {
    match a {
        Some(x) => b matches Some(y) && x@ == y@,
        None => b is None,
    }
}

/// Validates a row: a disabled row and a row missing the fields of its
/// transport are rejected at once, before any connection attempt.
pub fn plan_from_row(row: &DbMcpServer) -> (r: Result<RowDirective, String>)
    ensures
        row.enabled == 0 ==> (r matches Err(m) && m@ == "server disabled"@),
        row.enabled != 0 && row.transport@ == "stdio"@ ==> (match row.command {
            None => r matches Err(m) && m@ == "missing command"@,
            Some(c) => r matches Ok(d) && (d matches RowDirective::Stdio {
                command,
                args_json,
                env_json,
                cwd,
                connect_timeout_ms,
            } && command@ == c@ && spec_opt_text_eq(args_json, row.args) && spec_opt_text_eq(
                env_json,
                row.env,
            ) && spec_opt_text_eq(cwd, row.cwd) && connect_timeout_ms
                == spec_normalize_connect_timeout(row.connect_timeout_ms)),
        }),
        row.enabled != 0 && row.transport@ == "http"@ ==> (match row.url {
            None => r matches Err(m) && m@ == "missing url"@,
            Some(u) => r matches Ok(d) && (d matches RowDirective::Http {
                url,
                headers_json,
                auth,
                connect_timeout_ms,
            } && url@ == u@ && spec_opt_text_eq(headers_json, row.headers) && spec_opt_text_eq(
                auth,
                row.auth,
            ) && connect_timeout_ms == spec_normalize_connect_timeout(row.connect_timeout_ms)),
        }),
        row.enabled != 0 && row.transport@ != "stdio"@ && row.transport@ != "http"@ ==> (r
            matches Err(m) && m@ == "unsupported transport: "@ + row.transport@),
{
    if row.enabled == 0 {
        return Err("server disabled".to_owned());
    }
    let connect_timeout_ms = normalize_connect_timeout(row.connect_timeout_ms);
    let kind = transport_kind_of(row.transport.as_str())?;
    match kind {
        TransportKind::Stdio => {
            match &row.command {
                Some(c) => Ok(
                    RowDirective::Stdio {
                        command: c.clone(),
                        args_json: clone_opt_string(&row.args),
                        env_json: clone_opt_string(&row.env),
                        cwd: clone_opt_string(&row.cwd),
                        connect_timeout_ms,
                    },
                ),
                None => Err("missing command".to_owned()),
            }
        },
        TransportKind::Http => {
            match &row.url {
                Some(u) => Ok(
                    RowDirective::Http {
                        url: u.clone(),
                        headers_json: clone_opt_string(&row.headers),
                        auth: clone_opt_string(&row.auth),
                        connect_timeout_ms,
                    },
                ),
                None => Err("missing url".to_owned()),
            }
        },
    }
}

fn clone_opt_string(s: &Option<String>) -> (r: Option<String>)
    ensures
        spec_opt_text_eq(r, *s),
{
    match s {
        Some(x) => Some(x.clone()),
        None => None,
    }
}

/// All elements of `items` are strings.
pub open spec fn spec_all_strings(items: Seq<JsonValue>) -> bool {
    forall|i: int| 0 <= i < items.len() ==> #[trigger] items[i] matches JsonValue::Text(_)
}

/// Reads a decoded argument list: the strings of a JSON array of
/// strings, and nothing from any other shape (mirroring a decode that
/// either yields the whole list or nothing).
#[verifier::loop_isolation(false)]
pub fn mcp_string_array(parsed: Option<JsonValue>) -> (r: Vec<String>)
    ensures
        match parsed {
            Some(JsonValue::Array(items)) => if spec_all_strings(items@) {
                r@.len() == items@.len() && (forall|i: int|
                    0 <= i < items@.len() ==> #[trigger] r@[i] == items@[i]->Text_0)
            } else {
                r@.len() == 0
            },
            _ => r@.len() == 0,
        },
{
    match parsed {
        Some(JsonValue::Array(mut items)) => {
            let ghost orig = items@;
            let mut out: Vec<String> = Vec::new();
            while items.len() > 0
                invariant
                    items@.len() <= orig.len(),
                    items@ == orig.skip(orig.len() - items@.len()),
                    out@.len() == orig.len() - items@.len(),
                    forall|j: int| 0 <= j < out@.len() ==> (#[trigger] orig[j]) is Text,
                    forall|j: int| 0 <= j < out@.len() ==> #[trigger] out@[j] == orig[j]->Text_0,
                decreases items.len(),
            {
                let ghost k = orig.len() - items@.len();
                let item = items.remove(0);
                proof {
                    assert(item == orig.skip(k)[0]);
                    assert(orig.skip(k)[0] == orig[k]);
                    assert(orig.skip(k).remove(0) =~= orig.skip(k + 1));
                }
                match item {
                    JsonValue::Text(s) => {
                        proof {
                            assert(orig[k] is Text);
                            assert(orig[k]->Text_0 == s);
                        }
                        let ghost out0 = out@;
                        out.push(s);
                        proof {
                            assert(out@ == out0.push(orig[k]->Text_0));
                            assert forall|j: int| 0 <= j < out@.len() implies (
                            #[trigger] orig[j]) is Text by {
                                if j < out0.len() as int {
                                    assert(out0[j] == orig[j]->Text_0);
                                }
                            }
                            assert forall|j: int|
                                0 <= j < out@.len() implies #[trigger] out@[j]
                                == orig[j]->Text_0 by {
                                if j < out0.len() as int {
                                    assert(out@[j] == out0[j]);
                                } else {
                                    assert(out@[j] == orig[k]->Text_0);
                                }
                            }
                        }
                    },
                    _ => {
                        proof {
                            assert(!(orig[k] matches JsonValue::Text(_)));
                        }
                        return Vec::new();
                    },
                }
            }
            proof {
                assert forall|i: int| 0 <= i < orig.len() implies #[trigger] orig[i]
                    matches JsonValue::Text(_) by {
                    assert(out@[i] == orig[i]->Text_0);
                }
                assert(spec_all_strings(orig));
            }
            out
        },
        _ => Vec::new(),
    }
}

/// Reads a decoded environment or header object: the value itself, or
/// an empty object when nothing was decoded.
pub fn json_object_or_empty(parsed: Option<JsonValue>) -> (r: JsonValue)
    ensures
        match parsed {
            Some(v) => r == v,
            None => r matches JsonValue::Object(pairs) && pairs@.len() == 0,
        },
{
    match parsed {
        Some(v) => v,
        None => JsonValue::Object(Vec::new()),
    }
}

/// Merges an Authorization header into an optional header object: when
/// a token is supplied and the headers are absent, a fresh object
/// carries it; when they are an object without an Authorization member,
/// the member is appended; an existing Authorization member is never
/// overwritten, and a non-object value is left alone.
pub fn merge_auth_header(headers: Option<JsonValue>, auth: Option<&str>) -> (r: Option<JsonValue>)
    ensures
        match auth {
            None => r == headers,
            Some(tok) => match headers {
                None => r matches Some(v) && (v matches JsonValue::Object(pairs) && pairs@.len()
                    == 1 && pairs@[0].0@ == "Authorization"@ && (pairs@[0].1
                    matches JsonValue::Text(t) && t@ == tok@)),
                Some(h) => match h {
                    JsonValue::Object(pairs) => if spec_lookup(pairs@, "Authorization"@) is Some {
                        r == Some(h)
                    } else {
                        r matches Some(v) && (v matches JsonValue::Object(p2) && p2@.len()
                            == pairs@.len() + 1 && p2@.take(pairs@.len() as int) == pairs@
                            && p2@.last().0@ == "Authorization"@ && (p2@.last().1
                            matches JsonValue::Text(t) && t@ == tok@))
                    },
                    _ => r == Some(h),
                },
            },
        },
{
    match auth {
        None => headers,
        Some(tok) => match headers {
            None => {
                let mut pairs: Vec<(String, JsonValue)> = Vec::new();
                pairs.push(("Authorization".to_owned(), JsonValue::Text(tok.to_owned())));
                Some(JsonValue::Object(pairs))
            },
            Some(h) => match h {
                JsonValue::Object(mut pairs) => {
                    if has_key(&pairs, "Authorization") {
                        Some(JsonValue::Object(pairs))
                    } else {
                        let ghost before = pairs@;
                        pairs.push(("Authorization".to_owned(), JsonValue::Text(tok.to_owned())));
                        proof {
                            assert(pairs@.take(before.len() as int) =~= before);
                        }
                        Some(JsonValue::Object(pairs))
                    }
                },
                other => Some(other),
            },
        },
    }
}

} // verus!
