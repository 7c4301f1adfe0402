//! JSON-RPC 2.0 wire codec.
//!
//! Builds request and notification envelopes and takes a response apart:
//! an `error` member turns into a failure carrying the error's `message`
//! text (or `"rpc error"` when that is absent), anything else yields the
//! `result` member, with a missing `result` read as the protocol's null.

use vstd::prelude::*;

use crate::decimal::spec_u64_digits;
use crate::decimal::u64_to_string;
use crate::json::spec_get;
use crate::json::take_field2;
use crate::json::JsonValue;

verus! {

/// `r` is the JSON-RPC request envelope for call `id` of `method` with
/// `params`.
pub open spec fn spec_is_rpc_request(
    r: JsonValue,
    id: u64,
    method: Seq<char>,
    params: JsonValue,
) -> bool {
    &&& r matches JsonValue::Object(pairs)
    &&& pairs@.len() == 4
    &&& pairs@[0].0@ == "jsonrpc"@
    &&& pairs@[0].1 matches JsonValue::Text(ver) && ver@ == "2.0"@
    &&& pairs@[1].0@ == "id"@
    &&& pairs@[1].1 matches JsonValue::Num(n) && n@ == spec_u64_digits(id as int)
    &&& pairs@[2].0@ == "method"@
    &&& pairs@[2].1 matches JsonValue::Text(m) && m@ == method
    &&& pairs@[3].0@ == "params"@
    &&& pairs@[3].1 == params
}

/// `r` is the JSON-RPC notification envelope for `method` with optional
/// `params`; a notification carries no `id`.
pub open spec fn spec_is_rpc_notification(
    r: JsonValue,
    method: Seq<char>,
    params: Option<JsonValue>,
) -> bool {
    &&& r matches JsonValue::Object(pairs)
    &&& pairs@.len() == (if params is Some {
        3int
    } else {
        2int
    })
    &&& pairs@[0].0@ == "jsonrpc"@
    &&& pairs@[0].1 matches JsonValue::Text(ver) && ver@ == "2.0"@
    &&& pairs@[1].0@ == "method"@
    &&& pairs@[1].1 matches JsonValue::Text(m) && m@ == method
    &&& (params matches Some(p) ==> pairs@[2].0@ == "params"@ && pairs@[2].1 == p)
}

/// Builds the request envelope `{jsonrpc, id, method, params}`.
pub fn make_rpc_req(id: u64, method: &str, params: JsonValue) -> (r: JsonValue)
    ensures
        spec_is_rpc_request(r, id, method@, params),
{
    let id_text = u64_to_string(id);
    let mut pairs: Vec<(String, JsonValue)> = Vec::new();
    pairs.push(("jsonrpc".to_owned(), JsonValue::Text("2.0".to_owned())));
    pairs.push(("id".to_owned(), JsonValue::Num(id_text)));
    pairs.push(("method".to_owned(), JsonValue::Text(method.to_owned())));
    pairs.push(("params".to_owned(), params));
    JsonValue::Object(pairs)
}

/// Builds the notification envelope `{jsonrpc, method}`, with `params`
/// appended when given.
pub fn make_rpc_notification(method: &str, params: Option<JsonValue>) -> (r: JsonValue)
    ensures
        spec_is_rpc_notification(r, method@, params),
{
    let mut pairs: Vec<(String, JsonValue)> = Vec::new();
    pairs.push(("jsonrpc".to_owned(), JsonValue::Text("2.0".to_owned())));
    pairs.push(("method".to_owned(), JsonValue::Text(method.to_owned())));
    match params {
        Some(p) => {
            pairs.push(("params".to_owned(), p));
        },
        None => {},
    }
    JsonValue::Object(pairs)
}

/// `p` is the fixed parameter object of the `initialize` handshake:
/// the protocol version, empty capabilities, and this client's identity.
pub open spec fn spec_is_init_params(p: JsonValue) -> bool {
    &&& p matches JsonValue::Object(pairs)
    &&& pairs@.len() == 3
    &&& pairs@[0].0@ == "protocolVersion"@
    &&& (pairs@[0].1 matches JsonValue::Text(v) && v@ == "2024-11-05"@)
    &&& pairs@[1].0@ == "capabilities"@
    &&& (pairs@[1].1 matches JsonValue::Object(caps) && caps@.len() == 0)
    &&& pairs@[2].0@ == "clientInfo"@
    &&& (pairs@[2].1 matches JsonValue::Object(ci) && ci@.len() == 2 && ci@[0].0@ == "name"@ && (
    ci@[0].1 matches JsonValue::Text(n) && n@ == "OpenChat"@) && ci@[1].0@ == "version"@ && (
    ci@[1].1 matches JsonValue::Text(ver) && ver@ == "0.1.0"@))
}

/// `r` is the `initialize` request envelope under identifier `id`.
pub open spec fn spec_is_init_request(r: JsonValue, id: u64) -> bool {
    &&& r matches JsonValue::Object(pairs)
    &&& spec_is_rpc_request(r, id, "initialize"@, pairs@[3].1)
    &&& spec_is_init_params(pairs@[3].1)
}

/// `r` is the `tools/list` request envelope under identifier `id`,
/// carrying empty parameters.
pub open spec fn spec_is_list_request(r: JsonValue, id: u64) -> bool {
    &&& r matches JsonValue::Object(pairs)
    &&& spec_is_rpc_request(r, id, "tools/list"@, pairs@[3].1)
    &&& (pairs@[3].1 matches JsonValue::Object(p) && p@.len() == 0)
}

/// `r` is the `tools/call` request envelope under identifier `id` for
/// the named tool with the given arguments.
pub open spec fn spec_is_call_request(
    r: JsonValue,
    id: u64,
    tool: Seq<char>,
    arguments: JsonValue,
) -> bool {
    &&& r matches JsonValue::Object(pairs)
    &&& spec_is_rpc_request(r, id, "tools/call"@, pairs@[3].1)
    &&& (pairs@[3].1 matches JsonValue::Object(p) && p@.len() == 2 && p@[0].0@ == "name"@ && (
    p@[0].1 matches JsonValue::Text(t) && t@ == tool) && p@[1].0@ == "arguments"@ && p@[1].1
        == arguments)
}

/// Builds the fixed `initialize` parameter object.
pub fn init_params() -> (r: JsonValue)
    ensures
        spec_is_init_params(r),
{
    let mut client_info: Vec<(String, JsonValue)> = Vec::new();
    client_info.push(("name".to_owned(), JsonValue::Text("OpenChat".to_owned())));
    client_info.push(("version".to_owned(), JsonValue::Text("0.1.0".to_owned())));
    let mut pairs: Vec<(String, JsonValue)> = Vec::new();
    pairs.push(("protocolVersion".to_owned(), JsonValue::Text("2024-11-05".to_owned())));
    pairs.push(("capabilities".to_owned(), JsonValue::Object(Vec::new())));
    pairs.push(("clientInfo".to_owned(), JsonValue::Object(client_info)));
    JsonValue::Object(pairs)
}

/// Builds the `initialize` request envelope under identifier `id`.
pub fn make_init_request(id: u64) -> (r: JsonValue)
    ensures
        spec_is_init_request(r, id),
{
    make_rpc_req(id, "initialize", init_params())
}

/// Builds the `tools/list` request envelope under identifier `id`.
pub fn make_list_request(id: u64) -> (r: JsonValue)
    ensures
        spec_is_list_request(r, id),
{
    make_rpc_req(id, "tools/list", JsonValue::Object(Vec::new()))
}

/// Builds the `tools/call` request envelope under identifier `id`.
pub fn make_call_request(id: u64, tool: &str, arguments: JsonValue) -> (r: JsonValue)
    ensures
        spec_is_call_request(r, id, tool@, arguments),
{
    let mut p: Vec<(String, JsonValue)> = Vec::new();
    p.push(("name".to_owned(), JsonValue::Text(tool.to_owned())));
    p.push(("arguments".to_owned(), arguments));
    make_rpc_req(id, "tools/call", JsonValue::Object(p))
}

/// Frames one serialized document for the stdio transport: a single
/// line, newline-terminated.
pub fn frame_stdio_line(doc_text: String) -> (r: String)
    ensures
        r@ == doc_text@ + "\n"@,
{
    let mut line = doc_text;
    line.append("\n");
    line
}

/// The failure text of an RPC error object: its string `message` member,
/// or `"rpc error"` when there is none.
pub open spec fn spec_rpc_error_message(e: JsonValue) -> Seq<char> {
    match spec_get(e, "message"@) {
        Some(JsonValue::Text(m)) => m@,
        _ => "rpc error"@,
    }
}

/// What a successful response decodes to: its `result` member, or null
/// when the member is absent.
pub open spec fn spec_rpc_result(v: JsonValue) -> JsonValue {
    match spec_get(v, "result"@) {
        Some(x) => x,
        None => JsonValue::Null,
    }
}

/// Decodes a response document: a failure exactly when the document has
/// an `error` member, otherwise the `result` value (null when missing).
pub fn extract_result_or_error(v: JsonValue) -> (r: Result<JsonValue, String>)
    ensures
        match spec_get(v, "error"@) {
            Some(e) => r matches Err(m) && m@ == spec_rpc_error_message(e),
            None => r matches Ok(res) && res == spec_rpc_result(v),
        },
{
    proof {
        reveal_strlit("error");
        reveal_strlit("result");
        assert("error"@.len() == 5);
        assert("result"@.len() == 6);
    }
    let (err_slot, res_slot) = take_field2(v, "error", "result");
    match err_slot {
        Some(e) => {
            let msg_slot = crate::json::take_field(e, "message");
            match msg_slot {
                Some(JsonValue::Text(m)) => Err(m),
                _ => Err("rpc error".to_owned()),
            }
        },
        None => match res_slot {
            Some(x) => Ok(x),
            None => Ok(JsonValue::Null),
        },
    }
}

} // verus!
