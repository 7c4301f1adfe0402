//! The session manager: a cache of established sessions keyed by an
//! external identifier.
//!
//! A session for an id is created once and reused: "ensure" is
//! idempotent, and a later call with different configuration is a no-op
//! (first writer wins). Each cached session carries its transport kind
//! and a strictly increasing request-identifier counter. The manager
//! decides and builds envelopes; the caller owns the physical channel,
//! performs each exchange, and hands the decoded document back.

use vstd::prelude::*;

use std::collections::HashMap;

use crate::content::extract_text_content;
use crate::content::spec_text_content;
use crate::json::spec_get;
use crate::json::spec_pairs_match;
use crate::json::spec_string_members;
use crate::json::string_members;
use crate::json::JsonValue;
use crate::parsing::parse_tools_array;
use crate::parsing::spec_named_tools;
use crate::parsing::spec_tool_entries;
use crate::parsing::spec_tool_matches;
use crate::rpc::extract_result_or_error;
use crate::rpc::make_call_request;
use crate::rpc::make_init_request;
use crate::rpc::make_list_request;
use crate::rpc::spec_is_call_request;
use crate::rpc::spec_is_init_request;
use crate::rpc::spec_is_list_request;
use crate::rpc::spec_rpc_error_message;
use crate::rpc::spec_rpc_result;
use crate::shell::build_stdio_command;
use crate::shell::normalize_cwd;
use crate::shell::spec_is_blank;
use crate::shell::spec_plan_for;
use crate::shell::CommandPlan;
use crate::types::McpToolInfo;

verus! {

/// The two transports a session can ride on.
#[derive(Clone, Copy, Debug, PartialEq, Eq, Structural)]
pub enum TransportKind {
    Stdio,
    Http,
}

/// What the manager remembers of one established session. The request
/// counter starts at 1, spent on the handshake, and never runs
/// backwards.
#[derive(Clone, Copy, Debug, PartialEq, Eq, Structural)]
pub struct SessionState {
    pub kind: TransportKind,
    pub next_id: u64,
}

/// The cache after an "ensure" for `id` has succeeded: untouched when a
/// session already existed, extended by a fresh session otherwise.
pub open spec fn spec_ensure(
    m: Map<i64, SessionState>,
    id: i64,
    kind: TransportKind,
) -> Map<i64, SessionState> {
    if m.contains_key(id) {
        m
    } else {
        m.insert(id, SessionState { kind, next_id: 1 })
    }
}

/// Ensuring a session twice for one id, with the same or different
/// configuration, is the same as ensuring it once: the second call
/// finds the entry and changes nothing.
pub proof fn lemma_ensure_idempotent(
    m: Map<i64, SessionState>,
    id: i64,
    k1: TransportKind,
    k2: TransportKind,
)
    ensures
        spec_ensure(spec_ensure(m, id, k1), id, k2) == spec_ensure(m, id, k1),
{
    if !m.contains_key(id) {
        assert(spec_ensure(m, id, k1).contains_key(id));
    }
}

/// The request identifier after one more send: one higher, held at the
/// top of the range rather than wrapping.
pub open spec fn spec_bump(n: u64) -> u64 {
    if n == u64::MAX {
        n
    } else {
        (n + 1) as u64
    }
}

/// Within one session a spent request identifier is never reused: the
/// counter strictly increases until it saturates at the top of the
/// range.
pub proof fn lemma_request_ids_never_reused(n: u64)
    ensures
        n < u64::MAX ==> spec_bump(n) > n,
        spec_bump(n) >= n,
{
}

/// What an "ensure" asks its caller to do.
#[derive(Debug, PartialEq, Eq)]
pub enum EnsureAction {
    /// A session for the id exists already; report success at once.
    AlreadyConnected,
    /// Launch the subprocess with this plan, environment and working
    /// directory, then perform the handshake within the deadline.
    ConnectStdio {
        plan: CommandPlan,
        env: Vec<(String, String)>,
        cwd: Option<String>,
        init_request: JsonValue,
        timeout_ms: u64,
    },
    /// Build the HTTP channel for this endpoint, then perform the
    /// handshake within the deadline.
    ConnectHttp { url: String, headers: Vec<(String, String)>, init_request: JsonValue, timeout_ms: u64 },
}

/// Holds and reuses sessions keyed by an application-level identifier.
pub struct McpManager {
    sessions: HashMap<i64, SessionState>,
}

impl McpManager {
    /// The cache contents.
    pub closed spec fn spec_sessions(self) -> Map<i64, SessionState> {
        self.sessions@
    }

    /// Creates a new, empty manager.
    pub fn new() -> (r: Self)
        ensures
            r.spec_sessions() == Map::<i64, SessionState>::empty(),
    {
        McpManager { sessions: HashMap::new() }
    }

    /// Whether a session is cached for `id`.
    pub fn has_session(&self, id: i64) -> (r: bool)
        ensures
            r == self.spec_sessions().contains_key(id),
    {
        self.sessions.contains_key(&id)
    }

    /// How many sessions are cached.
    pub fn session_count(&self) -> (r: usize)
        ensures
            r == self.spec_sessions().len(),
    {
        self.sessions.len()
    }

    /// Decides the work needed so a stdio session exists for `id`: none
    /// when one is cached, otherwise a launch plan plus the handshake
    /// request, both to run under `connect_timeout_ms`.
    pub fn ensure_stdio(
        &self,
        id: i64,
        command: &str,
        args: &Vec<String>,
        env: &JsonValue,
        cwd: Option<&str>,
        connect_timeout_ms: u64,
    ) -> (r: EnsureAction)
        ensures
            self.spec_sessions().contains_key(id) ==> r is AlreadyConnected,
            !self.spec_sessions().contains_key(id) ==> (r matches EnsureAction::ConnectStdio {
                plan,
                env: env_pairs,
                cwd: cwd_out,
                init_request,
                timeout_ms,
            } && spec_plan_for(plan, command@, args@.map_values(|a: String| a@))
                && spec_pairs_match(env_pairs@, spec_string_members(*env)) && (match cwd {
                Some(c) => if spec_is_blank(c@) {
                    cwd_out is None
                } else {
                    cwd_out matches Some(c2) && c2@ == c@
                },
                None => cwd_out is None,
            }) && spec_is_init_request(init_request, 1) && timeout_ms == connect_timeout_ms),
    {
        if self.sessions.contains_key(&id) {
            return EnsureAction::AlreadyConnected;
        }
        EnsureAction::ConnectStdio {
            plan: build_stdio_command(command, args),
            env: string_members(env),
            cwd: normalize_cwd(cwd),
            init_request: make_init_request(1),
            timeout_ms: connect_timeout_ms,
        }
    }

    /// Decides the work needed so an HTTP session exists for `id`: none
    /// when one is cached, otherwise the channel to build — with the
    /// string-valued headers to attach to every request — plus the
    /// handshake request, both to run under `connect_timeout_ms`.
    pub fn ensure_http(
        &self,
        id: i64,
        url: &str,
        headers: Option<&JsonValue>,
        connect_timeout_ms: u64,
    ) -> (r: EnsureAction)
        ensures
            self.spec_sessions().contains_key(id) ==> r is AlreadyConnected,
            !self.spec_sessions().contains_key(id) ==> (r matches EnsureAction::ConnectHttp {
                url: url_out,
                headers: header_pairs,
                init_request,
                timeout_ms,
            } && url_out@ == url@ && (match headers {
                Some(h) => spec_pairs_match(header_pairs@, spec_string_members(*h)),
                None => header_pairs@.len() == 0,
            }) && spec_is_init_request(init_request, 1) && timeout_ms == connect_timeout_ms),
    {
        if self.sessions.contains_key(&id) {
            return EnsureAction::AlreadyConnected;
        }
        let header_pairs: Vec<(String, String)> = match headers {
            Some(h) => string_members(h),
            None => Vec::new(),
        };
        EnsureAction::ConnectHttp {
            url: url.to_owned(),
            headers: header_pairs,
            init_request: make_init_request(1),
            timeout_ms: connect_timeout_ms,
        }
    }

    /// Records a session for `id` once its handshake has succeeded. A
    /// no-op when a session already exists: the first writer wins.
    pub fn register_session(&mut self, id: i64, kind: TransportKind)
        ensures
            final(self).spec_sessions() == spec_ensure(old(self).spec_sessions(), id, kind),
    {
        if !self.sessions.contains_key(&id) {
            self.sessions.insert(id, SessionState { kind, next_id: 1 });
        }
    }

    /// Builds the next `tools/list` request for the session of `id`,
    /// spending one request identifier; fails when no session exists.
    pub fn list_tools_request(&mut self, id: i64) -> (r: Result<JsonValue, String>)
        ensures
            !old(self).spec_sessions().contains_key(id) ==> (r matches Err(e) && e@
                == "not connected"@ && final(self).spec_sessions() == old(self).spec_sessions()),
            old(self).spec_sessions().contains_key(id) ==> (r matches Ok(req)
                && spec_is_list_request(req, spec_bump(old(self).spec_sessions()[id].next_id))
                && final(self).spec_sessions() == old(self).spec_sessions().insert(
                id,
                SessionState {
                    kind: old(self).spec_sessions()[id].kind,
                    next_id: spec_bump(old(self).spec_sessions()[id].next_id),
                },
            )),
    {
        match self.sessions.get(&id) {
            Some(s) => {
                let s = *s;
                let n = if s.next_id == u64::MAX {
                    u64::MAX
                } else {
                    s.next_id + 1
                };
                self.sessions.insert(id, SessionState { kind: s.kind, next_id: n });
                Ok(make_list_request(n))
            },
            None => Err("not connected".to_owned()),
        }
    }

    /// Builds the next `tools/call` request for the session of `id` and
    /// the named tool, spending one request identifier; fails when no
    /// session exists.
    pub fn call_tool_request(&mut self, id: i64, tool: &str, arguments: JsonValue) -> (r: Result<
        JsonValue,
        String,
    >)
        ensures
            !old(self).spec_sessions().contains_key(id) ==> (r matches Err(e) && e@
                == "not connected"@ && final(self).spec_sessions() == old(self).spec_sessions()),
            old(self).spec_sessions().contains_key(id) ==> (r matches Ok(req)
                && spec_is_call_request(
                req,
                spec_bump(old(self).spec_sessions()[id].next_id),
                tool@,
                arguments,
            ) && final(self).spec_sessions() == old(self).spec_sessions().insert(
                id,
                SessionState {
                    kind: old(self).spec_sessions()[id].kind,
                    next_id: spec_bump(old(self).spec_sessions()[id].next_id),
                },
            )),
    {
        match self.sessions.get(&id) {
            Some(s) => {
                let s = *s;
                let n = if s.next_id == u64::MAX {
                    u64::MAX
                } else {
                    s.next_id + 1
                };
                self.sessions.insert(id, SessionState { kind: s.kind, next_id: n });
                Ok(make_call_request(n, tool, arguments))
            },
            None => Err("not connected".to_owned()),
        }
    }
}

/// Decodes the transport's answer to a `tools/list` exchange: a
/// transport failure or an RPC error passes through as the failure
/// text; a result is parsed into tool descriptors.
pub fn list_tools_finish(outcome: Result<JsonValue, String>) -> (r: Result<Vec<McpToolInfo>, String>)
    ensures
        match outcome {
            Err(e) => r matches Err(e2) && e2 == e,
            Ok(doc) => match spec_get(doc, "error"@) {
                Some(eobj) => r matches Err(m) && m@ == spec_rpc_error_message(eobj),
                None => r matches Ok(tools) && tools@.len() == spec_named_tools(
                    spec_tool_entries(spec_rpc_result(doc)),
                ).len() && (forall|i: int|
                    0 <= i < tools@.len() ==> spec_tool_matches(
                        spec_named_tools(spec_tool_entries(spec_rpc_result(doc)))[i],
                        #[trigger] tools@[i],
                    )),
            },
        },
{
    match outcome {
        Err(e) => Err(e),
        Ok(doc) => match extract_result_or_error(doc) {
            Err(m) => Err(m),
            Ok(result) => Ok(parse_tools_array(result)),
        },
    }
}

/// Decodes the transport's answer to a `tools/call` exchange: a
/// transport failure or an RPC error passes through as the failure
/// text; a result yields its textual content.
pub fn call_tool_finish(outcome: Result<JsonValue, String>) -> (r: Result<String, String>)
    ensures
        match outcome {
            Err(e) => r matches Err(e2) && e2 == e,
            Ok(doc) => match spec_get(doc, "error"@) {
                Some(eobj) => r matches Err(m) && m@ == spec_rpc_error_message(eobj),
                None => r matches Ok(text) && text@ == spec_text_content(spec_rpc_result(doc)),
            },
        },
{
    match outcome {
        Err(e) => Err(e),
        Ok(doc) => match extract_result_or_error(doc) {
            Err(m) => Err(m),
            Ok(result) => Ok(extract_text_content(result)),
        },
    }
}

} // verus!
