//! The connectivity probe: a stateless, one-shot check of a server
//! configuration.
//!
//! The probe opens a channel, performs the `initialize` handshake,
//! requests the tool list, and always tears a spawned subprocess down
//! at the end, whatever the outcome. It is a state machine: the caller
//! performs each connection or exchange and reports what came back;
//! the probe decides the next step and, at the end, the check result.

use vstd::prelude::*;

use crate::json::spec_pairs_match;
use crate::json::spec_string_members;
use crate::json::string_members;
use crate::json::JsonValue;
use crate::manager::TransportKind;
use crate::parsing::parse_tools_array;
use crate::parsing::spec_named_tools;
use crate::parsing::spec_tool_entries;
use crate::parsing::spec_tool_matches;
use crate::rpc::extract_result_or_error;
use crate::rpc::make_init_request;
use crate::rpc::make_list_request;
use crate::rpc::spec_is_init_request;
use crate::rpc::spec_is_list_request;
use crate::rpc::spec_rpc_result;
use crate::json::spec_get;
use crate::shell::build_stdio_command;
use crate::shell::is_blank;
use crate::shell::normalize_cwd;
use crate::shell::spec_is_blank;
use crate::shell::spec_plan_for;
use crate::shell::CommandPlan;
use crate::types::McpCheckResult;

verus! {

/// Configuration for one probe.
#[derive(Debug, PartialEq, Eq)]
pub enum TransportConfig {
    Stdio {
        command: String,
        args: Vec<String>,
        env: Option<JsonValue>,
        cwd: Option<String>,
        connect_timeout_ms: u64,
        list_tools_timeout_ms: u64,
    },
    Http {
        url: String,
        headers: Option<JsonValue>,
        connect_timeout_ms: u64,
        list_tools_timeout_ms: u64,
    },
}

/// Where the probe stands.
#[derive(Clone, Copy, Debug, PartialEq, Eq, Structural)]
pub enum ProbePhase {
    /// Waiting for the channel to come up.
    Connecting,
    /// Waiting for the handshake's answer.
    Initializing,
    /// Waiting for the tool list.
    Listing,
    /// Nothing further will be asked of the caller.
    Done,
}

/// The probe's first step.
#[derive(Debug, PartialEq, Eq)]
pub enum ProbeStart {
    /// The configuration is rejected; no connection is attempted.
    Reject(McpCheckResult),
    /// Launch the subprocess under the deadline, with this plan,
    /// environment and working directory.
    LaunchStdio {
        plan: CommandPlan,
        env: Vec<(String, String)>,
        cwd: Option<String>,
        timeout_ms: u64,
    },
    /// Build the HTTP channel for this endpoint under the deadline,
    /// attaching these headers to every request.
    LaunchHttp { url: String, headers: Vec<(String, String)>, timeout_ms: u64 },
}

/// What the probe asks for next.
#[derive(Debug, PartialEq, Eq)]
pub enum ProbeAction {
    /// Send this request and await one response within the deadline.
    Send { request: JsonValue, timeout_ms: u64 },
    /// Tear down — kill the subprocess when one was spawned — and
    /// report the result.
    Finish { kill_child: bool, result: McpCheckResult },
}

/// `r` reports a failed check with this error text and nothing else.
pub open spec fn spec_failure_result(r: McpCheckResult, msg: Seq<char>) -> bool {
    &&& r.ok == false
    &&& r.tools_count is None
    &&& r.tools is None
    &&& r.warning is None
    &&& (r.error matches Some(e) && e@ == msg)
}

fn failure_result(error: String) -> (r: McpCheckResult)
    ensures
        spec_failure_result(r, error@),
{
    McpCheckResult { ok: false, tools_count: None, tools: None, warning: None, error: Some(error) }
}

/// One in-flight probe.
pub struct ServerProbe {
    pub kind: TransportKind,
    pub connect_timeout_ms: u64,
    pub list_tools_timeout_ms: u64,
    pub phase: ProbePhase,
}

impl ServerProbe {
    /// Starts a probe of `config`. A stdio configuration whose command
    /// is empty or all white space is rejected at once; otherwise the
    /// caller is told how to bring the channel up.
    pub fn start(config: &TransportConfig) -> (r: (ServerProbe, ProbeStart))
        ensures
            match *config {
                TransportConfig::Stdio {
                    command,
                    args,
                    env,
                    cwd,
                    connect_timeout_ms,
                    list_tools_timeout_ms,
                } => {
                    &&& r.0.kind == TransportKind::Stdio
                    &&& r.0.connect_timeout_ms == connect_timeout_ms
                    &&& r.0.list_tools_timeout_ms == list_tools_timeout_ms
                    &&& (if spec_is_blank(command@) {
                        r.0.phase == ProbePhase::Done && (r.1 matches ProbeStart::Reject(res)
                            && spec_failure_result(res, "Command cannot be empty"@))
                    } else {
                        r.0.phase == ProbePhase::Connecting && (r.1 matches ProbeStart::LaunchStdio {
                            plan,
                            env: env_pairs,
                            cwd: cwd_out,
                            timeout_ms,
                        } && spec_plan_for(plan, command@, args@.map_values(|a: String| a@)) && (
                        match env {
                            Some(e) => spec_pairs_match(env_pairs@, spec_string_members(e)),
                            None => env_pairs@.len() == 0,
                        }) && (match cwd {
                            Some(c) => if spec_is_blank(c@) {
                                cwd_out is None
                            } else {
                                cwd_out matches Some(c2) && c2@ == c@
                            },
                            None => cwd_out is None,
                        }) && timeout_ms == connect_timeout_ms)
                    })
                },
                TransportConfig::Http { url, headers, connect_timeout_ms, list_tools_timeout_ms } => {
                    &&& r.0.kind == TransportKind::Http
                    &&& r.0.connect_timeout_ms == connect_timeout_ms
                    &&& r.0.list_tools_timeout_ms == list_tools_timeout_ms
                    &&& r.0.phase == ProbePhase::Connecting
                    &&& (r.1 matches ProbeStart::LaunchHttp { url: url_out, headers: header_pairs, timeout_ms }
                        && url_out@ == url@ && (match headers {
                        Some(h) => spec_pairs_match(header_pairs@, spec_string_members(h)),
                        None => header_pairs@.len() == 0,
                    }) && timeout_ms == connect_timeout_ms)
                },
            },
    {
        match config {
            TransportConfig::Stdio {
                command,
                args,
                env,
                cwd,
                connect_timeout_ms,
                list_tools_timeout_ms,
            } => {
                if is_blank(command.as_str()) {
                    let probe = ServerProbe {
                        kind: TransportKind::Stdio,
                        connect_timeout_ms: *connect_timeout_ms,
                        list_tools_timeout_ms: *list_tools_timeout_ms,
                        phase: ProbePhase::Done,
                    };
                    return (
                        probe,
                        ProbeStart::Reject(failure_result("Command cannot be empty".to_owned())),
                    );
                }
                let env_pairs: Vec<(String, String)> = match env {
                    Some(e) => string_members(e),
                    None => Vec::new(),
                };
                let cwd_ref: Option<&str> = match cwd {
                    Some(c) => Some(c.as_str()),
                    None => None,
                };
                let probe = ServerProbe {
                    kind: TransportKind::Stdio,
                    connect_timeout_ms: *connect_timeout_ms,
                    list_tools_timeout_ms: *list_tools_timeout_ms,
                    phase: ProbePhase::Connecting,
                };
                (
                    probe,
                    ProbeStart::LaunchStdio {
                        plan: build_stdio_command(command.as_str(), args),
                        env: env_pairs,
                        cwd: normalize_cwd(cwd_ref),
                        timeout_ms: *connect_timeout_ms,
                    },
                )
            },
            TransportConfig::Http { url, headers, connect_timeout_ms, list_tools_timeout_ms } => {
                let header_pairs: Vec<(String, String)> = match headers {
                    Some(h) => string_members(h),
                    None => Vec::new(),
                };
                let probe = ServerProbe {
                    kind: TransportKind::Http,
                    connect_timeout_ms: *connect_timeout_ms,
                    list_tools_timeout_ms: *list_tools_timeout_ms,
                    phase: ProbePhase::Connecting,
                };
                (
                    probe,
                    ProbeStart::LaunchHttp {
                        url: url.as_str().to_owned(),
                        headers: header_pairs,
                        timeout_ms: *connect_timeout_ms,
                    },
                )
            },
        }
    }

    /// Reports how bringing the channel up went. On success the probe
    /// hands out the handshake request; on failure it finishes with the
    /// caller's diagnostic text, and there is no subprocess to kill.
    pub fn on_connected(&mut self, outcome: Result<(), String>) -> (r: ProbeAction)
        requires
            old(self).phase == ProbePhase::Connecting,
        ensures
            final(self).kind == old(self).kind,
            final(self).connect_timeout_ms == old(self).connect_timeout_ms,
            final(self).list_tools_timeout_ms == old(self).list_tools_timeout_ms,
            match outcome {
                Ok(_) => final(self).phase == ProbePhase::Initializing && (r
                    matches ProbeAction::Send { request, timeout_ms } && spec_is_init_request(
                    request,
                    1,
                ) && timeout_ms == old(self).connect_timeout_ms),
                Err(e) => final(self).phase == ProbePhase::Done && (r
                    matches ProbeAction::Finish { kill_child, result } && kill_child == false
                    && spec_failure_result(result, e@)),
            },
    {
        match outcome {
            Ok(_) => {
                self.phase = ProbePhase::Initializing;
                ProbeAction::Send {
                    request: make_init_request(1),
                    timeout_ms: self.connect_timeout_ms,
                }
            },
            Err(e) => {
                self.phase = ProbePhase::Done;
                ProbeAction::Finish { kill_child: false, result: failure_result(e) }
            },
        }
    }

    /// Reports one decoded response document (or the transport's
    /// failure text). After the handshake the probe hands out the
    /// `tools/list` request; after the tool list it finishes, telling a
    /// stdio caller to kill the subprocess in every case.
    pub fn on_response(&mut self, outcome: Result<JsonValue, String>) -> (r: ProbeAction)
        requires
            old(self).phase == ProbePhase::Initializing || old(self).phase == ProbePhase::Listing,
        ensures
            final(self).kind == old(self).kind,
            final(self).connect_timeout_ms == old(self).connect_timeout_ms,
            final(self).list_tools_timeout_ms == old(self).list_tools_timeout_ms,
            old(self).phase == ProbePhase::Initializing ==> (match spec_response_failure(outcome) {
                Some(_) => final(self).phase == ProbePhase::Done && (r
                    matches ProbeAction::Finish { kill_child, result } && kill_child == (old(
                    self,
                ).kind == TransportKind::Stdio) && spec_failure_result(
                    result,
                    if old(self).kind == TransportKind::Stdio {
                        "Failed to send initialize"@
                    } else {
                        "Failed HTTP initialize"@
                    },
                )),
                None => final(self).phase == ProbePhase::Listing && (r
                    matches ProbeAction::Send { request, timeout_ms } && spec_is_list_request(
                    request,
                    2,
                ) && timeout_ms == old(self).list_tools_timeout_ms),
            }),
            old(self).phase == ProbePhase::Listing ==> final(self).phase == ProbePhase::Done && (
            match spec_response_failure(outcome) {
                Some(msg) => r matches ProbeAction::Finish { kill_child, result } && kill_child
                    == (old(self).kind == TransportKind::Stdio) && spec_failure_result(
                    result,
                    if old(self).kind == TransportKind::Stdio {
                        "Failed to request tools/list"@
                    } else {
                        "Failed HTTP tools/list: "@ + msg
                    },
                ),
                None => (r matches ProbeAction::Finish { kill_child, result } && kill_child == (
                old(self).kind == TransportKind::Stdio) && spec_success_result(
                    result,
                    spec_probe_tools(outcome),
                )),
            }),
    {
        let failed: Option<String> = match outcome {
            Ok(doc) => match extract_result_or_error(doc) {
                Ok(result) => {
                    match self.phase {
                        ProbePhase::Initializing => {
                            self.phase = ProbePhase::Listing;
                            return ProbeAction::Send {
                                request: make_list_request(2),
                                timeout_ms: self.list_tools_timeout_ms,
                            };
                        },
                        _ => {
                            self.phase = ProbePhase::Done;
                            let tools = parse_tools_array(result);
                            let count: u32 = #[verifier::truncate] (tools.len() as u32);
                            return ProbeAction::Finish {
                                kill_child: matches!(self.kind, TransportKind::Stdio),
                                result: McpCheckResult {
                                    ok: true,
                                    tools_count: Some(count),
                                    tools: Some(tools),
                                    warning: None,
                                    error: None,
                                },
                            };
                        },
                    }
                },
                Err(m) => Some(m),
            },
            Err(e) => Some(e),
        };
        let msg = failed.unwrap();
        let text: String = match self.phase {
            ProbePhase::Initializing => {
                if matches!(self.kind, TransportKind::Stdio) {
                    "Failed to send initialize".to_owned()
                } else {
                    "Failed HTTP initialize".to_owned()
                }
            },
            _ => {
                if matches!(self.kind, TransportKind::Stdio) {
                    "Failed to request tools/list".to_owned()
                } else {
                    let mut t: String = "Failed HTTP tools/list: ".to_owned();
                    t.append(msg.as_str());
                    t
                }
            },
        };
        self.phase = ProbePhase::Done;
        ProbeAction::Finish {
            kill_child: matches!(self.kind, TransportKind::Stdio),
            result: failure_result(text),
        }
    }
}

/// The failure text of one exchange, if it failed: the transport's own
/// diagnostic, or the RPC error's message.
pub open spec fn spec_response_failure(outcome: Result<JsonValue, String>) -> Option<Seq<char>> {
    match outcome {
        Err(e) => Some(e@),
        Ok(doc) => match spec_get(doc, "error"@) {
            Some(eobj) => Some(crate::rpc::spec_rpc_error_message(eobj)),
            None => None,
        },
    }
}

/// The tool entries of a successful `tools/list` exchange.
pub open spec fn spec_probe_tools(outcome: Result<JsonValue, String>) -> Seq<JsonValue> {
    match outcome {
        Ok(doc) => spec_named_tools(spec_tool_entries(spec_rpc_result(doc))),
        Err(_) => Seq::empty(),
    }
}

/// `r` reports a passed check over these well-formed tool entries.
pub open spec fn spec_success_result(r: McpCheckResult, entries: Seq<JsonValue>) -> bool {
    &&& r.ok == true
    &&& r.warning is None
    &&& r.error is None
    &&& (r.tools matches Some(ts) && ts@.len() == entries.len() && (forall|i: int|
        0 <= i < ts@.len() ==> spec_tool_matches(entries[i], #[trigger] ts@[i])))
    &&& (r.tools_count matches Some(c) && c == entries.len() as u32)
}

} // verus!
