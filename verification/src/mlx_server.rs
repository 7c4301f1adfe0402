//! Configuration and status records of the MLX model server, and the
//! command line its supervisor launches it with.

use vstd::prelude::*;

use crate::decimal::spec_u64_digits;
use crate::decimal::u64_to_string;

verus! {

/// How the MLX server is to be started.
#[derive(Debug, PartialEq, Eq)]
pub struct MLXServerConfig {
    pub model_path: String,
    pub port: u16,
    pub host: String,
    pub log_level: Option<String>,
    pub max_tokens: Option<u32>,
}

impl Default for MLXServerConfig {
    /// The stock model on the loopback endpoint, with informational
    /// logging and the stock token budget.
    fn default() -> (r: Self)
        ensures
            r.model_path@ == "models/Qwen3-0.6B-MLX-4bit"@,
            r.port == 8000u16,
            r.host@ == "127.0.0.1"@,
            r.log_level matches Some(l) && l@ == "INFO"@,
            r.max_tokens == Some(32000u32),
    {
        MLXServerConfig {
            model_path: "models/Qwen3-0.6B-MLX-4bit".to_owned(),
            port: 8000,
            host: "127.0.0.1".to_owned(),
            log_level: Some("INFO".to_owned()),
            max_tokens: Some(32000),
        }
    }
}

/// What the supervisor reports about the MLX server process.
#[derive(Debug, PartialEq, Eq)]
pub struct MLXServerStatus {
    pub is_running: bool,
    pub is_ready: bool,
    pub port: Option<u16>,
    pub model_path: Option<String>,
    pub pid: Option<u32>,
    pub error: Option<String>,
}

impl Default for MLXServerStatus {
    /// A stopped server: nothing running, nothing reported.
    fn default() -> (r: Self)
        ensures
            r.is_running == false,
            r.is_ready == false,
            r.port is None,
            r.model_path is None,
            r.pid is None,
            r.error is None,
    {
        MLXServerStatus {
            is_running: false,
            is_ready: false,
            port: None,
            model_path: None,
            pid: None,
            error: None,
        }
    }
}

/// The argument list that launches the MLX server under `config`: the
/// model, the endpoint, a port-prefixed pid file, and the optional log
/// level and token budget.
pub open spec fn spec_mlx_command_args(config: MLXServerConfig) -> Seq<Seq<char>> {
    let base = seq![
        config.model_path@,
        "--port"@,
        spec_u64_digits(config.port as int),
        "--host"@,
        config.host@,
        "--pid-file"@,
        spec_u64_digits(config.port as int) + "_mlx_server.pid"@,
    ];
    let with_log = match config.log_level {
        Some(l) => base + seq!["--log-level"@, l@],
        None => base,
    };
    match config.max_tokens {
        Some(m) => with_log + seq!["--max-tokens"@, spec_u64_digits(m as int)],
        None => with_log,
    }
}

/// Builds the MLX server's argument list.
pub fn build_command_args(config: &MLXServerConfig) -> (r: Vec<String>)
    ensures
        r@.map_values(|a: String| a@) == spec_mlx_command_args(*config),
{
    let mut args: Vec<String> = Vec::new();
    args.push(config.model_path.clone());
    args.push("--port".to_owned());
    args.push(u64_to_string(config.port as u64));
    args.push("--host".to_owned());
    args.push(config.host.clone());
    args.push("--pid-file".to_owned());
    let mut pid_file = u64_to_string(config.port as u64);
    pid_file.append("_mlx_server.pid");
    args.push(pid_file);
    match &config.log_level {
        Some(l) => {
            args.push("--log-level".to_owned());
            args.push(l.clone());
        },
        None => {},
    }
    match &config.max_tokens {
        Some(m) => {
            args.push("--max-tokens".to_owned());
            args.push(u64_to_string(*m as u64));
        },
        None => {},
    }
    proof {
        assert(args@.map_values(|a: String| a@) =~= spec_mlx_command_args(*config));
    }
    args
}

} // verus!
