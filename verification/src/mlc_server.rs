//! Configuration and status records of the MLC model server, a sibling
//! subprocess supervised outside this library.

use vstd::prelude::*;

verus! {

/// What the supervisor reports about the MLC server process.
#[derive(Debug, PartialEq, Eq)]
pub struct MLCServerStatus {
    pub is_running: bool,
    pub is_http_ready: bool,
    pub port: Option<u16>,
    pub model_path: Option<String>,
    pub pid: Option<u32>,
    pub error: Option<String>,
}

/// How the MLC server is to be started. The model may be overridden by
/// the surrounding application before use.
#[derive(Debug, PartialEq, Eq)]
pub struct MLCServerConfig {
    pub host: String,
    pub port: u16,
    pub model: Option<String>,
}

impl Default for MLCServerConfig {
    /// The loopback endpoint and the stock model.
    fn default() -> (r: Self)
        ensures
            r.host@ == "127.0.0.1"@,
            r.port == 8000u16,
            r.model matches Some(m) && m@
                == "lmstudio-community/Qwen3-30B-A3B-Instruct-2507-MLX-4bit"@,
    {
        MLCServerConfig {
            host: "127.0.0.1".to_owned(),
            port: 8000,
            model: Some("lmstudio-community/Qwen3-30B-A3B-Instruct-2507-MLX-4bit".to_owned()),
        }
    }
}

} // verus!
