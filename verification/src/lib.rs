//! Client-side engine for the Model Context Protocol (MCP).
//!
//! The crate holds the verified core of an MCP client: the JSON-RPC wire
//! codec, tool-list parsing, shell-safe command construction, the one-shot
//! connectivity probe, and the session manager, all stated over a plain
//! JSON model. Transports (subprocess pipes, HTTP) perform their I/O
//! outside the library and feed results back into the verified state
//! machines.

pub mod config;
pub mod content;
pub mod decimal;
pub mod http;
pub mod json;
pub mod manager;
pub mod mlc_server;
pub mod mlx_server;
pub mod model_download;
pub mod model_store;
pub mod models;
pub mod parsing;
pub mod probe;
pub mod rpc;
pub mod shell;
pub mod types;
