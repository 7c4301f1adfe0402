//! Results handed back to callers of the engine.

use vstd::prelude::*;

use crate::json::JsonValue;

verus! {

/// Metadata describing one MCP tool.
#[derive(Debug, PartialEq, Eq)]
pub struct McpToolInfo {
    pub name: String,
    pub description: Option<String>,
    /// Structured object describing the tool's call arguments, when the
    /// server supplied one.
    pub input_schema: Option<JsonValue>,
}

/// Outcome of one best-effort server check.
#[derive(Debug, PartialEq, Eq)]
pub struct McpCheckResult {
    pub ok: bool,
    pub tools_count: Option<u32>,
    pub tools: Option<Vec<McpToolInfo>>,
    pub warning: Option<String>,
    pub error: Option<String>,
}

} // verus!
