//! The engine's error type.

use vstd::prelude::*;

use crate::text::{decimal, u64_to_text};
use crate::types::{run_id_text, uuid_text, RunId};

verus! {

/// What can go wrong in the engine. Errors of the storage, serialization
/// and task layers arrive as their message text.
#[derive(Debug)]
pub enum EngineError {
    Sqlite(String),
    Serialization(String),
    Join(String),
    NotFound(String),
    InvalidState(String),
    Http(String),
    LlmApi { status: u16, message: String },
    ToolNotFound(String),
    ValidationFailed { tool_name: String, message: String, remediation_hint: Option<String> },
    ExecutionFailed(String),
    SchemaCompilation(String),
    DepthLimitExceeded { current: u32, limit: u32 },
    Dispatch(String),
    Timeout(RunId),
}

/// The text of an error, as the engine reports it.
pub open spec fn engine_error_text(e: EngineError) -> Seq<char> {
    match e {
        EngineError::Sqlite(m) => "SQLite error: "@ + m@,
        EngineError::Serialization(m) => "Serialization error: "@ + m@,
        EngineError::Join(m) => "Task join error: "@ + m@,
        EngineError::NotFound(m) => "Not found: "@ + m@,
        EngineError::InvalidState(m) => "Invalid state: "@ + m@,
        EngineError::Http(m) => "HTTP error: "@ + m@,
        EngineError::LlmApi { status, message } =>
            "LLM API error (status "@ + decimal(status as nat) + "): "@ + message@,
        EngineError::ToolNotFound(m) => "Tool not found: "@ + m@,
        EngineError::ValidationFailed { tool_name, message, .. } =>
            "Validation failed for tool `"@ + tool_name@ + "`: "@ + message@,
        EngineError::ExecutionFailed(m) => "Execution failed: "@ + m@,
        EngineError::SchemaCompilation(m) => "Schema compilation error: "@ + m@,
        EngineError::DepthLimitExceeded { current, limit } =>
            "Depth limit exceeded: current "@ + decimal(current as nat) + ", limit "@ + decimal(limit as nat),
        EngineError::Dispatch(m) => "Dispatch error: "@ + m@,
        EngineError::Timeout(id) => "Timeout awaiting result for run "@ + uuid_text(id.0),
    }
}

/// `prefix` followed by `rest`.
fn prefixed(prefix: &str, rest: &str) -> (r: String)
    ensures
        r@ == prefix@ + rest@,
{
    String::from_str(prefix).concat(rest)
}

impl EngineError {
    /// The text of the error.
    pub fn to_string(&self) -> (r: String)
        ensures
            r@ == engine_error_text(*self),
    {
        match self {
            EngineError::Sqlite(m) => prefixed("SQLite error: ", m.as_str()),
            EngineError::Serialization(m) => prefixed("Serialization error: ", m.as_str()),
            EngineError::Join(m) => prefixed("Task join error: ", m.as_str()),
            EngineError::NotFound(m) => prefixed("Not found: ", m.as_str()),
            EngineError::InvalidState(m) => prefixed("Invalid state: ", m.as_str()),
            EngineError::Http(m) => prefixed("HTTP error: ", m.as_str()),
            EngineError::LlmApi { status, message } => {
                let n = u64_to_text(*status as u64);
                prefixed("LLM API error (status ", n.as_str()).concat("): ").concat(message.as_str())
            },
            EngineError::ToolNotFound(m) => prefixed("Tool not found: ", m.as_str()),
            EngineError::ValidationFailed { tool_name, message, .. } => {
                prefixed("Validation failed for tool `", tool_name.as_str()).concat("`: ").concat(
                    message.as_str(),
                )
            },
            EngineError::ExecutionFailed(m) => prefixed("Execution failed: ", m.as_str()),
            EngineError::SchemaCompilation(m) => prefixed("Schema compilation error: ", m.as_str()),
            EngineError::DepthLimitExceeded { current, limit } => {
                let c = u64_to_text(*current as u64);
                let l = u64_to_text(*limit as u64);
                prefixed("Depth limit exceeded: current ", c.as_str()).concat(", limit ").concat(
                    l.as_str(),
                )
            },
            EngineError::Dispatch(m) => prefixed("Dispatch error: ", m.as_str()),
            EngineError::Timeout(id) => {
                prefixed("Timeout awaiting result for run ", run_id_text(id).as_str())
            },
        }
    }
}

} // verus!
