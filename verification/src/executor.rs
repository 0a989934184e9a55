//! Tool execution errors and the no-op executor.

use vstd::prelude::*;

use crate::json::{jobj, jstr, push_entry, Json, JsonV};

verus! {

/// Error returned by a tool executor.
#[derive(Debug, Clone)]
pub struct ToolExecutionError {
    pub message: String,
    pub remediation_hint: Option<String>,
    pub is_retryable: bool,
}

impl ToolExecutionError {
    /// An error with a message, no remediation hint, and not retryable.
    pub fn simple(msg: &str) -> (r: ToolExecutionError)
        ensures
            r.message@ == msg@,
            r.remediation_hint is None,
            !r.is_retryable,
    {
        ToolExecutionError { message: String::from_str(msg), remediation_hint: None, is_retryable: false }
    }

    /// The error as text: its message.
    pub fn to_string(&self) -> (r: String)
        ensures
            r@ == self.message@,
    {
        self.message.clone()
    }
}

/// An error built from an owned message, no hint, not retryable.
pub fn simple_error(msg: String) -> (r: ToolExecutionError)
    ensures
        r.message@ == msg@,
        r.remediation_hint is None,
        !r.is_retryable,
{
    ToolExecutionError { message: msg, remediation_hint: None, is_retryable: false }
}

/// The JSON value `{"result": "ok"}`.
pub open spec fn ok_result() -> JsonV {
    JsonV::Object(seq![("result"@, JsonV::Str("ok"@))])
}

/// Executor that accepts every call and answers `{"result": "ok"}`.
#[derive(Debug, Default)]
pub struct NoOpExecutor;

impl NoOpExecutor {
    pub fn execute(&self, _tool_name: &str, _parameters: &Json) -> (r: Result<Json, ToolExecutionError>)
        ensures
            r matches Ok(v) && v@ == ok_result(),
    {
        let mut entries: Vec<(String, Json)> = Vec::new();
        push_entry(&mut entries, "result", jstr("ok"));
        Ok(jobj(entries))
    }
}

} // verus!
