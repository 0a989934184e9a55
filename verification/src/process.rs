//! Outcomes of host processes, as the tool executors see them.

use vstd::prelude::*;

verus! {

/// How a child process ended, as observed by the host within the timeout.
#[derive(Debug, Clone)]
pub enum ProcessOutcome {
    /// The process exited; `code` is absent when a signal ended it.
    Exited { code: Option<i32>, stdout: String, stderr: String },
    /// Waiting on the process failed with this error text.
    WaitFailed(String),
    /// The timeout elapsed first; the process was killed.
    TimedOut,
}

/// The exit code reported for a process: its code, or -1 when it has none.
pub open spec fn exit_code_of(code: Option<i32>) -> i32 {
    match code {
        Some(c) => c,
        None => -1i32,
    }
}

/// A command for the host to run: program, arguments and extra environment.
#[derive(Debug, Clone)]
pub struct CommandPlan {
    pub program: String,
    pub args: Vec<String>,
    pub env: Vec<(String, String)>,
    pub working_dir: Option<String>,
}

} // verus!
