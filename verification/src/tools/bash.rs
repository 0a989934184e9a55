//! Bash tool: what to run, and what the run answers.
//!
//! The shell runs on the host; this module reads the parameters, plans the
//! command and turns the process outcome into the tool's answer.

use vstd::prelude::*;

use crate::executor::ToolExecutionError;
use crate::json::{jint, jobj, json_entries_view, int_v, push_entry, Json, JsonV, opt_string_view};
use crate::process::{exit_code_of, CommandPlan, ProcessOutcome};
use crate::text::{decimal, u64_to_text};

verus! {

/// Milliseconds a command may run when the call names no timeout.
pub const DEFAULT_TIMEOUT_MS: u64 = 30_000;

/// At most this many bytes of each output stream are kept.
pub const MAX_OUTPUT_BYTES: usize = 1024 * 1024;

/// A validated bash call.
#[derive(Debug, Clone)]
pub struct BashRequest {
    pub command: String,
    pub working_dir: Option<String>,
    pub timeout_ms: u64,
}

/// Reads the parameters of a bash call: a command, an optional working
/// directory, and a timeout in milliseconds (30000 when absent).
pub fn bash_request(parameters: &Json) -> (r: Result<BashRequest, ToolExecutionError>)
    ensures
        match r {
            Ok(q) => {
                &&& parameters@.get_str("command"@) == Some(q.command@)
                &&& opt_string_view(q.working_dir) == parameters@.get_str("working_dir"@)
                &&& q.timeout_ms == (match parameters@.get_u64("timeout_ms"@) { Some(t) => t, None => DEFAULT_TIMEOUT_MS })
            },
            Err(e) => {
                &&& parameters@.get_str("command"@) is None
                &&& e.message@ == "missing required parameter: command"@
                &&& opt_string_view(e.remediation_hint) == Some("provide a 'command' string"@)
                &&& !e.is_retryable
            },
        },
{
    let command = match parameters.get_str("command") {
        Some(c) => String::from_str(c),
        None => return Err(ToolExecutionError {
            message: String::from_str("missing required parameter: command"),
            remediation_hint: Some(String::from_str("provide a 'command' string")),
            is_retryable: false,
        }),
    };
    let working_dir = match parameters.get_str("working_dir") {
        Some(d) => Some(String::from_str(d)),
        None => None,
    };
    let timeout_ms = match parameters.get_u64("timeout_ms") {
        Some(t) => t,
        None => DEFAULT_TIMEOUT_MS,
    };
    Ok(BashRequest { command, working_dir, timeout_ms })
}

/// The command a bash call runs: `sh -c <command>` with STRATUM_TRUST=autonomous.
pub fn bash_command(req: &BashRequest) -> (r: CommandPlan)
    ensures
        r.program@ == "sh"@,
        r.args.len() == 2,
        r.args[0]@ == "-c"@,
        r.args[1]@ == req.command@,
        r.env.len() == 1,
        r.env[0].0@ == "STRATUM_TRUST"@,
        r.env[0].1@ == "autonomous"@,
        opt_string_view(r.working_dir) == opt_string_view(req.working_dir),
{
    let mut args: Vec<String> = Vec::new();
    args.push(String::from_str("-c"));
    args.push(req.command.clone());
    let mut env: Vec<(String, String)> = Vec::new();
    env.push((String::from_str("STRATUM_TRUST"), String::from_str("autonomous")));
    let working_dir = match &req.working_dir {
        Some(d) => Some(d.clone()),
        None => None,
    };
    CommandPlan { program: String::from_str("sh"), args, env, working_dir }
}

/// The error answered when the shell cannot be started.
pub fn bash_spawn_error(detail: &str) -> (r: ToolExecutionError)
    ensures
        r.message@ == "failed to spawn shell: "@ + detail@,
        opt_string_view(r.remediation_hint) == Some("check that /bin/sh is available"@),
        !r.is_retryable,
{
    let mut msg = String::from_str("failed to spawn shell: ");
    msg.append(detail);
    ToolExecutionError {
        message: msg,
        remediation_hint: Some(String::from_str("check that /bin/sh is available")),
        is_retryable: false,
    }
}

/// The answer of a bash call that ran to the end: its outputs and exit code.
pub open spec fn bash_output_v(stdout: Seq<char>, stderr: Seq<char>, code: Option<i32>) -> JsonV {
    JsonV::Object(seq![
        ("stdout"@, JsonV::Str(stdout)),
        ("stderr"@, JsonV::Str(stderr)),
        ("exit_code"@, int_v(exit_code_of(code) as i64)),
    ])
}

/// Turns the outcome of the shell process into the tool's answer. A command
/// that exits with any code succeeds; a timeout is a retryable error.
pub fn bash_finish(req: &BashRequest, outcome: ProcessOutcome) -> (r: Result<Json, ToolExecutionError>)
    ensures
        match outcome {
            ProcessOutcome::Exited { code, stdout, stderr } => r matches Ok(v) && v@ == bash_output_v(stdout@, stderr@, code),
            ProcessOutcome::WaitFailed(e) => r matches Err(err) && err.message@ == "failed to wait on child process: "@ + e@
                && err.remediation_hint is None && !err.is_retryable,
            ProcessOutcome::TimedOut => r matches Err(err)
                && err.message@ == "bash command timed out after "@ + decimal(req.timeout_ms as nat) + "ms"@
                && opt_string_view(err.remediation_hint) == Some("increase timeout_ms or simplify the command"@)
                && err.is_retryable,
        },
{
    match outcome {
        ProcessOutcome::Exited { code, stdout, stderr } => {
            let exit_code: i32 = match code {
                Some(c) => c,
                None => -1,
            };
            let ghost so = stdout@;
            let ghost se = stderr@;
            let mut e: Vec<(String, Json)> = Vec::new();
            push_entry(&mut e, "stdout", Json::Str(stdout));
            push_entry(&mut e, "stderr", Json::Str(stderr));
            push_entry(&mut e, "exit_code", jint(exit_code as i64));
            assert(json_entries_view(e@) =~= bash_output_v(so, se, code)->Object_0);
            Ok(jobj(e))
        },
        ProcessOutcome::WaitFailed(detail) => {
            let mut msg = String::from_str("failed to wait on child process: ");
            msg.append(detail.as_str());
            Err(ToolExecutionError { message: msg, remediation_hint: None, is_retryable: false })
        },
        ProcessOutcome::TimedOut => {
            let mut msg = String::from_str("bash command timed out after ");
            let t = u64_to_text(req.timeout_ms);
            msg.append(t.as_str());
            msg.append("ms");
            Err(ToolExecutionError {
                message: msg,
                remediation_hint: Some(String::from_str("increase timeout_ms or simplify the command")),
                is_retryable: true,
            })
        },
    }
}

} // verus!
