//! Subprocess-based tool executor: how a registered tool's program is run,
//! and what its run answers.

use vstd::prelude::*;

use std::time::Duration;

use crate::executor::ToolExecutionError;
use crate::json::{jint, jobj, json_entries_view, json_view, int_v, lemma_entries_view, push_entry, Json, JsonV, opt_string_view};
use crate::process::{exit_code_of, ProcessOutcome};
use crate::text::{signed_decimal, spec_trim, str_eq, trim, i64_to_text};
use crate::time::{duration_from_secs, duration_millis, duration_debug, spec_duration_debug};
use crate::tools::BuiltinExecutor;

verus! {

/// How a tool's parameters reach its program.
#[derive(Debug, Clone, Copy, PartialEq, Eq, Structural)]
pub enum ParamPassing {
    JsonArg,
    Stdin,
    CliFlags,
}

/// How a registered tool is run: its program, fixed arguments, parameter
/// passing, optional timeout, working directory and extra environment.
#[derive(Debug, Clone)]
pub struct ToolCommandSpec {
    pub program: String,
    pub args: Vec<String>,
    pub param_passing: ParamPassing,
    pub timeout: Option<Duration>,
    pub working_dir: Option<String>,
    pub env: Vec<(String, String)>,
}

/// Settings shared by all subprocess tools.
#[derive(Debug, Clone)]
pub struct SubprocessExecutorConfig {
    pub default_timeout: Duration,
    pub retryable_exit_codes: Vec<i32>,
    pub max_output_bytes: usize,
}

impl SubprocessExecutorConfig {
    /// Defaults: a 30 second timeout, exit codes 69 and 75 retryable, and at
    /// most 1 MiB kept of each output stream.
    pub fn default() -> (r: SubprocessExecutorConfig)
        ensures
            duration_millis(r.default_timeout) == 30_000,
            r.retryable_exit_codes@ == seq![69i32, 75i32],
            r.max_output_bytes == 1024 * 1024,
    {
        let mut codes: Vec<i32> = Vec::new();
        codes.push(69);
        codes.push(75);
        assert(codes@ =~= seq![69i32, 75i32]);
        SubprocessExecutorConfig {
            default_timeout: duration_from_secs(30),
            retryable_exit_codes: codes,
            max_output_bytes: 1024 * 1024,
        }
    }
}

/// A piece of a command line: literal text, or a JSON value written out as
/// JSON text by the host.
#[derive(Debug)]
pub enum ArgPiece {
    Text(String),
    JsonText(Json),
}

/// The mathematical form of an argument piece.
pub enum ArgPieceV {
    Text(Seq<char>),
    JsonText(JsonV),
}

pub open spec fn piece_v(p: ArgPiece) -> ArgPieceV {
    match p {
        ArgPiece::Text(s) => ArgPieceV::Text(s@),
        ArgPiece::JsonText(j) => ArgPieceV::JsonText(j@),
    }
}

pub open spec fn pieces_v(s: Seq<ArgPiece>) -> Seq<ArgPieceV> {
    s.map_values(|p: ArgPiece| piece_v(p))
}

proof fn lemma_pieces_push(s: Seq<ArgPiece>, x: ArgPiece)
    ensures
        pieces_v(s.push(x)) == pieces_v(s).push(piece_v(x)),
{
    assert(pieces_v(s.push(x)) =~= pieces_v(s).push(piece_v(x)));
}

proof fn lemma_env_push(s: Seq<(String, String)>, x: (String, String))
    ensures
        env_v(s.push(x)) == env_v(s).push((x.0@, x.1@)),
{
    assert(env_v(s.push(x)) =~= env_v(s).push((x.0@, x.1@)));
}

/// The flags that pass an object's entries: `--key` then the value, strings
/// as they are and other values as JSON text.
pub open spec fn cli_flag_pieces(es: Seq<(Seq<char>, JsonV)>) -> Seq<ArgPieceV>
    decreases es.len(),
{
    if es.len() == 0 {
        Seq::empty()
    } else {
        let (k, v) = es.last();
        cli_flag_pieces(es.drop_last()) + seq![
            ArgPieceV::Text("--"@ + k),
            match v {
                JsonV::Str(s) => ArgPieceV::Text(s),
                _ => ArgPieceV::JsonText(v),
            },
        ]
    }
}

/// The arguments that carry the parameters, after the fixed ones.
pub open spec fn param_pieces(mode: ParamPassing, params: JsonV) -> Seq<ArgPieceV> {
    match mode {
        ParamPassing::JsonArg => seq![ArgPieceV::JsonText(params)],
        ParamPassing::Stdin => Seq::empty(),
        ParamPassing::CliFlags => match params {
            JsonV::Object(es) => cli_flag_pieces(es),
            _ => Seq::empty(),
        },
    }
}

/// What the host runs for one call of a subprocess tool.
#[derive(Debug)]
pub struct SubprocessPlan {
    pub program: String,
    pub args: Vec<ArgPiece>,
    /// The value written as JSON text to the program's standard input, if any.
    pub stdin: Option<Json>,
    pub env: Vec<(String, String)>,
    pub working_dir: Option<String>,
    pub timeout: Duration,
    pub max_output_bytes: usize,
}

/// The spec registered under `name`: the first one with that name.
pub open spec fn lookup_command(cmds: Seq<(String, ToolCommandSpec)>, name: Seq<char>) -> Option<ToolCommandSpec>
    decreases cmds.len(),
{
    if cmds.len() == 0 {
        None
    } else if cmds[0].0@ == name {
        Some(cmds[0].1)
    } else {
        lookup_command(cmds.drop_first(), name)
    }
}

/// The views of a list of environment pairs.
pub open spec fn env_v(e: Seq<(String, String)>) -> Seq<(Seq<char>, Seq<char>)> {
    e.map_values(|p: (String, String)| (p.0@, p.1@))
}

/// No two registered commands share a tool name.
pub open spec fn command_names_distinct(cmds: Seq<(String, ToolCommandSpec)>) -> bool {
    forall|i: int, j: int| 0 <= i < j < cmds.len() ==> (#[trigger] cmds[i]).0@ != (#[trigger] cmds[j]).0@
}

/// With distinct names, the spec found under a registered name is the one
/// registered under it.
pub proof fn lemma_lookup_registered(cmds: Seq<(String, ToolCommandSpec)>, i: int)
    requires
        command_names_distinct(cmds),
        0 <= i < cmds.len(),
    ensures
        lookup_command(cmds, cmds[i].0@) == Some(cmds[i].1),
    decreases i,
{
    if i > 0 {
        assert(cmds[0].0@ != cmds[i].0@);
        let rest = cmds.drop_first();
        assert(rest[i - 1] == cmds[i]);
        assert forall|a: int, b: int| 0 <= a < b < rest.len() implies (#[trigger] rest[a]).0@ != (#[trigger] rest[b]).0@ by {
            assert(rest[a] == cmds[a + 1]);
            assert(rest[b] == cmds[b + 1]);
        }
        lemma_lookup_registered(rest, i - 1);
    }
}

/// Runs registered programs as tools.
pub struct SubprocessExecutor {
    pub config: SubprocessExecutorConfig,
    pub commands: Vec<(String, ToolCommandSpec)>,
}

impl SubprocessExecutor {
    /// The executor's invariant: each tool name is registered once.
    pub open spec fn wf(&self) -> bool {
        command_names_distinct(self.commands@)
    }

    /// An executor for the commands registered by tool name, each name
    /// once (they come from a map).
    pub fn new(config: SubprocessExecutorConfig, commands: Vec<(String, ToolCommandSpec)>) -> (r: SubprocessExecutor)
        requires
            command_names_distinct(commands@),
        ensures
            r.config == config,
            r.commands == commands,
            r.wf(),
    {
        SubprocessExecutor { config, commands }
    }

    /// The spec registered for `tool_name`, if any.
    pub fn find_command(&self, tool_name: &str) -> (r: Option<&ToolCommandSpec>)
        ensures
            match r {
                Some(s) => lookup_command(self.commands@, tool_name@) == Some(*s),
                None => lookup_command(self.commands@, tool_name@) is None,
            },
    {
        let ghost cs = self.commands@;
        assert(cs.subrange(0, cs.len() as int) =~= cs);
        let mut i: usize = 0;
        while i < self.commands.len()
            invariant
                i <= self.commands.len(),
                cs == self.commands@,
                lookup_command(cs, tool_name@) == lookup_command(cs.subrange(i as int, cs.len() as int), tool_name@),
            decreases self.commands.len() - i,
        {
            let ghost rest = cs.subrange(i as int, cs.len() as int);
            assert(rest[0] == cs[i as int]);
            if str_eq(self.commands[i].0.as_str(), tool_name) {
                return Some(&self.commands[i].1);
            }
            assert(rest.drop_first() =~= cs.subrange(i + 1, cs.len() as int));
            i = i + 1;
        }
        None
    }

    /// Plans the run of `tool_name` with `parameters`: the program, its fixed
    /// arguments followed by the parameter arguments, the standard input, the
    /// environment (STRATUM_TRUST=autonomous, then the spec's), the working
    /// directory and the timeout (the spec's, else the default).
    pub fn plan(&self, tool_name: &str, parameters: &Json) -> (r: Result<SubprocessPlan, ToolExecutionError>)
        ensures
            match lookup_command(self.commands@, tool_name@) {
                None => r matches Err(e)
                    && e.message@ == "no command spec registered for tool `"@ + tool_name@ + "`"@
                    && opt_string_view(e.remediation_hint) == Some("register a ToolCommandSpec for this tool"@)
                    && !e.is_retryable,
                Some(spec) => r matches Ok(p) && {
                    &&& p.program@ == spec.program@
                    &&& pieces_v(p.args@) == spec.args@.map_values(|a: String| ArgPieceV::Text(a@))
                        + param_pieces(spec.param_passing, parameters@)
                    &&& (if spec.param_passing == ParamPassing::Stdin {
                        p.stdin matches Some(j) && j@ == parameters@
                    } else {
                        p.stdin is None
                    })
                    &&& env_v(p.env@) == seq![("STRATUM_TRUST"@, "autonomous"@)] + env_v(spec.env@)
                    &&& opt_string_view(p.working_dir) == opt_string_view(spec.working_dir)
                    &&& p.timeout == (match spec.timeout { Some(t) => t, None => self.config.default_timeout })
                    &&& p.max_output_bytes == self.config.max_output_bytes
                },
            },
    {
        let spec = match self.find_command(tool_name) {
            Some(s) => s,
            None => {
                let mut msg = String::from_str("no command spec registered for tool `");
                msg.append(tool_name);
                msg.append("`");
                return Err(ToolExecutionError {
                    message: msg,
                    remediation_hint: Some(String::from_str("register a ToolCommandSpec for this tool")),
                    is_retryable: false,
                });
            },
        };
        let timeout = match spec.timeout {
            Some(t) => t,
            None => self.config.default_timeout,
        };

        let mut args: Vec<ArgPiece> = Vec::new();
        let mut i: usize = 0;
        while i < spec.args.len()
            invariant
                i <= spec.args.len(),
                pieces_v(args@) == spec.args@.take(i as int).map_values(|a: String| ArgPieceV::Text(a@)),
            decreases spec.args.len() - i,
        {
            let a = ArgPiece::Text(spec.args[i].clone());
            proof {
                lemma_pieces_push(args@, a);
                assert(spec.args@.take(i + 1).map_values(|a: String| ArgPieceV::Text(a@)) =~= spec.args@.take(
                    i as int,
                ).map_values(|a: String| ArgPieceV::Text(a@)).push(ArgPieceV::Text(spec.args@[i as int]@)));
            }
            args.push(a);
            i = i + 1;
        }
        assert(spec.args@.take(spec.args.len() as int) =~= spec.args@);
        let ghost fixed = pieces_v(args@);

        let mut stdin: Option<Json> = None;
        match spec.param_passing {
            ParamPassing::JsonArg => {
                args.push(ArgPiece::JsonText(parameters.deep_clone()));
                assert(pieces_v(args@) =~= fixed + param_pieces(spec.param_passing, parameters@));
            },
            ParamPassing::Stdin => {
                stdin = Some(parameters.deep_clone());
                assert(pieces_v(args@) =~= fixed + param_pieces(spec.param_passing, parameters@));
            },
            ParamPassing::CliFlags => {
                match parameters {
                    Json::Object(entries) => {
                        proof {
                            lemma_entries_view(entries@);
                        }
                        let ghost es = json_entries_view(entries@);
                        let mut k: usize = 0;
                        while k < entries.len()
                            invariant
                                k <= entries.len(),
                                es == json_entries_view(entries@),
                                es.len() == entries.len(),
                                forall|m: int| 0 <= m < entries.len() ==> #[trigger] es[m] == (entries@[m].0@, json_view(entries@[m].1)),
                                pieces_v(args@) == fixed + cli_flag_pieces(es.take(k as int)),
                            decreases entries.len() - k,
                        {
                            let mut flag = String::from_str("--");
                            flag.append(entries[k].0.as_str());
                            let f = ArgPiece::Text(flag);
                            proof {
                                lemma_pieces_push(args@, f);
                            }
                            args.push(f);
                            let piece = match &entries[k].1 {
                                Json::Str(s) => ArgPiece::Text(s.clone()),
                                other => ArgPiece::JsonText(other.deep_clone()),
                            };
                            proof {
                                lemma_pieces_push(args@, piece);
                                assert(es.take(k + 1).last() == es[k as int]);
                            }
                            args.push(piece);
                            assert(es.take(k + 1).drop_last() =~= es.take(k as int));
                            assert(pieces_v(args@) =~= fixed + cli_flag_pieces(es.take(k + 1)));
                            k = k + 1;
                        }
                        assert(es.take(entries.len() as int) =~= es);
                        assert(parameters@ == JsonV::Object(es));
                    },
                    _ => {
                        assert(pieces_v(args@) =~= fixed + param_pieces(spec.param_passing, parameters@));
                    },
                }
            },
        }

        let mut env: Vec<(String, String)> = Vec::new();
        env.push((String::from_str("STRATUM_TRUST"), String::from_str("autonomous")));
        let mut j: usize = 0;
        while j < spec.env.len()
            invariant
                j <= spec.env.len(),
                env_v(env@) == seq![("STRATUM_TRUST"@, "autonomous"@)] + env_v(spec.env@.take(j as int)),
            decreases spec.env.len() - j,
        {
            let pair = (spec.env[j].0.clone(), spec.env[j].1.clone());
            proof {
                lemma_env_push(env@, pair);
                assert(spec.env@.take(j + 1) =~= spec.env@.take(j as int).push(spec.env@[j as int]));
                lemma_env_push(spec.env@.take(j as int), spec.env@[j as int]);
            }
            env.push(pair);
            assert(env_v(env@) =~= seq![("STRATUM_TRUST"@, "autonomous"@)] + env_v(spec.env@.take(j + 1)));
            j = j + 1;
        }
        assert(spec.env@.take(spec.env.len() as int) =~= spec.env@);

        let working_dir = match &spec.working_dir {
            Some(d) => Some(d.clone()),
            None => None,
        };
        Ok(SubprocessPlan {
            program: spec.program.clone(),
            args,
            stdin,
            env,
            working_dir,
            timeout,
            max_output_bytes: self.config.max_output_bytes,
        })
    }
}


/// The answer of a program that exited with code 0: its standard output when
/// that output is JSON, else its outputs and exit code.
pub open spec fn output_v(stdout: Seq<char>, stderr: Seq<char>, exit_code: i32, parsed: Option<JsonV>) -> JsonV {
    match parsed {
        Some(j) => j,
        None => JsonV::Object(seq![
            ("stdout"@, JsonV::Str(stdout)),
            ("stderr"@, JsonV::Str(stderr)),
            ("exit_code"@, int_v(exit_code as i64)),
        ]),
    }
}

/// The text an error quotes from a failed program: its standard error,
/// trimmed, or its standard output, trimmed, when standard error is empty.
pub open spec fn failure_detail(stdout: Seq<char>, stderr: Seq<char>) -> Seq<char> {
    if stderr.len() == 0 {
        spec_trim(stdout)
    } else {
        spec_trim(stderr)
    }
}

impl SubprocessExecutor {
    /// The answer of a run that exited with code 0. `stdout_json` is the
    /// standard output read as JSON, when it is JSON.
    pub fn parse_output(stdout: &str, stderr: &str, exit_code: i32, stdout_json: Option<Json>) -> (r: Json)
        ensures
            r@ == output_v(stdout@, stderr@, exit_code, match stdout_json { Some(j) => Some(j@), None => None }),
    {
        match stdout_json {
            Some(j) => j,
            None => {
                let mut e: Vec<(String, Json)> = Vec::new();
                push_entry(&mut e, "stdout", Json::Str(String::from_str(stdout)));
                push_entry(&mut e, "stderr", Json::Str(String::from_str(stderr)));
                push_entry(&mut e, "exit_code", jint(exit_code as i64));
                assert(json_entries_view(e@) =~= output_v(stdout@, stderr@, exit_code, None)->Object_0);
                jobj(e)
            },
        }
    }

    /// The error answered when the program cannot be started.
    pub fn spawn_error(program: &str, detail: &str) -> (r: ToolExecutionError)
        ensures
            r.message@ == "failed to spawn `"@ + program@ + "`: "@ + detail@,
            opt_string_view(r.remediation_hint) == Some("check that the program exists and is executable"@),
            !r.is_retryable,
    {
        let mut msg = String::from_str("failed to spawn `");
        msg.append(program);
        msg.append("`: ");
        msg.append(detail);
        ToolExecutionError {
            message: msg,
            remediation_hint: Some(String::from_str("check that the program exists and is executable")),
            is_retryable: false,
        }
    }

    /// Whether an exit code is one the configuration marks retryable.
    pub fn is_retryable_code(&self, code: i32) -> (r: bool)
        ensures
            r == self.config.retryable_exit_codes@.contains(code),
    {
        let mut i: usize = 0;
        while i < self.config.retryable_exit_codes.len()
            invariant
                i <= self.config.retryable_exit_codes.len(),
                forall|k: int| 0 <= k < i ==> self.config.retryable_exit_codes@[k] != code,
            decreases self.config.retryable_exit_codes.len() - i,
        {
            if self.config.retryable_exit_codes[i] == code {
                return true;
            }
            i = i + 1;
        }
        false
    }

    /// Turns the outcome of a run of `tool_name` into the tool's answer. Exit
    /// code 0 succeeds; another code fails, retryably when the configuration
    /// lists it; a timeout fails retryably.
    pub fn finish(&self, tool_name: &str, timeout: &Duration, outcome: ProcessOutcome, stdout_json: Option<Json>) -> (r: Result<Json, ToolExecutionError>)
        ensures
            match outcome {
                ProcessOutcome::Exited { code, stdout, stderr } => if exit_code_of(code) == 0 {
                    r matches Ok(v) && v@ == output_v(stdout@, stderr@, 0, match stdout_json { Some(j) => Some(j@), None => None })
                } else {
                    r matches Err(e)
                        && e.message@ == "process exited with code "@ + signed_decimal(exit_code_of(code) as int) + ": "@
                            + failure_detail(stdout@, stderr@)
                        && e.remediation_hint is None
                        && e.is_retryable == self.config.retryable_exit_codes@.contains(exit_code_of(code))
                },
                ProcessOutcome::WaitFailed(d) => r matches Err(e) && e.message@ == "failed to wait on child process: "@ + d@
                    && e.remediation_hint is None && !e.is_retryable,
                ProcessOutcome::TimedOut => r matches Err(e)
                    && e.message@ == "tool `"@ + tool_name@ + "` timed out after "@ + spec_duration_debug(*timeout)
                    && opt_string_view(e.remediation_hint) == Some("increase timeout or optimize the tool"@)
                    && e.is_retryable,
            },
    {
        match outcome {
            ProcessOutcome::Exited { code, stdout, stderr } => {
                let exit_code: i32 = match code {
                    Some(c) => c,
                    None => -1,
                };
                if exit_code == 0 {
                    Ok(Self::parse_output(stdout.as_str(), stderr.as_str(), exit_code, stdout_json))
                } else {
                    let retryable = self.is_retryable_code(exit_code);
                    let detail = if stderr.as_str().is_empty() {
                        trim(stdout.as_str())
                    } else {
                        trim(stderr.as_str())
                    };
                    let mut msg = String::from_str("process exited with code ");
                    let c = i64_to_text(exit_code as i64);
                    msg.append(c.as_str());
                    msg.append(": ");
                    msg.append(detail.as_str());
                    Err(ToolExecutionError { message: msg, remediation_hint: None, is_retryable: retryable })
                }
            },
            ProcessOutcome::WaitFailed(d) => {
                let mut msg = String::from_str("failed to wait on child process: ");
                msg.append(d.as_str());
                Err(ToolExecutionError { message: msg, remediation_hint: None, is_retryable: false })
            },
            ProcessOutcome::TimedOut => {
                let mut msg = String::from_str("tool `");
                msg.append(tool_name);
                msg.append("` timed out after ");
                let t = duration_debug(timeout);
                msg.append(t.as_str());
                Err(ToolExecutionError {
                    message: msg,
                    remediation_hint: Some(String::from_str("increase timeout or optimize the tool")),
                    is_retryable: true,
                })
            },
        }
    }
}

/// Routes calls between the built-in executor and the subprocess executor.
pub struct CompositeExecutor {
    pub builtin: BuiltinExecutor,
    pub subprocess: SubprocessExecutor,
}

impl CompositeExecutor {
    pub fn new(builtin: BuiltinExecutor, subprocess: SubprocessExecutor) -> (r: CompositeExecutor)
        ensures
            r.builtin == builtin,
            r.subprocess == subprocess,
    {
        CompositeExecutor { builtin, subprocess }
    }

    /// Whether a call of `tool_name` goes to the built-in executor; every
    /// other call goes to the subprocess executor.
    pub fn routes_to_builtin(&self, tool_name: &str) -> (r: bool)
        ensures
            r == crate::tools::builtin_names().contains(tool_name@),
    {
        self.builtin.handles(tool_name)
    }
}

} // verus!
