//! The tool gateway: every tool call passes intercept (is the tool
//! registered?), validate (do the parameters fit its schema?) and execute
//! (with retries for retryable failures).
//!
//! The host runs the executor and keeps the clock: it asks [`DefaultToolGateway::begin`]
//! for the first step, runs each `Execute` step (after its delay), and hands
//! the outcome to [`DefaultToolGateway::after_attempt`], until a `Finish`.

use vstd::prelude::*;

use std::time::Duration;

use crate::executor::ToolExecutionError;
use crate::json::{jobj, jstr, push_entry, Json, JsonV};
use crate::json_text::json_text;
use crate::registry::{has_tool, schema_validation_error, PersistentToolRegistry};
use crate::text::{decimal, u64_to_text};
use crate::time::{duration_from_millis, duration_from_secs, duration_millis};
use crate::types::RunId;
use crate::util::{backoff_cap, retry_delay};

verus! {

/// How a tool call ended.
#[derive(Debug, Clone, Copy, PartialEq, Eq, Structural)]
pub enum ToolResultStatus {
    Success,
    ValidationFailure,
    ExecutionError,
}

/// The answer to a tool call.
#[derive(Debug)]
pub struct ToolResult {
    pub tool_name: String,
    pub status: ToolResultStatus,
    pub output: Json,
    pub remediation_hint: Option<String>,
    pub latency_ms: u64,
}

/// A tool call the model made.
#[derive(Debug)]
pub struct ToolInvocation {
    pub tool_name: String,
    pub parameters: Json,
    pub run_id: RunId,
}

/// Whether parameters are checked, and how executions are retried.
#[derive(Debug, Clone)]
pub struct ToolGatewayConfig {
    pub validate_schema: bool,
    pub max_retries: u32,
    pub retry_base_delay: Duration,
    pub retry_max_delay: Duration,
}

impl ToolGatewayConfig {
    /// Validation on, three retries from 100 ms up to at most 5 s.
    pub fn default() -> (r: ToolGatewayConfig)
        ensures
            r.validate_schema,
            r.max_retries == 3,
            duration_millis(r.retry_base_delay) == 100,
            duration_millis(r.retry_max_delay) == 5_000,
    {
        ToolGatewayConfig {
            validate_schema: true,
            max_retries: 3,
            retry_base_delay: duration_from_millis(100),
            retry_max_delay: duration_from_secs(5),
        }
    }
}

/// The delay before retry number `attempt` (counted from zero).
pub fn delay_for_attempt(config: &ToolGatewayConfig, attempt: u32) -> (d: Duration)
    ensures
        duration_millis(d) <= backoff_cap(
            duration_millis(config.retry_base_delay) as u64,
            duration_millis(config.retry_max_delay) as u64,
            attempt,
        ),
        duration_millis(config.retry_max_delay) <= u64::MAX ==> duration_millis(d) <= duration_millis(
            config.retry_max_delay,
        ),
{
    retry_delay(config.retry_base_delay, config.retry_max_delay, attempt)
}

/// The JSON object `{"error": message}`.
pub open spec fn error_output(message: Seq<char>) -> JsonV {
    JsonV::Object(seq![("error"@, JsonV::Str(message))])
}

fn error_json(message: &str) -> (r: Json)
    ensures
        r@ == error_output(message@),
{
    let mut entries: Vec<(String, Json)> = Vec::new();
    push_entry(&mut entries, "error", jstr(message));
    proof {
        crate::json::lemma_entries_view(entries@);
    }
    let r = jobj(entries);
    assert(r@ == error_output(message@));
    r
}

/// The next step of a tool call.
#[derive(Debug)]
pub enum GatewayStep {
    /// The call is answered.
    Finish(ToolResult),
    /// Run the executor (attempt number `attempt`, from zero), after
    /// waiting `delay` where there is one.
    Execute { attempt: u32, delay: Option<Duration> },
}

/// The message for an unknown tool.
pub open spec fn not_found_message(name: Seq<char>) -> Seq<char> {
    "tool `"@ + name + "` not found"@
}

/// The text of a validation failure.
pub open spec fn validation_text(name: Seq<char>, message: Seq<char>) -> Seq<char> {
    "Validation failed for tool `"@ + name + "`: "@ + message
}

/// The hint after a validation failure.
pub open spec fn schema_hint(name: Seq<char>) -> Seq<char> {
    "check parameter schema for `"@ + name + "`"@
}

/// The message once every attempt failed.
pub open spec fn exhausted_message(max_retries: u32, last: Seq<char>) -> Seq<char> {
    "retries exhausted after "@ + decimal(max_retries as nat) + " attempts: "@ + last
}

/// The gateway: its settings. Calls are checked against a registry that
/// the caller shares with the gateway.
#[derive(Debug)]
pub struct DefaultToolGateway {
    config: ToolGatewayConfig,
}

impl DefaultToolGateway {
    pub closed spec fn spec_config(&self) -> ToolGatewayConfig {
        self.config
    }

    /// A gateway with these settings.
    pub fn new(config: ToolGatewayConfig) -> (r: DefaultToolGateway)
        ensures
            r.spec_config() == config,
    {
        DefaultToolGateway { config }
    }

    /// The settings.
    pub fn config(&self) -> (r: &ToolGatewayConfig)
        ensures
            *r == self.spec_config(),
    {
        &self.config
    }

    /// Intercept and validate: an unknown tool is answered with an
    /// execution error; parameters that do not fit the schema (when
    /// validation is on) with a validation failure carrying the error's
    /// text; otherwise the first execution follows, without delay.
    /// `latency_ms` is the time spent on the call so far.
    pub fn begin(&self, registry: &PersistentToolRegistry, invocation: &ToolInvocation, latency_ms: u64) -> (r: GatewayStep)
        requires
            registry.wf(),
        ensures
            !has_tool(registry@, invocation.tool_name@) ==> (r matches GatewayStep::Finish(res)
                && res.tool_name@ == invocation.tool_name@
                && res.status == ToolResultStatus::ExecutionError
                && res.output@ == error_output(not_found_message(invocation.tool_name@))
                && (res.remediation_hint matches Some(h) && h@ == "check the tool name and try again"@)
                && res.latency_ms == latency_ms),
            has_tool(registry@, invocation.tool_name@) && !self.spec_config().validate_schema
                ==> r == (GatewayStep::Execute { attempt: 0, delay: None }),
            has_tool(registry@, invocation.tool_name@) && self.spec_config().validate_schema
                ==> exists|i: int|
                0 <= i < registry@.len() && (#[trigger] registry@[i]).name
                    == invocation.tool_name@ && match schema_validation_error(
                    json_text(registry.entries()[i].schema),
                    json_text(invocation.parameters),
                ) {
                    None => r == (GatewayStep::Execute { attempt: 0, delay: None }),
                    Some(m) => (r matches GatewayStep::Finish(res) && res.tool_name@ == invocation.tool_name@
                        && res.status == ToolResultStatus::ValidationFailure
                        && res.output@ == error_output(validation_text(invocation.tool_name@, m))
                        && (res.remediation_hint matches Some(h) && h@ == schema_hint(invocation.tool_name@))
                        && res.latency_ms == latency_ms),
                },
    {
        let name = invocation.tool_name.as_str();
        let def = match registry.get_tool_owned(name) {
            Some(d) => d,
            None => {
                let msg = String::from_str("tool `").concat(name).concat("` not found");
                return GatewayStep::Finish(
                    ToolResult {
                        tool_name: String::from_str(name),
                        status: ToolResultStatus::ExecutionError,
                        output: error_json(msg.as_str()),
                        remediation_hint: Some(String::from_str("check the tool name and try again")),
                        latency_ms,
                    },
                );
            },
        };
        if self.config.validate_schema {
            match registry.validate_params(name, &invocation.parameters) {
                Err(e) => {
                    let message = e.to_string();
                    let hint = String::from_str("check parameter schema for `").concat(
                        def.name.as_str(),
                    ).concat("`");
                    return GatewayStep::Finish(
                        ToolResult {
                            tool_name: String::from_str(name),
                            status: ToolResultStatus::ValidationFailure,
                            output: error_json(message.as_str()),
                            remediation_hint: Some(hint),
                            latency_ms,
                        },
                    );
                },
                Ok(()) => {},
            }
        }
        GatewayStep::Execute { attempt: 0, delay: None }
    }

    /// After execution attempt `attempt`: success answers with the output;
    /// an error that is not retryable answers with its message and hint; a
    /// retryable one runs the next attempt after the backoff delay while
    /// attempts are left (at most `max_retries` retries), and otherwise
    /// answers that the retries are exhausted.
    pub fn after_attempt(
        &self,
        tool_name: &str,
        attempt: u32,
        outcome: Result<Json, ToolExecutionError>,
        latency_ms: u64,
    ) -> (r: GatewayStep)
        ensures
            r matches GatewayStep::Execute { attempt: next, delay } ==> next == attempt + 1 && attempt
                < self.spec_config().max_retries && delay is Some,
            r matches GatewayStep::Finish(res) ==> res.tool_name@ == tool_name@ && res.latency_ms == latency_ms,
            outcome matches Ok(v) ==> (r matches GatewayStep::Finish(res) && res.status == ToolResultStatus::Success
                && res.output@ == v@ && res.remediation_hint is None),
            outcome matches Err(e) ==> !e.is_retryable ==> (r matches GatewayStep::Finish(res)
                && res.status == ToolResultStatus::ExecutionError && res.output@ == error_output(e.message@)
                && res.remediation_hint == e.remediation_hint),
            outcome matches Err(e) ==> e.is_retryable ==> attempt < self.spec_config().max_retries ==> (
                r matches GatewayStep::Execute { attempt: next, delay } && next == attempt + 1),
            outcome matches Err(e) ==> e.is_retryable ==> attempt >= self.spec_config().max_retries ==> (
                r matches GatewayStep::Finish(res) && res.status == ToolResultStatus::ExecutionError
                && res.output@ == error_output(exhausted_message(self.spec_config().max_retries, e.message@))
                && (res.remediation_hint matches Some(h)
                && h@ == "the tool failed repeatedly; check logs and retry later"@)),
            r matches GatewayStep::Execute { delay: Some(d), .. } ==> duration_millis(d) <= backoff_cap(
                duration_millis(self.spec_config().retry_base_delay) as u64,
                duration_millis(self.spec_config().retry_max_delay) as u64,
                attempt,
            ),
    {
        match outcome {
            Ok(output) => GatewayStep::Finish(
                ToolResult {
                    tool_name: String::from_str(tool_name),
                    status: ToolResultStatus::Success,
                    output,
                    remediation_hint: None,
                    latency_ms,
                },
            ),
            Err(e) => {
                if !e.is_retryable {
                    GatewayStep::Finish(
                        ToolResult {
                            tool_name: String::from_str(tool_name),
                            status: ToolResultStatus::ExecutionError,
                            output: error_json(e.message.as_str()),
                            remediation_hint: e.remediation_hint,
                            latency_ms,
                        },
                    )
                } else if attempt < self.config.max_retries {
                    let delay = delay_for_attempt(&self.config, attempt);
                    GatewayStep::Execute { attempt: attempt + 1, delay: Some(delay) }
                } else {
                    let n = u64_to_text(self.config.max_retries as u64);
                    let msg = String::from_str("retries exhausted after ").concat(n.as_str()).concat(
                        " attempts: ",
                    ).concat(e.message.as_str());
                    GatewayStep::Finish(
                        ToolResult {
                            tool_name: String::from_str(tool_name),
                            status: ToolResultStatus::ExecutionError,
                            output: error_json(msg.as_str()),
                            remediation_hint: Some(
                                String::from_str("the tool failed repeatedly; check logs and retry later"),
                            ),
                            latency_ms,
                        },
                    )
                }
            },
        }
    }
}

} // verus!
