use std::time::Duration;

use stratum::context::{assemble_context, budget_from_json, budget_json, ContextBudget};
use stratum::json_text::to_json_text;
use stratum::executor::{NoOpExecutor, ToolExecutionError};
use stratum::gateway::{DefaultToolGateway, GatewayStep, ToolGatewayConfig, ToolInvocation, ToolResultStatus};
use stratum::http::{PostReply, PostStep};
use stratum::json::{Json, JsonNumber};
use stratum::llm::{
    self, build_request as anthropic_request, extract_system_message, parse_response as anthropic_parse,
    AnthropicContentBlock, AnthropicResponse, AnthropicUsage, RetryConfig,
};
use stratum::openai::{
    self, build_request as oai_request, parse_response as oai_parse, OaiChoice, OaiPromptTokensDetails,
    OaiResponse, OaiResponseMessage, OaiToolCall, OaiToolCallFunction, OaiUsage, OpenAiClient,
};
use stratum::prompt::daemon_system_anchor;
use stratum::registry::{DynamicToolInfo, PersistentToolRegistry};
use stratum::session::{check_transition, decide_transition, is_valid_transition, parse_run_state, RunState};
use stratum::subprocess::{SubprocessExecutor, SubprocessExecutorConfig};
use stratum::tools::create_skill::validate_create_skill_params;
use stratum::tools::create_tool::validate_create_tool_params;
use stratum::tools::file_ops::glob_match;
use stratum::tools::memory::{memory_tool_definitions, parse_tier, validate_memory_search, validate_memory_write};
use stratum::tools::schemas::builtin_tool_definitions;
use stratum::tools::{all_builtin_definitions, BuiltinExecutor, BUILTIN_TOOL_NAMES};
use stratum::types::{LlmMessage, MemoryTier, RunId, ToolDefinition};
use stratum::util::{backoff_cap_millis, retry_delay};

fn s(x: &str) -> Json {
    Json::Str(x.to_string())
}

fn obj(pairs: Vec<(&str, Json)>) -> Json {
    Json::Object(pairs.into_iter().map(|(k, v)| (k.to_string(), v)).collect())
}

fn from_serde(v: &serde_json::Value) -> Json {
    match v {
        serde_json::Value::Null => Json::Null,
        serde_json::Value::Bool(b) => Json::Bool(*b),
        serde_json::Value::Number(n) => {
            if let Some(u) = n.as_u64() {
                Json::Number(JsonNumber::PosInt(u))
            } else if let Some(i) = n.as_i64() {
                Json::Number(JsonNumber::NegInt(i))
            } else {
                Json::Number(JsonNumber::Float(n.to_string()))
            }
        }
        serde_json::Value::String(t) => Json::Str(t.clone()),
        serde_json::Value::Array(a) => Json::Array(a.iter().map(from_serde).collect()),
        serde_json::Value::Object(o) => {
            Json::Object(o.iter().map(|(k, v)| (k.clone(), from_serde(v))).collect())
        }
    }
}

fn parse_json(text: &str) -> Option<Json> {
    serde_json::from_str::<serde_json::Value>(text).ok().map(|v| from_serde(&v))
}

fn msg(role: &str, content: &str) -> LlmMessage {
    LlmMessage { role: role.to_string(), content: content.to_string() }
}

fn weather_tool() -> ToolDefinition {
    ToolDefinition {
        name: "get_weather".to_string(),
        description: "Get weather".to_string(),
        schema: obj(vec![("type", s("object"))]),
    }
}

fn path_tool(name: &str) -> ToolDefinition {
    ToolDefinition {
        name: name.to_string(),
        description: format!("{name} tool"),
        schema: obj(vec![
            ("type", s("object")),
            ("properties", obj(vec![("path", obj(vec![("type", s("string"))]))])),
            ("required", Json::Array(vec![s("path")])),
        ]),
    }
}

fn x_tool(name: &str) -> ToolDefinition {
    ToolDefinition {
        name: name.to_string(),
        description: format!("{name} tool"),
        schema: obj(vec![
            ("type", s("object")),
            ("properties", obj(vec![("x", obj(vec![("type", s("string"))]))])),
        ]),
    }
}

// ---- prompt ----

#[test]
fn prompt_contains_tools() {
    let tools = vec!["bash".to_string(), "read_file".to_string()];
    let prompt = daemon_system_anchor(&tools);
    assert!(prompt.contains("bash, read_file"));
    assert!(prompt.contains("TASK COMPLETE"));
    assert!(prompt.contains("autonomous"));
}

// ---- context ----

#[test]
fn basic_assembly() {
    let msgs = assemble_context("sys", "goal", &[], &ContextBudget::default());
    assert_eq!(msgs.len(), 2);
    assert_eq!(msgs[0].role, "system");
    assert_eq!(msgs[0].content, "sys");
    assert_eq!(msgs[1].role, "user");
    assert_eq!(msgs[1].content, "goal");
}

#[test]
fn truncates_oldest_history() {
    let history: Vec<LlmMessage> = (0..100).map(|i| msg("user", &format!("msg {i}"))).collect();
    let budget = ContextBudget { max_tokens: 128_000, max_history_messages: 10 };
    let msgs = assemble_context("sys", "goal", &history, &budget);
    assert_eq!(msgs.len(), 10);
    assert_eq!(msgs.last().unwrap().content, "msg 99");
    assert_eq!(msgs[2].content, "msg 92");
}

#[test]
fn small_budget_still_includes_system_and_goal() {
    let history: Vec<LlmMessage> = (0..5).map(|i| msg("user", &format!("msg {i}"))).collect();
    let budget = ContextBudget { max_tokens: 128_000, max_history_messages: 2 };
    let msgs = assemble_context("sys", "goal", &history, &budget);
    assert_eq!(msgs.len(), 2);
}

#[test]
fn budget_below_two_keeps_no_history() {
    let history: Vec<LlmMessage> = (0..3).map(|i| msg("user", &format!("msg {i}"))).collect();
    let budget = ContextBudget { max_tokens: 10, max_history_messages: 0 };
    assert_eq!(assemble_context("sys", "goal", &history, &budget).len(), 2);
    let budget = ContextBudget { max_tokens: 10, max_history_messages: 100 };
    assert_eq!(assemble_context("sys", "goal", &history, &budget).len(), 5);
}

// ---- retry / llm ----

#[test]
fn test_default_retry_config() {
    let config = RetryConfig::default();
    assert_eq!(config.max_retries, 3);
    assert_eq!(config.base_delay, Duration::from_millis(500));
}

#[test]
fn test_delay_is_bounded() {
    let config = RetryConfig {
        max_retries: 5,
        base_delay: Duration::from_millis(100),
        max_delay: Duration::from_secs(2),
    };
    for attempt in 0..10 {
        let delay = config.delay_for_attempt(attempt);
        assert!(delay <= config.max_delay);
    }
}

#[test]
fn backoff_cap_values() {
    assert_eq!(backoff_cap_millis(100, 2000, 0), 100);
    assert_eq!(backoff_cap_millis(100, 2000, 3), 800);
    assert_eq!(backoff_cap_millis(100, 2000, 5), 2000);
    assert_eq!(backoff_cap_millis(1, u64::MAX, 40), 1024);
    assert_eq!(backoff_cap_millis(u64::MAX, u64::MAX, 2), u64::MAX);
    let d = retry_delay(Duration::from_millis(10), Duration::from_millis(15), 7);
    assert!(d <= Duration::from_millis(15));
}

#[test]
fn delay_before_first_attempt_is_none() {
    let config = RetryConfig::default();
    assert!(config.delay_before(0).is_none());
    assert!(config.delay_before(1).unwrap() <= Duration::from_millis(500));
}

#[test]
fn llm_test_retryable_status_codes() {
    assert!(llm::is_retryable_status(429));
    assert!(llm::is_retryable_status(500));
    assert!(llm::is_retryable_status(503));
    assert!(llm::is_retryable_status(529));
    assert!(!llm::is_retryable_status(200));
    assert!(!llm::is_retryable_status(400));
}

#[test]
fn llm_test_build_request_no_tools() {
    let messages = vec![msg("user", "Hello")];
    let req = anthropic_request(&messages, "messages-model-1", None, 4096);
    assert_eq!(req.model, "messages-model-1");
    assert_eq!(req.max_tokens, 4096);
    assert_eq!(req.messages.len(), 1);
    assert!(req.system.is_none());
    assert!(req.tools.is_none());
}

#[test]
fn llm_test_build_request_with_tools() {
    let messages = vec![msg("user", "Use the tool")];
    let tools = vec![weather_tool()];
    let req = anthropic_request(&messages, "messages-model-1", Some(&tools), 4096);
    assert!(req.tools.is_some());
    assert_eq!(req.tools.unwrap().len(), 1);
}

#[test]
fn test_build_request_extracts_system_message() {
    let messages = vec![msg("system", "You are helpful."), msg("user", "Hello")];
    let req = anthropic_request(&messages, "messages-model-1", None, 8192);
    assert_eq!(req.system.as_deref(), Some("You are helpful."));
    assert_eq!(req.messages.len(), 1);
}

#[test]
fn system_messages_are_joined_with_newlines() {
    let messages = vec![msg("system", "a"), msg("user", "u"), msg("system", "b")];
    let (system, rest) = extract_system_message(&messages);
    assert_eq!(system.as_deref(), Some("a\nb"));
    assert_eq!(rest.len(), 1);
    assert_eq!(rest[0].content, "u");
}

#[test]
fn llm_test_parse_text_response() {
    let resp = AnthropicResponse {
        id: None,
        model: None,
        content: vec![AnthropicContentBlock::Text { text: "Hello!".to_string() }],
        usage: AnthropicUsage {
            input_tokens: 10,
            output_tokens: 5,
            cache_creation_input_tokens: 0,
            cache_read_input_tokens: 3,
        },
        stop_reason: Some("end_turn".to_string()),
    };
    let llm_resp = anthropic_parse(resp);
    assert_eq!(llm_resp.content, "Hello!");
    assert!(llm_resp.tool_calls.is_empty());
    assert_eq!(llm_resp.usage.input_tokens, 10);
    assert_eq!(llm_resp.usage.cached_tokens, 3);
    assert_eq!(llm_resp.stop_reason.as_deref(), Some("end_turn"));
}

#[test]
fn test_parse_tool_use_response() {
    let resp = AnthropicResponse {
        id: None,
        model: None,
        content: vec![
            AnthropicContentBlock::Text { text: "Let me check.".to_string() },
            AnthropicContentBlock::ToolUse {
                id: "toolu_123".to_string(),
                name: "get_weather".to_string(),
                input: obj(vec![("location", s("Paris"))]),
            },
        ],
        usage: AnthropicUsage {
            input_tokens: 20,
            output_tokens: 15,
            cache_creation_input_tokens: 0,
            cache_read_input_tokens: 0,
        },
        stop_reason: Some("tool_use".to_string()),
    };
    let llm_resp = anthropic_parse(resp);
    assert_eq!(llm_resp.content, "Let me check.");
    assert_eq!(llm_resp.tool_calls.len(), 1);
    assert_eq!(llm_resp.tool_calls[0].id.as_deref(), Some("toolu_123"));
    assert_eq!(llm_resp.tool_calls[0].tool_name, "get_weather");
}

#[test]
fn test_extract_system_message_none() {
    let messages = vec![msg("user", "Hello")];
    let (system, rest) = extract_system_message(&messages);
    assert!(system.is_none());
    assert_eq!(rest.len(), 1);
}

#[test]
fn anthropic_client_settings() {
    let c = llm::AnthropicClient::new("k".to_string());
    assert_eq!(c.url(), "https://api.anthropic.com/v1/messages");
    let c = c.with_base_url("http://localhost:9".to_string()).with_max_tokens(10);
    assert_eq!(c.url(), "http://localhost:9/v1/messages");
    assert_eq!(c.max_tokens(), 10);
    assert_eq!(c.api_key(), "k");
}

#[test]
fn post_steps_follow_status() {
    match llm::next_step(0, 3, PostReply::Status { status: 200, body: String::new() }, None) {
        PostStep::Accept => {}
        other => panic!("unexpected {other:?}"),
    }
    match llm::next_step(0, 3, PostReply::Status { status: 529, body: "busy".to_string() }, None) {
        PostStep::Retry(e) => assert_eq!(e.to_string(), "LLM API error (status 529): busy"),
        other => panic!("unexpected {other:?}"),
    }
    match llm::next_step(3, 3, PostReply::SendFailed("refused".to_string()), None) {
        PostStep::Fail(e) => assert_eq!(e.to_string(), "HTTP error: refused"),
        other => panic!("unexpected {other:?}"),
    }
    match openai::next_step(
        0,
        3,
        PostReply::Status { status: 400, body: "{..}".to_string() },
        Some("bad request".to_string()),
    ) {
        PostStep::Fail(e) => assert_eq!(e.to_string(), "LLM API error (status 400): bad request"),
        other => panic!("unexpected {other:?}"),
    }
    match openai::next_step(0, 3, PostReply::Status { status: 529, body: "x".to_string() }, None) {
        PostStep::Fail(e) => assert_eq!(e.to_string(), "LLM API error (status 529): x"),
        other => panic!("unexpected {other:?}"),
    }
}

// ---- openai ----

#[test]
fn openai_test_build_request_no_tools() {
    let messages = vec![msg("user", "Hello")];
    let req = oai_request(&messages, "llama-3.3-70b-versatile", None, 4096);
    assert_eq!(req.model, "llama-3.3-70b-versatile");
    assert_eq!(req.max_tokens, 4096);
    assert_eq!(req.messages.len(), 1);
    assert!(req.tools.is_none());
}

#[test]
fn openai_test_build_request_with_tools() {
    let messages = vec![msg("user", "Use the tool")];
    let tools = vec![weather_tool()];
    let req = oai_request(&messages, "llama-3.3-70b-versatile", Some(&tools), 4096);
    assert!(req.tools.is_some());
    let tools = req.tools.unwrap();
    assert_eq!(tools.len(), 1);
    assert_eq!(tools[0].tool_type, "function");
    assert_eq!(tools[0].function.name, "get_weather");
}

#[test]
fn test_build_request_keeps_system_messages_inline() {
    let messages = vec![msg("system", "You are helpful."), msg("user", "Hello")];
    let req = oai_request(&messages, "llama-3.3-70b-versatile", None, 8192);
    assert_eq!(req.messages.len(), 2);
    assert_eq!(req.messages[0].role, "system");
}

#[test]
fn openai_test_parse_text_response() {
    let resp = OaiResponse {
        choices: vec![OaiChoice {
            message: OaiResponseMessage { content: Some("Hello!".to_string()), tool_calls: None },
            finish_reason: Some("stop".to_string()),
        }],
        usage: OaiUsage { prompt_tokens: 10, completion_tokens: 5, prompt_tokens_details: None },
    };
    let llm_resp = oai_parse(resp);
    assert_eq!(llm_resp.content, "Hello!");
    assert!(llm_resp.tool_calls.is_empty());
    assert_eq!(llm_resp.usage.input_tokens, 10);
    assert_eq!(llm_resp.usage.output_tokens, 5);
    assert_eq!(llm_resp.stop_reason.as_deref(), Some("stop"));
}

#[test]
fn test_parse_tool_call_response() {
    let resp = OaiResponse {
        choices: vec![OaiChoice {
            message: OaiResponseMessage {
                content: Some("Let me check.".to_string()),
                tool_calls: Some(vec![OaiToolCall {
                    id: "call_123".to_string(),
                    function: OaiToolCallFunction {
                        name: "get_weather".to_string(),
                        arguments: parse_json(r#"{"location":"Paris"}"#).unwrap_or(Json::Null),
                    },
                }]),
            },
            finish_reason: Some("tool_calls".to_string()),
        }],
        usage: OaiUsage {
            prompt_tokens: 20,
            completion_tokens: 15,
            prompt_tokens_details: Some(OaiPromptTokensDetails { cached_tokens: 5 }),
        },
    };
    let llm_resp = oai_parse(resp);
    assert_eq!(llm_resp.content, "Let me check.");
    assert_eq!(llm_resp.tool_calls.len(), 1);
    assert_eq!(llm_resp.tool_calls[0].id.as_deref(), Some("call_123"));
    assert_eq!(llm_resp.tool_calls[0].tool_name, "get_weather");
    assert_eq!(llm_resp.usage.cached_tokens, 5);
}

#[test]
fn openai_empty_choices() {
    let resp = OaiResponse {
        choices: vec![],
        usage: OaiUsage { prompt_tokens: 1, completion_tokens: 2, prompt_tokens_details: None },
    };
    let r = oai_parse(resp);
    assert_eq!(r.content, "");
    assert!(r.tool_calls.is_empty());
    assert!(r.stop_reason.is_none());
    assert_eq!(r.usage.cached_tokens, 0);
}

#[test]
fn test_groq_constructor_sets_url() {
    let client = OpenAiClient::groq("test-key".to_string());
    assert_eq!(client.url(), "https://api.groq.com/openai/v1/chat/completions");
}

#[test]
fn openai_base_url_trailing_slashes_are_dropped() {
    let client = OpenAiClient::new("k".to_string(), "http://host/v1///".to_string());
    assert_eq!(client.url(), "http://host/v1/chat/completions");
}

#[test]
fn openai_test_retryable_status_codes() {
    assert!(openai::is_retryable_status(429));
    assert!(openai::is_retryable_status(500));
    assert!(openai::is_retryable_status(503));
    assert!(!openai::is_retryable_status(200));
    assert!(!openai::is_retryable_status(400));
}

// ---- registry and gateway ----

#[test]
fn register_builtins() {
    let mut reg = PersistentToolRegistry::new();
    reg.register_builtins(vec![path_tool("bash"), path_tool("read_file")]).unwrap();
    assert_eq!(reg.get_manifest_owned().len(), 2);
    assert!(reg.get_tool_owned("bash").is_some());
}

#[test]
fn register_builtins_keeps_existing() {
    let mut reg = PersistentToolRegistry::new();
    reg.register_builtins(vec![path_tool("bash")]).unwrap();
    let mut other = x_tool("bash");
    other.description = "replacement".to_string();
    reg.register_builtins(vec![other, x_tool("extra")]).unwrap();
    assert_eq!(reg.len(), 2);
    assert_eq!(reg.get_tool_owned("bash").unwrap().description, "bash tool");
}

#[test]
fn register_dynamic_replaces() {
    let mut reg = PersistentToolRegistry::new();
    reg.register_dynamic(x_tool("my_tool"), None, "stdin").unwrap();
    let mut changed = x_tool("my_tool");
    changed.description = "v2".to_string();
    reg.register_dynamic(changed, Some("/tmp/v2.sh".to_string()), "json_arg").unwrap();
    assert_eq!(reg.len(), 1);
    let t = reg.get_tool_owned("my_tool").unwrap();
    assert_eq!(t.name, "my_tool");
    assert_eq!(t.description, "v2");
    let info = reg.get_dynamic_tool_info("my_tool").unwrap();
    assert_eq!(info.script_path.unwrap(), "/tmp/v2.sh");
    assert_eq!(info.param_passing, "json_arg");
}

#[test]
fn register_dynamic_tool() {
    let mut reg = PersistentToolRegistry::new();
    reg.register_dynamic(x_tool("my_tool"), Some("/tmp/tool.sh".to_string()), "stdin").unwrap();

    let t = reg.get_tool_owned("my_tool").unwrap();
    assert_eq!(t.name, "my_tool");

    let info = reg.get_dynamic_tool_info("my_tool").unwrap();
    assert_eq!(info.script_path.unwrap(), "/tmp/tool.sh");
}

#[test]
fn builtin_tools_have_no_run_info() {
    let mut reg = PersistentToolRegistry::new();
    reg.register_builtins(vec![path_tool("bash")]).unwrap();
    assert!(reg.get_dynamic_tool_info("bash").is_none());
}

#[test]
fn stored_tools_reload_with_run_info() {
    let mut reg = PersistentToolRegistry::new();
    let info = DynamicToolInfo { script_path: None, param_passing: "json_arg".to_string() };
    reg.load_stored(vec![x_tool("persistent_tool")], vec![("persistent_tool".to_string(), info)]);
    assert!(reg.get_tool_owned("persistent_tool").is_some());
    let back = reg.get_dynamic_tool_info("persistent_tool").unwrap();
    assert!(back.script_path.is_none());
    assert_eq!(back.param_passing, "json_arg");
}

#[test]
fn bad_schema_is_refused() {
    let mut reg = PersistentToolRegistry::new();
    let bad = ToolDefinition {
        name: "bad".to_string(),
        description: "bad".to_string(),
        schema: obj(vec![("type", Json::Number(JsonNumber::PosInt(7)))]),
    };
    let err = reg.register_dynamic(bad, Some("/tmp/bad.sh".to_string()), "stdin").unwrap_err();
    assert!(err.to_string().starts_with("Schema compilation error: failed to compile schema for `bad`: "));
    assert_eq!(reg.len(), 0);
    assert!(reg.get_dynamic_tool_info("bad").is_none());
}

#[test]
fn validate_params_works() {
    let mut reg = PersistentToolRegistry::new();
    let def = ToolDefinition {
        name: "strict_tool".to_string(),
        description: "requires x".to_string(),
        schema: obj(vec![
            ("type", s("object")),
            ("properties", obj(vec![("x", obj(vec![("type", s("string"))]))])),
            ("required", Json::Array(vec![s("x")])),
        ]),
    };
    reg.register_builtins(vec![def]).unwrap();
    assert!(reg.validate_params("strict_tool", &obj(vec![("x", s("hello"))])).is_ok());
    assert!(reg.validate_params("strict_tool", &obj(vec![])).is_err());
    assert!(reg.validate_params("missing", &obj(vec![])).is_err());
}

fn gateway(tools: Vec<ToolDefinition>) -> (DefaultToolGateway, PersistentToolRegistry) {
    let mut reg = PersistentToolRegistry::new();
    reg.register_builtins(tools).unwrap();
    (DefaultToolGateway::new(ToolGatewayConfig::default()), reg)
}

fn invocation(tool_name: &str, parameters: Json) -> ToolInvocation {
    ToolInvocation { tool_name: tool_name.to_string(), parameters, run_id: RunId(7) }
}

#[test]
fn gateway_successful_call() {
    let (gw, reg) = gateway(vec![path_tool("read_file")]);
    let inv = invocation("read_file", obj(vec![("path", s("/tmp/test"))]));
    match gw.begin(&reg, &inv, 0) {
        GatewayStep::Execute { attempt: 0, delay: None } => {}
        other => panic!("unexpected {other:?}"),
    }
    let out = NoOpExecutor.execute("read_file", &inv.parameters);
    match gw.after_attempt("read_file", 0, out, 3) {
        GatewayStep::Finish(r) => {
            assert_eq!(r.status, ToolResultStatus::Success);
            assert_eq!(r.latency_ms, 3);
        }
        other => panic!("unexpected {other:?}"),
    }
}

#[test]
fn gateway_unknown_tool() {
    let (gw, reg) = gateway(vec![]);
    match gw.begin(&reg, &invocation("nonexistent", obj(vec![])), 1) {
        GatewayStep::Finish(r) => {
            assert_eq!(r.status, ToolResultStatus::ExecutionError);
            assert_eq!(r.output, obj(vec![("error", s("tool `nonexistent` not found"))]));
        }
        other => panic!("unexpected {other:?}"),
    }
}

#[test]
fn gateway_invalid_params() {
    let (gw, reg) = gateway(vec![path_tool("read_file")]);
    match gw.begin(&reg, &invocation("read_file", obj(vec![])), 1) {
        GatewayStep::Finish(r) => {
            assert_eq!(r.status, ToolResultStatus::ValidationFailure);
            assert_eq!(r.remediation_hint.as_deref(), Some("check parameter schema for `read_file`"));
        }
        other => panic!("unexpected {other:?}"),
    }
}

#[test]
fn gateway_retries_until_exhausted() {
    let (gw, reg) = gateway(vec![path_tool("t")]);
    let failing = || {
        Err(ToolExecutionError { message: "flaky".to_string(), remediation_hint: None, is_retryable: true })
    };
    let mut attempt = 0;
    let mut runs = 0;
    loop {
        runs += 1;
        match gw.after_attempt("t", attempt, failing(), 0) {
            GatewayStep::Execute { attempt: next, delay } => {
                assert!(delay.unwrap() <= Duration::from_secs(5));
                attempt = next;
            }
            GatewayStep::Finish(r) => {
                assert_eq!(r.status, ToolResultStatus::ExecutionError);
                assert_eq!(r.output, obj(vec![("error", s("retries exhausted after 3 attempts: flaky"))]));
                break;
            }
        }
    }
    assert_eq!(runs, 4);
}

#[test]
fn gateway_non_retryable_stops_at_once() {
    let (gw, reg) = gateway(vec![path_tool("t")]);
    let err = ToolExecutionError {
        message: "boom".to_string(),
        remediation_hint: Some("fix it".to_string()),
        is_retryable: false,
    };
    match gw.after_attempt("t", 0, Err(err), 0) {
        GatewayStep::Finish(r) => {
            assert_eq!(r.output, obj(vec![("error", s("boom"))]));
            assert_eq!(r.remediation_hint.as_deref(), Some("fix it"));
        }
        other => panic!("unexpected {other:?}"),
    }
}

// ---- session ----

#[test]
fn run_state_transitions() {
    assert!(is_valid_transition(RunState::Running, RunState::Completed));
    assert!(is_valid_transition(RunState::Running, RunState::Failed));
    assert!(is_valid_transition(RunState::Running, RunState::Aborted));
    assert!(!is_valid_transition(RunState::Completed, RunState::Running));
    assert!(!is_valid_transition(RunState::Running, RunState::Running));
    let e = check_transition(RunState::Completed, RunState::Running).unwrap_err();
    assert_eq!(e.to_string(), "Invalid state: invalid transition: Completed -> Running");
    assert_eq!(parse_run_state("Failed").unwrap(), RunState::Failed);
    assert!(parse_run_state("Paused").is_err());
    assert!(decide_transition(RunId(1), Some("Running"), RunState::Completed).is_ok());
    let e = decide_transition(RunId(1), None, RunState::Completed).unwrap_err();
    assert_eq!(e.to_string(), "Not found: run 00000000-0000-0000-0000-000000000001");
}

// ---- subprocess ----

#[test]
fn parse_output_valid_json() {
    let stdout = r#"{"result": "hello"}"#;
    let result = SubprocessExecutor::parse_output(stdout, "", 0, parse_json(stdout));
    assert_eq!(result, obj(vec![("result", s("hello"))]));
}

#[test]
fn parse_output_plain_text() {
    let stdout = "hello world";
    let result = SubprocessExecutor::parse_output(stdout, "some warn", 0, parse_json(stdout));
    assert_eq!(result.get("stdout"), Some(&s("hello world")));
}

#[test]
fn config_defaults() {
    let config = SubprocessExecutorConfig::default();
    assert_eq!(config.default_timeout, Duration::from_secs(30));
    assert!(config.retryable_exit_codes.contains(&69));
}

// ---- built-in tools ----

#[test]
fn create_tool_validate_valid_params() {
    let params = obj(vec![
        ("name", s("my_tool")),
        ("description", s("does stuff")),
        ("script_path", s("/usr/local/bin/my_tool")),
    ]);
    let result = validate_create_tool_params(&params).unwrap();
    assert_eq!(result.name, "my_tool");
    assert_eq!(result.param_passing, "stdin");
}

#[test]
fn validate_missing_name() {
    let params = obj(vec![("description", s("x")), ("script_path", s("/tmp/t"))]);
    assert!(validate_create_tool_params(&params).is_err());
}

#[test]
fn validate_invalid_param_passing() {
    let params = obj(vec![
        ("name", s("my_tool")),
        ("description", s("does stuff")),
        ("script_path", s("/tmp/t")),
        ("param_passing", s("invalid")),
    ]);
    assert!(validate_create_tool_params(&params).is_err());
}

#[test]
fn create_skill_validate_valid_params() {
    let params = obj(vec![
        ("name", s("my-skill")),
        ("description", s("A test skill")),
        ("triggers", Json::Array(vec![s("test"), s("example")])),
        ("content", s("# My Skill\nContent here.")),
    ]);
    let result = validate_create_skill_params(&params).unwrap();
    assert_eq!(result.name, "my-skill");
    assert_eq!(result.triggers.len(), 2);
}

#[test]
fn validate_missing_content() {
    let params = obj(vec![("name", s("my-skill")), ("description", s("A test skill"))]);
    assert!(validate_create_skill_params(&params).is_err());
}

#[test]
fn parse_valid_tiers() {
    assert_eq!(parse_tier("working").unwrap(), MemoryTier::Working);
    assert_eq!(parse_tier("persistent").unwrap(), MemoryTier::Persistent);
    assert!(parse_tier("invalid").is_err());
}

#[test]
fn validate_write() {
    let params = obj(vec![("tier", s("working")), ("id", s("test-1")), ("content", s("hello"))]);
    let result = validate_memory_write(&params).unwrap();
    assert_eq!(result.tier, MemoryTier::Working);
    assert_eq!(result.id, "test-1");
}

#[test]
fn validate_write_missing_tier() {
    let params = obj(vec![("id", s("test-1")), ("content", s("hello"))]);
    assert!(validate_memory_write(&params).is_err());
}

#[test]
fn validate_search() {
    let params = obj(vec![("tier", s("persistent")), ("query", s("rust"))]);
    let result = validate_memory_search(&params).unwrap();
    assert_eq!(result.tier, MemoryTier::Persistent);
    assert_eq!(result.limit, 10);
}

#[test]
fn memory_definitions_count() {
    let defs = memory_tool_definitions();
    assert_eq!(defs.len(), 2);
}

#[test]
fn test_glob_match() {
    assert!(glob_match("*.rs", "main.rs"));
    assert!(glob_match("*.rs", "lib.rs"));
    assert!(!glob_match("*.rs", "main.py"));
    assert!(glob_match("test_*", "test_foo"));
    assert!(glob_match("?oo", "foo"));
    assert!(!glob_match("?oo", "fooo"));
    assert!(glob_match("*", "anything"));
}

#[test]
fn handles_all_builtin_tools() {
    let executor = BuiltinExecutor;
    for name in BUILTIN_TOOL_NAMES {
        assert!(executor.handles(name), "should handle {name}");
    }
    assert!(!executor.handles("unknown_tool"));
}

#[test]
fn all_builtin_definitions_count() {
    let defs = all_builtin_definitions();
    assert_eq!(defs.len(), 9);
    let names: Vec<&str> = defs.iter().map(|d| d.name.as_str()).collect();
    assert_eq!(names, BUILTIN_TOOL_NAMES.to_vec());
}

#[test]
fn all_definitions_have_valid_schemas() {
    let defs = builtin_tool_definitions();
    assert_eq!(defs.len(), 5);
    for def in &defs {
        assert!(!def.name.is_empty());
        assert!(!def.description.is_empty());
        assert!(PersistentToolRegistry::check_schema(def).is_ok(), "schema for {} failed to compile", def.name);
    }
}

#[test]
fn context_budget_round_trip() {
    let b = ContextBudget { max_tokens: 4096, max_history_messages: 7 };
    let j = budget_json(&b);
    assert_eq!(to_json_text(&j), "{\"max_tokens\":4096,\"max_history_messages\":7}");
    assert_eq!(budget_from_json(&j), Some(b));
}

#[test]
fn context_budget_needs_both_counts() {
    let only_tokens = obj(vec![("max_tokens", Json::Number(JsonNumber::PosInt(10)))]);
    assert_eq!(budget_from_json(&only_tokens), None);
    let wrong_type = obj(vec![
        ("max_tokens", s("10")),
        ("max_history_messages", Json::Number(JsonNumber::PosInt(3))),
    ]);
    assert_eq!(budget_from_json(&wrong_type), None);
}

#[test]
fn schemas_with_references_are_refused() {
    let mut reg = PersistentToolRegistry::new();
    let cyclic = ToolDefinition {
        name: "cyclic".to_string(),
        description: "refers to itself".to_string(),
        schema: obj(vec![
            ("$ref", s("#/$defs/a")),
            (
                "$defs",
                obj(vec![("a", obj(vec![("$ref", s("#/$defs/b"))])), ("b", obj(vec![("$ref", s("#/$defs/a"))]))]),
            ),
        ]),
    };
    let err = reg.register_dynamic(cyclic, None, "stdin").unwrap_err();
    assert_eq!(
        err.to_string(),
        "Schema compilation error: failed to compile schema for `cyclic`: references ($ref, $dynamicRef, $recursiveRef) are not supported"
    );
    assert_eq!(reg.len(), 0);
    let nested = ToolDefinition {
        name: "nested".to_string(),
        description: "nested ref".to_string(),
        schema: obj(vec![
            ("type", s("object")),
            ("properties", obj(vec![("x", obj(vec![("$dynamicRef", s("#meta"))]))])),
        ]),
    };
    assert!(reg.register_dynamic(nested, None, "stdin").is_err());
    assert!(reg.register_dynamic(x_tool("plain"), None, "stdin").is_ok());
}

#[test]
fn builtin_schemas_state_property_types() {
    let defs = builtin_tool_definitions();
    let props = defs[0].schema.get("properties").unwrap();
    assert_eq!(props.get("command").unwrap().get("type"), Some(&s("string")));
    assert_eq!(props.get("timeout_ms").unwrap().get("type"), Some(&s("number")));
}
