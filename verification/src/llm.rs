//! Anthropic Messages API: retry settings, request building and response
//! reading. The host sends the request and decodes the reply.

use vstd::prelude::*;

use std::time::Duration;

use crate::error::EngineError;
use crate::http::{post_step, post_step_spec, PostReply, PostStep};
use crate::json::Json;
use crate::text::{join_strings, seq_join, str_eq, string_views};
use crate::time::{duration_from_millis, duration_from_secs, duration_millis};
use crate::types::{LlmMessage, LlmResponse, LlmToolCall, LlmUsage, ToolDefinition};
use crate::util::{backoff_cap, retry_delay};

verus! {

/// How often and how patiently a failed API call is retried.
#[derive(Debug, Clone)]
pub struct RetryConfig {
    pub max_retries: u32,
    pub base_delay: Duration,
    pub max_delay: Duration,
}

impl RetryConfig {
    /// Three retries, starting at half a second and never waiting more than
    /// thirty seconds.
    pub fn default() -> (r: RetryConfig)
        ensures
            r.max_retries == 3,
            duration_millis(r.base_delay) == 500,
            duration_millis(r.max_delay) == 30_000,
    {
        RetryConfig {
            max_retries: 3,
            base_delay: duration_from_millis(500),
            max_delay: duration_from_secs(30),
        }
    }

    /// The delay before retry number `attempt` (counted from zero): random,
    /// and at most the backoff cap of the base and maximum delays.
    pub fn delay_for_attempt(&self, attempt: u32) -> (d: Duration)
        ensures
            duration_millis(d) <= backoff_cap(
                duration_millis(self.base_delay) as u64,
                duration_millis(self.max_delay) as u64,
                attempt,
            ),
            duration_millis(self.max_delay) <= u64::MAX ==> duration_millis(d) <= duration_millis(
                self.max_delay,
            ),
    {
        retry_delay(self.base_delay, self.max_delay, attempt)
    }

    /// The wait before attempt `attempt` of a call: none before the first,
    /// and `delay_for_attempt(attempt - 1)` before each later one.
    pub fn delay_before(&self, attempt: u32) -> (d: Option<Duration>)
        ensures
            attempt == 0 <==> d is None,
            d matches Some(w) ==> duration_millis(self.max_delay) <= u64::MAX ==> duration_millis(w)
                <= duration_millis(self.max_delay),
            d matches Some(w) ==> duration_millis(w) <= backoff_cap(
                duration_millis(self.base_delay) as u64,
                duration_millis(self.max_delay) as u64,
                (attempt - 1) as u32,
            ),
    {
        if attempt == 0 {
            None
        } else {
            Some(self.delay_for_attempt(attempt - 1))
        }
    }
}

/// Whether the Anthropic API asks to be retried with this status: rate
/// limited, internal error, unavailable or overloaded.
pub open spec fn anthropic_retryable(status: u16) -> bool {
    status == 429 || status == 500 || status == 503 || status == 529
}

/// Whether a reply with this status is worth another attempt.
pub fn is_retryable_status(status: u16) -> (r: bool)
    ensures
        r == anthropic_retryable(status),
{
    status == 429 || status == 500 || status == 503 || status == 529
}

/// The step after an attempt at the Anthropic API; `envelope` is the
/// `error.message` of the reply's body where it holds one.
pub fn next_step(attempt: u32, max_retries: u32, reply: PostReply, envelope: Option<String>) -> (r: PostStep)
    ensures
        r == post_step_spec(
            attempt,
            max_retries,
            reply,
            match reply {
                PostReply::Status { status, .. } => anthropic_retryable(status),
                PostReply::SendFailed(_) => true,
            },
            envelope,
        ),
        r is Retry ==> attempt < max_retries,
        reply matches PostReply::SendFailed(m) ==> (if attempt < max_retries {
            r == PostStep::Retry(EngineError::Http(m))
        } else {
            r == PostStep::Fail(EngineError::Http(m))
        }),
{
    let retryable = match &reply {
        PostReply::Status { status, .. } => is_retryable_status(*status),
        PostReply::SendFailed(_) => true,
    };
    post_step(attempt, max_retries, reply, retryable, envelope)
}

/// At the Anthropic API, rate limiting (429), a server error (500), an
/// unavailable service (503) and an overload (529) are tried again while
/// retries are left, with the status and body as the error; any other
/// status but 200, a client error such as 400 among them, ends the call at
/// once with the error envelope's message, or the body where there is none.
pub proof fn lemma_anthropic_steps(attempt: u32, max_retries: u32, status: u16, body: String, envelope: Option<String>)
    requires
        status != 200,
    ensures
        ({
            let reply = PostReply::Status { status, body };
            let r = post_step_spec(attempt, max_retries, reply, anthropic_retryable(status), envelope);
            &&& (status == 429 || status == 500 || status == 503 || status == 529) && attempt < max_retries
                ==> r == PostStep::Retry(EngineError::LlmApi { status, message: body })
            &&& !(status == 429 || status == 500 || status == 503 || status == 529) ==> r == PostStep::Fail(
                EngineError::LlmApi {
                    status,
                    message: match envelope {
                        Some(m) => m,
                        None => body,
                    },
                },
            )
        }),
{
}

/// The contents of the system messages, in order.
pub open spec fn system_parts(ms: Seq<LlmMessage>) -> Seq<Seq<char>>
    decreases ms.len(),
{
    if ms.len() == 0 {
        Seq::empty()
    } else if ms.last().role@ == "system"@ {
        system_parts(ms.drop_last()).push(ms.last().content@)
    } else {
        system_parts(ms.drop_last())
    }
}

/// The messages that are not system messages, in order.
pub open spec fn non_system(ms: Seq<LlmMessage>) -> Seq<LlmMessage>
    decreases ms.len(),
{
    if ms.len() == 0 {
        Seq::empty()
    } else if ms.last().role@ == "system"@ {
        non_system(ms.drop_last())
    } else {
        non_system(ms.drop_last()).push(ms.last())
    }
}

/// The system prompt of a conversation: its system messages joined by
/// newlines, or none where it has none.
pub open spec fn system_prompt(ms: Seq<LlmMessage>) -> Option<Seq<char>> {
    if system_parts(ms).len() == 0 {
        None
    } else {
        Some(seq_join(system_parts(ms), "\n"@))
    }
}

/// The messages a sequence of borrowed messages points at.
pub open spec fn derefs(s: Seq<&LlmMessage>) -> Seq<LlmMessage> {
    s.map_values(|m: &LlmMessage| *m)
}

/// Splits the system messages off a conversation: their contents joined by
/// newlines (none where there are none), and the other messages in order.
pub fn extract_system_message(messages: &[LlmMessage]) -> (r: (Option<String>, Vec<&LlmMessage>))
    ensures
        match r.0 {
            Some(s) => system_prompt(messages@) == Some(s@),
            None => system_prompt(messages@) is None,
        },
        derefs(r.1@) == non_system(messages@),
{
    let mut parts: Vec<String> = Vec::new();
    let mut rest: Vec<&LlmMessage> = Vec::new();
    let mut i: usize = 0;
    while i < messages.len()
        invariant
            i <= messages.len(),
            string_views(parts@) == system_parts(messages@.take(i as int)),
            derefs(rest@) == non_system(messages@.take(i as int)),
        decreases messages.len() - i,
    {
        let m = &messages[i];
        assert(messages@.take(i + 1).drop_last() =~= messages@.take(i as int));
        assert(messages@.take(i + 1).last() == messages@[i as int]);
        if str_eq(m.role.as_str(), "system") {
            let ghost before = parts@;
            parts.push(m.content.clone());
            assert(string_views(parts@) =~= string_views(before).push(m.content@));
        } else {
            let ghost before = rest@;
            rest.push(m);
            assert(derefs(rest@) =~= derefs(before).push(*m));
        }
        i = i + 1;
    }
    assert(messages@.take(messages.len() as int) =~= messages@);
    let system = if parts.len() == 0 {
        None
    } else {
        Some(join_strings(parts.as_slice(), "\n"))
    };
    (system, rest)
}

/// One message of an Anthropic request.
#[derive(Debug)]
pub struct AnthropicMessage {
    pub role: String,
    pub content: String,
}

/// One tool offered in an Anthropic request.
#[derive(Debug)]
pub struct AnthropicTool {
    pub name: String,
    pub description: String,
    pub input_schema: Json,
}

/// The body of an Anthropic Messages request.
#[derive(Debug)]
pub struct AnthropicRequest {
    pub model: String,
    pub max_tokens: u32,
    pub system: Option<String>,
    pub messages: Vec<AnthropicMessage>,
    pub tools: Option<Vec<AnthropicTool>>,
}

/// An API message carries the role and content of a conversation message.
pub open spec fn message_matches(a: AnthropicMessage, m: LlmMessage) -> bool {
    a.role@ == m.role@ && a.content@ == m.content@
}

/// An API tool carries the name, description and schema of a definition.
pub open spec fn tool_matches(a: AnthropicTool, d: ToolDefinition) -> bool {
    a.name@ == d.name@ && a.description@ == d.description@ && a.input_schema@ == d.schema@
}

/// The API tools for a list of tool definitions, one for each, in order.
pub fn api_tools(defs: &[ToolDefinition]) -> (r: Vec<AnthropicTool>)
    ensures
        r.len() == defs.len(),
        forall|i: int| 0 <= i < defs.len() ==> tool_matches(#[trigger] r@[i], defs@[i]),
{
    let mut out: Vec<AnthropicTool> = Vec::new();
    let mut i: usize = 0;
    while i < defs.len()
        invariant
            i <= defs.len(),
            out.len() == i,
            forall|k: int| 0 <= k < i ==> tool_matches(#[trigger] out@[k], defs@[k]),
        decreases defs.len() - i,
    {
        let d = &defs[i];
        out.push(
            AnthropicTool {
                name: d.name.clone(),
                description: d.description.clone(),
                input_schema: d.schema.deep_clone(),
            },
        );
        i = i + 1;
    }
    out
}

/// The request body for a conversation: the model and token limit as given,
/// the system messages lifted into `system`, the other messages in order,
/// and one tool for each definition where tools are given.
pub fn build_request(
    messages: &[LlmMessage],
    model: &str,
    tools: Option<&[ToolDefinition]>,
    max_tokens: u32,
) -> (r: AnthropicRequest)
    ensures
        r.model@ == model@,
        r.max_tokens == max_tokens,
        match r.system {
            Some(s) => system_prompt(messages@) == Some(s@),
            None => system_prompt(messages@) is None,
        },
        r.messages.len() == non_system(messages@).len(),
        forall|i: int|
            0 <= i < r.messages.len() ==> message_matches(#[trigger] r.messages@[i], non_system(messages@)[i]),
        tools is None <==> r.tools is None,
        tools matches Some(ts) ==> r.tools matches Some(rt) && rt.len() == ts.len() && (forall|i: int|
            0 <= i < ts.len() ==> tool_matches(#[trigger] rt@[i], ts@[i])),
{
    let (system, rest) = extract_system_message(messages);
    let mut api_messages: Vec<AnthropicMessage> = Vec::new();
    let mut i: usize = 0;
    while i < rest.len()
        invariant
            i <= rest.len(),
            derefs(rest@) == non_system(messages@),
            api_messages.len() == i,
            forall|k: int| 0 <= k < i ==> message_matches(#[trigger] api_messages@[k], non_system(messages@)[k]),
        decreases rest.len() - i,
    {
        let m: &LlmMessage = rest[i];
        assert(derefs(rest@)[i as int] == *m);
        api_messages.push(AnthropicMessage { role: m.role.clone(), content: m.content.clone() });
        i = i + 1;
    }
    let api = match tools {
        Some(ts) => Some(api_tools(ts)),
        None => None,
    };
    AnthropicRequest {
        model: String::from_str(model),
        max_tokens,
        system,
        messages: api_messages,
        tools: api,
    }
}

/// One block of an Anthropic reply's content.
#[derive(Debug)]
pub enum AnthropicContentBlock {
    Text { text: String },
    ToolUse { id: String, name: String, input: Json },
    Unknown,
}

/// The token counts of an Anthropic reply.
#[derive(Debug, Clone, Copy)]
pub struct AnthropicUsage {
    pub input_tokens: u64,
    pub output_tokens: u64,
    pub cache_creation_input_tokens: u64,
    pub cache_read_input_tokens: u64,
}

/// A decoded Anthropic Messages reply.
#[derive(Debug)]
pub struct AnthropicResponse {
    pub id: Option<String>,
    pub model: Option<String>,
    pub content: Vec<AnthropicContentBlock>,
    pub usage: AnthropicUsage,
    pub stop_reason: Option<String>,
}

/// The text of a reply: its text blocks concatenated in order.
pub open spec fn reply_text(blocks: Seq<AnthropicContentBlock>) -> Seq<char>
    decreases blocks.len(),
{
    if blocks.len() == 0 {
        Seq::empty()
    } else {
        reply_text(blocks.drop_last()) + match blocks.last() {
            AnthropicContentBlock::Text { text } => text@,
            _ => Seq::empty(),
        }
    }
}

/// The tool-use blocks of a reply, in order.
pub open spec fn reply_tool_uses(blocks: Seq<AnthropicContentBlock>) -> Seq<AnthropicContentBlock>
    decreases blocks.len(),
{
    if blocks.len() == 0 {
        Seq::empty()
    } else if blocks.last() is ToolUse {
        reply_tool_uses(blocks.drop_last()).push(blocks.last())
    } else {
        reply_tool_uses(blocks.drop_last())
    }
}

/// A tool call carries the id, name and input of a tool-use block.
pub open spec fn call_matches(c: LlmToolCall, b: AnthropicContentBlock) -> bool {
    match b {
        AnthropicContentBlock::ToolUse { id, name, input } => c.id matches Some(cid) && cid@ == id@
            && c.tool_name@ == name@ && c.arguments@ == input@,
        _ => false,
    }
}

/// Reads a reply: the text blocks concatenated, one tool call for each
/// tool-use block in order, unknown blocks skipped; input, output and
/// cache-read token counts; and the stop reason.
pub fn parse_response(resp: AnthropicResponse) -> (r: LlmResponse)
    ensures
        r.content@ == reply_text(resp.content@),
        r.tool_calls.len() == reply_tool_uses(resp.content@).len(),
        forall|i: int|
            0 <= i < r.tool_calls.len() ==> call_matches(#[trigger] r.tool_calls@[i], reply_tool_uses(resp.content@)[i]),
        r.usage == (LlmUsage {
            input_tokens: resp.usage.input_tokens,
            output_tokens: resp.usage.output_tokens,
            cached_tokens: resp.usage.cache_read_input_tokens,
        }),
        r.stop_reason == resp.stop_reason,
{
    let ghost blocks = resp.content@;
    let mut content = String::new();
    let mut tool_calls: Vec<LlmToolCall> = Vec::new();
    let mut i: usize = 0;
    while i < resp.content.len()
        invariant
            i <= blocks.len(),
            blocks == resp.content@,
            content@ == reply_text(blocks.take(i as int)),
            tool_calls.len() == reply_tool_uses(blocks.take(i as int)).len(),
            forall|k: int|
                0 <= k < tool_calls.len() ==> call_matches(
                    #[trigger] tool_calls@[k],
                    reply_tool_uses(blocks.take(i as int))[k],
                ),
        decreases blocks.len() - i,
    {
        assert(blocks.take(i + 1).drop_last() =~= blocks.take(i as int));
        assert(blocks.take(i + 1).last() == blocks[i as int]);
        match &resp.content[i] {
            AnthropicContentBlock::Text { text } => {
                content.append(text.as_str());
            },
            AnthropicContentBlock::ToolUse { id, name, input } => {
                tool_calls.push(
                    LlmToolCall { id: Some(id.clone()), tool_name: name.clone(), arguments: input.deep_clone() },
                );
            },
            AnthropicContentBlock::Unknown => {},
        }
        i = i + 1;
    }
    assert(blocks.take(blocks.len() as int) =~= blocks);
    LlmResponse {
        content,
        tool_calls,
        usage: LlmUsage {
            input_tokens: resp.usage.input_tokens,
            output_tokens: resp.usage.output_tokens,
            cached_tokens: resp.usage.cache_read_input_tokens,
        },
        stop_reason: resp.stop_reason,
    }
}

/// The settings of an Anthropic Messages client: its key, endpoint, retry
/// policy and token limit. The host holds the HTTP connection.
#[derive(Debug)]
pub struct AnthropicClient {
    api_key: String,
    url: String,
    retry: RetryConfig,
    max_tokens: u32,
}

impl AnthropicClient {
    pub closed spec fn spec_api_key(&self) -> Seq<char> {
        self.api_key@
    }

    pub closed spec fn spec_url(&self) -> Seq<char> {
        self.url@
    }

    pub closed spec fn spec_retry(&self) -> RetryConfig {
        self.retry
    }

    pub closed spec fn spec_max_tokens(&self) -> u32 {
        self.max_tokens
    }

    /// A client for the public endpoint, with the default retry policy and
    /// at most 4096 tokens per reply.
    pub fn new(api_key: String) -> (r: AnthropicClient)
        ensures
            r.spec_api_key() == api_key@,
            r.spec_url() == "https://api.anthropic.com/v1/messages"@,
            r.spec_retry().max_retries == 3,
            duration_millis(r.spec_retry().base_delay) == 500,
            duration_millis(r.spec_retry().max_delay) == 30_000,
            r.spec_max_tokens() == 4096,
    {
        AnthropicClient {
            url: String::from_str("https://api.anthropic.com/v1/messages"),
            api_key,
            retry: RetryConfig::default(),
            max_tokens: 4096,
        }
    }

    /// The same client, sending to `{base_url}/v1/messages`.
    pub fn with_base_url(self, base_url: String) -> (r: AnthropicClient)
        ensures
            r.spec_url() == base_url@ + "/v1/messages"@,
            r.spec_api_key() == self.spec_api_key(),
            r.spec_retry() == self.spec_retry(),
            r.spec_max_tokens() == self.spec_max_tokens(),
    {
        let mut c = self;
        c.url = base_url.concat("/v1/messages");
        c
    }

    /// The same client, with another retry policy.
    pub fn with_retry(self, retry: RetryConfig) -> (r: AnthropicClient)
        ensures
            r.spec_retry() == retry,
            r.spec_url() == self.spec_url(),
            r.spec_api_key() == self.spec_api_key(),
            r.spec_max_tokens() == self.spec_max_tokens(),
    {
        let mut c = self;
        c.retry = retry;
        c
    }

    /// The same client, with another token limit.
    pub fn with_max_tokens(self, max_tokens: u32) -> (r: AnthropicClient)
        ensures
            r.spec_max_tokens() == max_tokens,
            r.spec_url() == self.spec_url(),
            r.spec_api_key() == self.spec_api_key(),
            r.spec_retry() == self.spec_retry(),
    {
        let mut c = self;
        c.max_tokens = max_tokens;
        c
    }

    /// The endpoint.
    pub fn url(&self) -> (r: &str)
        ensures
            r@ == self.spec_url(),
    {
        self.url.as_str()
    }

    /// The API key.
    pub fn api_key(&self) -> (r: &str)
        ensures
            r@ == self.spec_api_key(),
    {
        self.api_key.as_str()
    }

    /// The retry policy.
    pub fn retry(&self) -> (r: &RetryConfig)
        ensures
            *r == self.spec_retry(),
    {
        &self.retry
    }

    /// The token limit per reply.
    pub fn max_tokens(&self) -> (r: u32)
        ensures
            r == self.spec_max_tokens(),
    {
        self.max_tokens
    }

    /// The request body for a conversation with this client's token limit.
    pub fn request(&self, messages: &[LlmMessage], model: &str, tools: Option<&[ToolDefinition]>) -> (r: AnthropicRequest)
        ensures
            r.model@ == model@,
            r.max_tokens == self.spec_max_tokens(),
            match r.system {
                Some(s) => system_prompt(messages@) == Some(s@),
                None => system_prompt(messages@) is None,
            },
            r.messages.len() == non_system(messages@).len(),
            forall|i: int|
                0 <= i < r.messages.len() ==> message_matches(#[trigger] r.messages@[i], non_system(messages@)[i]),
            tools is None <==> r.tools is None,
            tools matches Some(ts) ==> r.tools matches Some(rt) && rt.len() == ts.len() && (forall|i: int|
                0 <= i < ts.len() ==> tool_matches(#[trigger] rt@[i], ts@[i])),
    {
        build_request(messages, model, tools, self.max_tokens)
    }
}

} // verus!
