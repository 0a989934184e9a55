//! OpenAI-compatible chat completions API (Groq, OpenAI, Together, ...):
//! request building and response reading. The host sends the request and
//! decodes the reply.

use vstd::prelude::*;

use crate::error::EngineError;
use crate::http::{post_step, post_step_spec, PostReply, PostStep};
use crate::json::Json;
use crate::llm::RetryConfig;
use crate::text::{trim_end_char, trim_end_matches_char};
use crate::time::duration_millis;
use crate::types::{LlmMessage, LlmResponse, LlmToolCall, LlmUsage, ToolDefinition};

verus! {

/// Whether an OpenAI-compatible API asks to be retried with this status:
/// rate limited, internal error or unavailable.
pub open spec fn openai_retryable(status: u16) -> bool {
    status == 429 || status == 500 || status == 503
}

/// Whether a reply with this status is worth another attempt.
pub fn is_retryable_status(status: u16) -> (r: bool)
    ensures
        r == openai_retryable(status),
{
    status == 429 || status == 500 || status == 503
}

/// The step after an attempt at an OpenAI-compatible API; `envelope` is the
/// `error.message` of the reply's body where it holds one.
pub fn next_step(attempt: u32, max_retries: u32, reply: PostReply, envelope: Option<String>) -> (r: PostStep)
    ensures
        r == post_step_spec(
            attempt,
            max_retries,
            reply,
            match reply {
                PostReply::Status { status, .. } => openai_retryable(status),
                PostReply::SendFailed(_) => true,
            },
            envelope,
        ),
        r is Retry ==> attempt < max_retries,
        reply matches PostReply::SendFailed(m) ==> (if attempt < max_retries {
            r == PostStep::Retry(EngineError::Http(m))
        } else {
            r == PostStep::Fail(EngineError::Http(m))
        }),
{
    let retryable = match &reply {
        PostReply::Status { status, .. } => is_retryable_status(*status),
        PostReply::SendFailed(_) => true,
    };
    post_step(attempt, max_retries, reply, retryable, envelope)
}

/// At an OpenAI-compatible API, rate limiting (429), a server error (500)
/// and an unavailable service (503) are tried again while retries are left,
/// with the status and body as the error; any other status but 200 ends
/// the call at once with the error envelope's message, or the body.
pub proof fn lemma_openai_steps(attempt: u32, max_retries: u32, status: u16, body: String, envelope: Option<String>)
    requires
        status != 200,
    ensures
        ({
            let reply = PostReply::Status { status, body };
            let r = post_step_spec(attempt, max_retries, reply, openai_retryable(status), envelope);
            &&& (status == 429 || status == 500 || status == 503) && attempt < max_retries
                ==> r == PostStep::Retry(EngineError::LlmApi { status, message: body })
            &&& !(status == 429 || status == 500 || status == 503) ==> r == PostStep::Fail(
                EngineError::LlmApi {
                    status,
                    message: match envelope {
                        Some(m) => m,
                        None => body,
                    },
                },
            )
        }),
{
}

/// One message of a chat request.
#[derive(Debug)]
pub struct OaiMessage {
    pub role: String,
    pub content: String,
}

/// The function part of an offered tool.
#[derive(Debug)]
pub struct OaiFunction {
    pub name: String,
    pub description: String,
    pub parameters: Json,
}

/// One tool offered in a chat request; its type is always `function`.
#[derive(Debug)]
pub struct OaiTool {
    pub tool_type: String,
    pub function: OaiFunction,
}

/// The body of a chat completions request.
#[derive(Debug)]
pub struct OaiRequest {
    pub model: String,
    pub max_tokens: u32,
    pub messages: Vec<OaiMessage>,
    pub tools: Option<Vec<OaiTool>>,
}

/// An API tool carries the name, description and schema of a definition.
pub open spec fn oai_tool_matches(a: OaiTool, d: ToolDefinition) -> bool {
    &&& a.tool_type@ == "function"@
    &&& a.function.name@ == d.name@
    &&& a.function.description@ == d.description@
    &&& a.function.parameters@ == d.schema@
}

/// The request body for a conversation: the model and token limit as given,
/// every message in order (system messages stay inline), and one `function`
/// tool for each definition where tools are given.
pub fn build_request(
    messages: &[LlmMessage],
    model: &str,
    tools: Option<&[ToolDefinition]>,
    max_tokens: u32,
) -> (r: OaiRequest)
    ensures
        r.model@ == model@,
        r.max_tokens == max_tokens,
        r.messages.len() == messages.len(),
        forall|i: int|
            0 <= i < messages.len() ==> (#[trigger] r.messages@[i]).role@ == messages@[i].role@
                && r.messages@[i].content@ == messages@[i].content@,
        tools is None <==> r.tools is None,
        tools matches Some(ts) ==> r.tools matches Some(rt) && rt.len() == ts.len() && (forall|i: int|
            0 <= i < ts.len() ==> oai_tool_matches(#[trigger] rt@[i], ts@[i])),
{
    let mut api_messages: Vec<OaiMessage> = Vec::new();
    let mut i: usize = 0;
    while i < messages.len()
        invariant
            i <= messages.len(),
            api_messages.len() == i,
            forall|k: int|
                0 <= k < i ==> (#[trigger] api_messages@[k]).role@ == messages@[k].role@
                    && api_messages@[k].content@ == messages@[k].content@,
        decreases messages.len() - i,
    {
        let m = &messages[i];
        api_messages.push(OaiMessage { role: m.role.clone(), content: m.content.clone() });
        i = i + 1;
    }
    let api_tools = match tools {
        Some(ts) => {
            let mut out: Vec<OaiTool> = Vec::new();
            let mut j: usize = 0;
            while j < ts.len()
                invariant
                    j <= ts.len(),
                    out.len() == j,
                    forall|k: int| 0 <= k < j ==> oai_tool_matches(#[trigger] out@[k], ts@[k]),
                decreases ts.len() - j,
            {
                let d = &ts[j];
                out.push(
                    OaiTool {
                        tool_type: String::from_str("function"),
                        function: OaiFunction {
                            name: d.name.clone(),
                            description: d.description.clone(),
                            parameters: d.schema.deep_clone(),
                        },
                    },
                );
                j = j + 1;
            }
            Some(out)
        },
        None => None,
    };
    OaiRequest { model: String::from_str(model), max_tokens, messages: api_messages, tools: api_tools }
}

/// The function part of a requested tool call; the host decodes its
/// argument text as JSON, and holds `null` where the text is no JSON.
#[derive(Debug)]
pub struct OaiToolCallFunction {
    pub name: String,
    pub arguments: Json,
}

/// A tool call of a reply.
#[derive(Debug)]
pub struct OaiToolCall {
    pub id: String,
    pub function: OaiToolCallFunction,
}

/// The message of a reply's choice.
#[derive(Debug)]
pub struct OaiResponseMessage {
    pub content: Option<String>,
    pub tool_calls: Option<Vec<OaiToolCall>>,
}

/// One choice of a reply.
#[derive(Debug)]
pub struct OaiChoice {
    pub message: OaiResponseMessage,
    pub finish_reason: Option<String>,
}

/// The cached part of the prompt tokens.
#[derive(Debug, Clone, Copy)]
pub struct OaiPromptTokensDetails {
    pub cached_tokens: u64,
}

/// The token counts of a reply.
#[derive(Debug, Clone, Copy)]
pub struct OaiUsage {
    pub prompt_tokens: u64,
    pub completion_tokens: u64,
    pub prompt_tokens_details: Option<OaiPromptTokensDetails>,
}

/// A decoded chat completions reply.
#[derive(Debug)]
pub struct OaiResponse {
    pub choices: Vec<OaiChoice>,
    pub usage: OaiUsage,
}

/// A tool call carries the id, name and arguments of a reply's call.
pub open spec fn oai_call_matches(c: LlmToolCall, t: OaiToolCall) -> bool {
    c.id matches Some(cid) && cid@ == t.id@ && c.tool_name@ == t.function.name@ && c.arguments@
        == t.function.arguments@
}

/// The tool calls of a reply's message: none where it names none.
pub open spec fn message_calls(m: OaiResponseMessage) -> Seq<OaiToolCall> {
    match m.tool_calls {
        Some(v) => v@,
        None => Seq::empty(),
    }
}

/// Reads a reply from its first choice: the message text (empty where it
/// has none), one tool call per requested call in order, and the finish
/// reason; with no choice, empty text, no calls and no reason. The usage is
/// the prompt and completion token counts, with the cached tokens where
/// reported and zero otherwise.
pub fn parse_response(resp: OaiResponse) -> (r: LlmResponse)
    ensures
        resp.choices.len() == 0 ==> r.content@ == Seq::<char>::empty() && r.tool_calls.len() == 0
            && r.stop_reason is None,
        resp.choices.len() > 0 ==> {
            let c = resp.choices@[0];
            &&& r.content@ == (match c.message.content {
                Some(t) => t@,
                None => Seq::<char>::empty(),
            })
            &&& r.tool_calls.len() == message_calls(c.message).len()
            &&& forall|i: int|
                0 <= i < r.tool_calls.len() ==> oai_call_matches(
                    #[trigger] r.tool_calls@[i],
                    message_calls(c.message)[i],
                )
            &&& r.stop_reason == c.finish_reason
        },
        r.usage == (LlmUsage {
            input_tokens: resp.usage.prompt_tokens,
            output_tokens: resp.usage.completion_tokens,
            cached_tokens: match resp.usage.prompt_tokens_details {
                Some(d) => d.cached_tokens,
                None => 0,
            },
        }),
{
    let cached = match resp.usage.prompt_tokens_details {
        Some(d) => d.cached_tokens,
        None => 0,
    };
    let usage = LlmUsage {
        input_tokens: resp.usage.prompt_tokens,
        output_tokens: resp.usage.completion_tokens,
        cached_tokens: cached,
    };
    if resp.choices.len() == 0 {
        return LlmResponse { content: String::new(), tool_calls: Vec::new(), usage, stop_reason: None };
    }
    let c = &resp.choices[0];
    let content = match &c.message.content {
        Some(t) => t.clone(),
        None => String::new(),
    };
    let mut tool_calls: Vec<LlmToolCall> = Vec::new();
    match &c.message.tool_calls {
        Some(calls) => {
            let mut i: usize = 0;
            while i < calls.len()
                invariant
                    i <= calls.len(),
                    tool_calls.len() == i,
                    forall|k: int| 0 <= k < i ==> oai_call_matches(#[trigger] tool_calls@[k], calls@[k]),
                decreases calls.len() - i,
            {
                let t = &calls[i];
                tool_calls.push(
                    LlmToolCall {
                        id: Some(t.id.clone()),
                        tool_name: t.function.name.clone(),
                        arguments: t.function.arguments.deep_clone(),
                    },
                );
                i = i + 1;
            }
        },
        None => {},
    }
    let stop_reason = match &c.finish_reason {
        Some(f) => Some(f.clone()),
        None => None,
    };
    LlmResponse { content, tool_calls, usage, stop_reason }
}

/// The settings of an OpenAI-compatible client: its key, endpoint, retry
/// policy and token limit. The host holds the HTTP connection.
#[derive(Debug)]
pub struct OpenAiClient {
    api_key: String,
    url: String,
    retry: RetryConfig,
    max_tokens: u32,
}

/// The chat completions endpoint under a base URL: the base without its
/// trailing slashes, then `/chat/completions`.
pub open spec fn completions_url(base_url: Seq<char>) -> Seq<char> {
    trim_end_char(base_url, '/') + "/chat/completions"@
}

impl OpenAiClient {
    pub closed spec fn spec_api_key(&self) -> Seq<char> {
        self.api_key@
    }

    pub closed spec fn spec_url(&self) -> Seq<char> {
        self.url@
    }

    pub closed spec fn spec_retry(&self) -> RetryConfig {
        self.retry
    }

    pub closed spec fn spec_max_tokens(&self) -> u32 {
        self.max_tokens
    }

    /// A client for the endpoint under `base_url`, with the default retry
    /// policy and at most 4096 tokens per reply.
    pub fn new(api_key: String, base_url: String) -> (r: OpenAiClient)
        ensures
            r.spec_api_key() == api_key@,
            r.spec_url() == completions_url(base_url@),
            r.spec_retry().max_retries == 3,
            duration_millis(r.spec_retry().base_delay) == 500,
            duration_millis(r.spec_retry().max_delay) == 30_000,
            r.spec_max_tokens() == 4096,
    {
        let url = trim_end_matches_char(base_url.as_str(), '/').concat("/chat/completions");
        OpenAiClient { api_key, url, retry: RetryConfig::default(), max_tokens: 4096 }
    }

    /// A client for Groq's OpenAI-compatible endpoint.
    pub fn groq(api_key: String) -> (r: OpenAiClient)
        ensures
            r.spec_api_key() == api_key@,
            r.spec_url() == "https://api.groq.com/openai/v1/chat/completions"@,
            r.spec_retry().max_retries == 3,
            r.spec_max_tokens() == 4096,
    {
        let base = String::from_str("https://api.groq.com/openai/v1");
        proof {
            reveal_strlit("https://api.groq.com/openai/v1");
            reveal_strlit("/chat/completions");
            reveal_strlit("https://api.groq.com/openai/v1/chat/completions");
            assert(base@.last() == '1');
            assert(trim_end_char(base@, '/') == base@);
            assert(base@ + "/chat/completions"@ =~= "https://api.groq.com/openai/v1/chat/completions"@);
        }
        OpenAiClient::new(api_key, base)
    }

    /// The same client, with another retry policy.
    pub fn with_retry(self, retry: RetryConfig) -> (r: OpenAiClient)
        ensures
            r.spec_retry() == retry,
            r.spec_url() == self.spec_url(),
            r.spec_api_key() == self.spec_api_key(),
            r.spec_max_tokens() == self.spec_max_tokens(),
    {
        let mut c = self;
        c.retry = retry;
        c
    }

    /// The same client, with another token limit.
    pub fn with_max_tokens(self, max_tokens: u32) -> (r: OpenAiClient)
        ensures
            r.spec_max_tokens() == max_tokens,
            r.spec_url() == self.spec_url(),
            r.spec_api_key() == self.spec_api_key(),
            r.spec_retry() == self.spec_retry(),
    {
        let mut c = self;
        c.max_tokens = max_tokens;
        c
    }

    /// The endpoint.
    pub fn url(&self) -> (r: &str)
        ensures
            r@ == self.spec_url(),
    {
        self.url.as_str()
    }

    /// The API key.
    pub fn api_key(&self) -> (r: &str)
        ensures
            r@ == self.spec_api_key(),
    {
        self.api_key.as_str()
    }

    /// The retry policy.
    pub fn retry(&self) -> (r: &RetryConfig)
        ensures
            *r == self.spec_retry(),
    {
        &self.retry
    }

    /// The request body for a conversation with this client's token limit.
    pub fn request(&self, messages: &[LlmMessage], model: &str, tools: Option<&[ToolDefinition]>) -> (r: OaiRequest)
        ensures
            r.model@ == model@,
            r.max_tokens == self.spec_max_tokens(),
            r.messages.len() == messages.len(),
            forall|i: int|
                0 <= i < messages.len() ==> (#[trigger] r.messages@[i]).role@ == messages@[i].role@
                    && r.messages@[i].content@ == messages@[i].content@,
            tools is None <==> r.tools is None,
            tools matches Some(ts) ==> r.tools matches Some(rt) && rt.len() == ts.len() && (forall|i: int|
                0 <= i < ts.len() ==> oai_tool_matches(#[trigger] rt@[i], ts@[i])),
    {
        build_request(messages, model, tools, self.max_tokens)
    }
}

} // verus!
