//! Domain types shared by the engine components.

use vstd::prelude::*;

use crate::json::{Json, JsonV};

use crate::error::EngineError;
use crate::json_text::hex_digit;

verus! {

/// The two memory tiers of the engine's memory store.
#[derive(Debug, Clone, Copy, PartialEq, Eq, Structural)]
pub enum MemoryTier {
    Working,
    Persistent,
}

/// A tool the model can call: its name, a description and the JSON Schema of
/// its parameters.
#[derive(Debug)]
pub struct ToolDefinition {
    pub name: String,
    pub description: String,
    pub schema: Json,
}

/// The mathematical form of a tool definition.
pub struct ToolDefinitionV {
    pub name: Seq<char>,
    pub description: Seq<char>,
    pub schema: JsonV,
}

impl View for ToolDefinition {
    type V = ToolDefinitionV;

    open spec fn view(&self) -> ToolDefinitionV {
        ToolDefinitionV { name: self.name@, description: self.description@, schema: self.schema@ }
    }
}

impl ToolDefinition {
    pub fn copy(&self) -> (r: ToolDefinition)
        ensures
            r@ == self@,
    {
        ToolDefinition {
            name: self.name.clone(),
            description: self.description.clone(),
            schema: self.schema.deep_clone(),
        }
    }
}

impl Clone for ToolDefinition {
    fn clone(&self) -> (r: ToolDefinition)
        ensures
            r@ == self@,
    {
        self.copy()
    }
}

/// The views of a sequence of tool definitions.
pub open spec fn defs_view(s: Seq<ToolDefinition>) -> Seq<ToolDefinitionV> {
    s.map_values(|d: ToolDefinition| d@)
}

/// One message of a conversation with a model: its role and its text.
#[derive(Debug, Clone)]
pub struct LlmMessage {
    pub role: String,
    pub content: String,
}

/// A tool call the model asked for.
#[derive(Debug)]
pub struct LlmToolCall {
    pub id: Option<String>,
    pub tool_name: String,
    pub arguments: Json,
}

/// Token counts reported for one completion.
#[derive(Debug, Clone, Copy, PartialEq, Eq, Structural)]
pub struct LlmUsage {
    pub input_tokens: u64,
    pub output_tokens: u64,
    pub cached_tokens: u64,
}

/// A completion: its text, the tool calls, the token usage and why the model
/// stopped.
#[derive(Debug)]
pub struct LlmResponse {
    pub content: String,
    pub tool_calls: Vec<LlmToolCall>,
    pub usage: LlmUsage,
    pub stop_reason: Option<String>,
}

/// The identifier of a run: a UUID, held as its 128-bit value.
#[derive(Debug, Clone, Copy, PartialEq, Eq, Hash, Structural)]
pub struct RunId(pub u128);

/// Sixteen to the power `e`.
pub open spec fn pow16(e: nat) -> nat
    decreases e,
{
    if e == 0 { 1 } else { 16 * pow16((e - 1) as nat) }
}

/// The 32 lower-case hexadecimal digits of `v`, most significant first.
pub open spec fn uuid_hex(v: u128) -> Seq<char> {
    Seq::new(32, |k: int| hex_digit(((v as nat) / pow16((31 - k) as nat)) % 16))
}

/// The hyphenated lower-case text of the UUID with value `v`, as `uuid`
/// writes it with `Display`: its 32 hexadecimal digits with hyphens after
/// the 8th, 12th, 16th and 20th.
#[verifier::opaque]
pub open spec fn uuid_text(v: u128) -> Seq<char> {
    let h = uuid_hex(v);
    h.subrange(0, 8) + "-"@ + h.subrange(8, 12) + "-"@ + h.subrange(12, 16) + "-"@ + h.subrange(16, 20) + "-"@
        + h.subrange(20, 32)
}

/// Trusted: writes the run id with `uuid::Uuid::from_u128(..).to_string()`,
/// which is the hyphenated lower-case form that `uuid_text` states.
#[verifier::external_body]
pub fn run_id_text(id: &RunId) -> (r: String)
    ensures
        r@ == uuid_text(id.0),
{
    uuid::Uuid::from_u128(id.0).to_string()
}

/// The value of the UUID written as `text`, as `uuid::Uuid::parse_str`
/// reads it (any of its accepted forms); none where it does not parse.
pub uninterp spec fn uuid_parse(text: Seq<char>) -> Option<u128>;

/// The text of the error that `uuid::Uuid::parse_str` gives for `text`.
pub uninterp spec fn uuid_parse_error(text: Seq<char>) -> Seq<char>;

/// Trusted: reads `s` with `uuid::Uuid::parse_str`, giving the value or
/// the error's `to_string()`; both are named.
#[verifier::external_body]
fn parse_uuid(s: &str) -> (r: Result<u128, String>)
    ensures
        match r {
            Ok(v) => uuid_parse(s@) == Some(v),
            Err(e) => uuid_parse(s@) is None && e@ == uuid_parse_error(s@),
        },
{
    match uuid::Uuid::parse_str(s) {
        Ok(u) => Ok(u.as_u128()),
        Err(e) => Err(e.to_string()),
    }
}

/// The run id written as `s`, if it is a UUID.
pub fn parse_run_id(s: &str) -> (r: Option<RunId>)
    ensures
        r == match uuid_parse(s@) {
            Some(v) => Some(RunId(v)),
            None => None::<RunId>,
        },
{
    match parse_uuid(s) {
        Ok(v) => Some(RunId(v)),
        Err(_) => None,
    }
}

/// The run id stored in the field `what` as `s`; `InvalidState` with the
/// field's name and the parser's message where it is no UUID.
pub fn parse_run_id_field(s: &str, what: &str) -> (r: Result<RunId, EngineError>)
    ensures
        match uuid_parse(s@) {
            Some(v) => r == Ok::<RunId, EngineError>(RunId(v)),
            None => (r matches Err(EngineError::InvalidState(m)) && m@ == what@ + ": "@ + uuid_parse_error(s@)),
        },
{
    match parse_uuid(s) {
        Ok(v) => Ok(RunId(v)),
        Err(e) => Err(EngineError::InvalidState(String::from_str(what).concat(": ").concat(e.as_str()))),
    }
}

/// Trusted: a fresh random (version 4) UUID from `uuid::Uuid::new_v4`.
/// Nothing is claimed of its value.
#[verifier::external_body]
pub fn new_run_id() -> (r: RunId)
{
    RunId(uuid::Uuid::new_v4().as_u128())
}

} // verus!
