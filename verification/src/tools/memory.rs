//! Memory tools: write and search across the two-tier memory.

use vstd::prelude::*;

use crate::executor::{simple_error, ToolExecutionError};
use crate::json::{Json, JsonV};
use crate::text::str_eq;
use crate::tools::schemas::{add_prop, keys_of, lemma_no_entries, object_schema, object_schema_shape, object_schema_v, prop, prop_v, str_views};
use crate::json::{jobj, json_entries_view, jstr, lemma_entries_view, push_entry};
use crate::tools::schemas::{str_array, str_array_v};
use crate::types::{MemoryTier, ToolDefinition};

verus! {

/// The tier a name denotes, if any.
pub open spec fn tier_named(s: Seq<char>) -> Option<MemoryTier> {
    if s == "working"@ {
        Some(MemoryTier::Working)
    } else if s == "persistent"@ {
        Some(MemoryTier::Persistent)
    } else {
        None
    }
}

/// The error message for an unknown tier name.
pub open spec fn invalid_tier_message(s: Seq<char>) -> Seq<char> {
    "invalid tier: "@ + s + ". Must be one of: working, persistent"@
}

/// Parses a tier name: "working" or "persistent".
pub fn parse_tier(s: &str) -> (r: Result<MemoryTier, ToolExecutionError>)
    ensures
        match r {
            Ok(t) => tier_named(s@) == Some(t),
            Err(e) => tier_named(s@) is None && e.message@ == invalid_tier_message(s@)
                && e.remediation_hint is None && !e.is_retryable,
        },
{
    if str_eq(s, "working") {
        Ok(MemoryTier::Working)
    } else if str_eq(s, "persistent") {
        Ok(MemoryTier::Persistent)
    } else {
        let mut msg = String::from_str("invalid tier: ");
        msg.append(s);
        msg.append(". Must be one of: working, persistent");
        Err(simple_error(msg))
    }
}

/// Validated parameters of a `memory_write` call.
#[derive(Debug, Clone)]
pub struct MemoryWriteParams {
    pub tier: MemoryTier,
    pub id: String,
    pub content: String,
}

/// Validated parameters of a `memory_search` call.
#[derive(Debug, Clone)]
pub struct MemorySearchParams {
    pub tier: MemoryTier,
    pub query: String,
    pub limit: usize,
}

/// The message of the error `validate_memory_write` answers, if any: missing
/// tier, id or content, in that order, then an unknown tier name.
pub open spec fn memory_write_error(p: JsonV) -> Option<Seq<char>> {
    if p.get_str("tier"@) is None {
        Some("missing required parameter: tier"@)
    } else if p.get_str("id"@) is None {
        Some("missing required parameter: id"@)
    } else if p.get_str("content"@) is None {
        Some("missing required parameter: content"@)
    } else if tier_named(p.get_str("tier"@)->0) is None {
        Some(invalid_tier_message(p.get_str("tier"@)->0))
    } else {
        None
    }
}

pub fn validate_memory_write(params: &Json) -> (r: Result<MemoryWriteParams, ToolExecutionError>)
    ensures
        match r {
            Ok(p) => {
                &&& memory_write_error(params@) is None
                &&& tier_named(params@.get_str("tier"@)->0) == Some(p.tier)
                &&& params@.get_str("id"@) == Some(p.id@)
                &&& params@.get_str("content"@) == Some(p.content@)
            },
            Err(e) => memory_write_error(params@) == Some(e.message@) && !e.is_retryable,
        },
{
    let tier = match params.get_str("tier") {
        Some(s) => s,
        None => return Err(ToolExecutionError::simple("missing required parameter: tier")),
    };
    let id = match params.get_str("id") {
        Some(s) => s,
        None => return Err(ToolExecutionError::simple("missing required parameter: id")),
    };
    let content = match params.get_str("content") {
        Some(s) => s,
        None => return Err(ToolExecutionError::simple("missing required parameter: content")),
    };
    let tier = parse_tier(tier)?;
    Ok(MemoryWriteParams { tier, id: String::from_str(id), content: String::from_str(content) })
}

/// The result limit a search asks for: its "limit", 10 when absent.
pub open spec fn requested_limit(p: JsonV) -> usize {
    match p.get_u64("limit"@) {
        Some(l) => l as usize,
        None => 10,
    }
}

/// The message of the error `validate_memory_search` answers, if any.
pub open spec fn memory_search_error(p: JsonV) -> Option<Seq<char>> {
    if p.get_str("tier"@) is None {
        Some("missing required parameter: tier"@)
    } else if p.get_str("query"@) is None {
        Some("missing required parameter: query"@)
    } else if tier_named(p.get_str("tier"@)->0) is None {
        Some(invalid_tier_message(p.get_str("tier"@)->0))
    } else {
        None
    }
}

pub fn validate_memory_search(params: &Json) -> (r: Result<MemorySearchParams, ToolExecutionError>)
    ensures
        match r {
            Ok(p) => {
                &&& memory_search_error(params@) is None
                &&& tier_named(params@.get_str("tier"@)->0) == Some(p.tier)
                &&& params@.get_str("query"@) == Some(p.query@)
                &&& p.limit == requested_limit(params@)
            },
            Err(e) => memory_search_error(params@) == Some(e.message@) && !e.is_retryable,
        },
{
    let tier = match params.get_str("tier") {
        Some(s) => s,
        None => return Err(ToolExecutionError::simple("missing required parameter: tier")),
    };
    let query = match params.get_str("query") {
        Some(s) => s,
        None => return Err(ToolExecutionError::simple("missing required parameter: query")),
    };
    let limit: usize = match params.get_u64("limit") {
        Some(l) => l as usize,
        None => 10,
    };
    let tier = parse_tier(tier)?;
    Ok(MemorySearchParams { tier, query: String::from_str(query), limit })
}

/// The properties of `memory_write`.
pub open spec fn memory_write_props_v() -> Seq<(Seq<char>, JsonV)> {
    seq![
        ("tier"@, tier_prop_v("Memory tier to write to"@)),
        ("id"@, prop_v("string"@, "Unique entry ID"@)),
        ("content"@, prop_v("string"@, "Memory content"@)),
    ]
}

/// The properties of `memory_search`.
pub open spec fn memory_search_props_v() -> Seq<(Seq<char>, JsonV)> {
    seq![
        ("tier"@, tier_prop_v("Memory tier to search"@)),
        ("query"@, prop_v("string"@, "Search query"@)),
        ("limit"@, prop_v("number"@, "Maximum number of results (default: 10)"@)),
    ]
}

/// The definitions of the two memory tools.
pub fn memory_tool_definitions() -> (r: Vec<ToolDefinition>)
    ensures
        r.len() == 2,
        r[0].name@ == "memory_write"@,
        r[0].description@ == "Write an entry to a memory tier"@,
        object_schema_shape(r[0].schema@, seq!["tier"@, "id"@, "content"@], seq!["tier"@, "id"@, "content"@]),
        r[0].schema@ == object_schema_v(memory_write_props_v(), seq!["tier"@, "id"@, "content"@]),
        r[1].name@ == "memory_search"@,
        r[1].description@ == "Search for entries in a memory tier using full-text search"@,
        object_schema_shape(r[1].schema@, seq!["tier"@, "query"@, "limit"@], seq!["tier"@, "query"@]),
        r[1].schema@ == object_schema_v(memory_search_props_v(), seq!["tier"@, "query"@]),
{
    let mut defs: Vec<ToolDefinition> = Vec::new();

    let mut p: Vec<(String, Json)> = Vec::new();
    proof {
        lemma_no_entries(p@);
    }
    add_prop(&mut p, "tier", tier_prop("Memory tier to write to"));
    add_prop(&mut p, "id", prop("string", "Unique entry ID"));
    add_prop(&mut p, "content", prop("string", "Memory content"));
    assert(keys_of(p@) =~= seq!["tier"@, "id"@, "content"@]);
    assert(json_entries_view(p@) =~= memory_write_props_v());
    let req = vec!["tier", "id", "content"];
    assert(str_views(req@) =~= seq!["tier"@, "id"@, "content"@]);
    defs.push(ToolDefinition {
        name: String::from_str("memory_write"),
        description: String::from_str("Write an entry to a memory tier"),
        schema: object_schema(p, req),
    });

    let mut p: Vec<(String, Json)> = Vec::new();
    proof {
        lemma_no_entries(p@);
    }
    add_prop(&mut p, "tier", tier_prop("Memory tier to search"));
    add_prop(&mut p, "query", prop("string", "Search query"));
    add_prop(&mut p, "limit", prop("number", "Maximum number of results (default: 10)"));
    assert(keys_of(p@) =~= seq!["tier"@, "query"@, "limit"@]);
    assert(json_entries_view(p@) =~= memory_search_props_v());
    let req = vec!["tier", "query"];
    assert(str_views(req@) =~= seq!["tier"@, "query"@]);
    defs.push(ToolDefinition {
        name: String::from_str("memory_search"),
        description: String::from_str("Search for entries in a memory tier using full-text search"),
        schema: object_schema(p, req),
    });
    defs
}

/// The tier property of the memory tools' schemas.
pub open spec fn tier_prop_v(desc: Seq<char>) -> JsonV {
    JsonV::Object(
        seq![
            ("type"@, JsonV::Str("string"@)),
            ("enum"@, str_array_v(seq!["working"@, "persistent"@])),
            ("description"@, JsonV::Str(desc)),
        ],
    )
}

/// `{"type": "string", "enum": ["working", "persistent"], "description": desc}`.
fn tier_prop(desc: &str) -> (r: Json)
    ensures
        r@ == tier_prop_v(desc@),
{
    let mut e: Vec<(String, Json)> = Vec::new();
    proof {
        lemma_entries_view(e@);
        assert(json_entries_view(e@) =~= Seq::<(Seq<char>, JsonV)>::empty());
    }
    push_entry(&mut e, "type", jstr("string"));
    let tiers = vec!["working", "persistent"];
    assert(str_views(tiers@) =~= seq!["working"@, "persistent"@]);
    push_entry(&mut e, "enum", str_array(tiers));
    push_entry(&mut e, "description", jstr(desc));
    proof {
        lemma_entries_view(e@);
        assert(json_entries_view(e@) =~= seq![
            ("type"@, JsonV::Str("string"@)),
            ("enum"@, str_array_v(seq!["working"@, "persistent"@])),
            ("description"@, JsonV::Str(desc@)),
        ]);
    }
    let r = jobj(e);
    r
}

} // verus!
