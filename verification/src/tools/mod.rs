//! Built-in tools: parameter validation, definitions and routing.

pub mod bash;
pub mod create_skill;
pub mod create_tool;
pub mod file_ops;
pub mod memory;
pub mod schemas;

use vstd::prelude::*;

use crate::executor::ToolExecutionError;
use crate::json::{jobj, jstr, juint, push_entry, json_entries_view, json_seq_view, lemma_seq_view, Json, JsonV, NumV, opt_string_view};
use crate::text::{str_eq, join_strings, seq_join, string_views};
use crate::tools::create_skill::{create_skill_definition, create_skill_error, triggers_of, validate_create_skill_params};
use crate::tools::create_tool::{create_tool_definition, create_tool_error, default_tool_schema, requested_param_passing, validate_create_tool_params};
use crate::tools::memory::{memory_tool_definitions, memory_search_error, memory_write_error, requested_limit, tier_named, validate_memory_search, validate_memory_write};
use crate::tools::schemas::{builtin_tool_definitions, str_array_v};
use crate::types::{MemoryTier, ToolDefinition};

verus! {

/// The name of an engine memory tier.
pub fn tier_str(tier: MemoryTier) -> (r: &'static str)
    ensures
        r@ == tier_name(tier),
{
    match tier {
        MemoryTier::Working => "working",
        MemoryTier::Persistent => "persistent",
    }
}

pub open spec fn tier_name(tier: MemoryTier) -> Seq<char> {
    match tier {
        MemoryTier::Working => "working"@,
        MemoryTier::Persistent => "persistent"@,
    }
}

/// All built-in tool names.
pub const BUILTIN_TOOL_NAMES: [&'static str; 9] = [
    "bash",
    "read_file",
    "write_file",
    "list_directory",
    "search_files",
    "create_tool",
    "create_skill",
    "memory_write",
    "memory_search",
];

/// The built-in tool names, as a sequence.
pub open spec fn builtin_names() -> Seq<Seq<char>> {
    seq![
        "bash"@,
        "read_file"@,
        "write_file"@,
        "list_directory"@,
        "search_files"@,
        "create_tool"@,
        "create_skill"@,
        "memory_write"@,
        "memory_search"@,
    ]
}

/// The built-in tools whose work is done on the host: the shell and the files.
#[derive(Debug, Clone, Copy, PartialEq, Eq, Structural)]
pub enum NativeTool {
    Bash,
    ReadFile,
    WriteFile,
    ListDirectory,
    SearchFiles,
}

/// What a built-in call comes to: host work to perform, or a marker value that
/// the run loop acts on with access to the application context.
#[derive(Debug)]
pub enum BuiltinStep {
    Native(NativeTool),
    Marker(Json),
}

/// The marker answered for a valid `create_tool` call.
pub open spec fn create_tool_marker(p: JsonV) -> JsonV {
    JsonV::Object(seq![
        ("_builtin_action"@, JsonV::Str("create_tool"@)),
        ("name"@, JsonV::Str(p.get_str("name"@)->0)),
        ("description"@, JsonV::Str(p.get_str("description"@)->0)),
        ("schema"@, match p.get("schema"@) { Some(s) => s, None => default_tool_schema() }),
        ("script_path"@, JsonV::Str(p.get_str("script_path"@)->0)),
        ("param_passing"@, JsonV::Str(requested_param_passing(p))),
    ])
}

/// The marker answered for a valid `create_skill` call.
pub open spec fn create_skill_marker(p: JsonV) -> JsonV {
    JsonV::Object(seq![
        ("_builtin_action"@, JsonV::Str("create_skill"@)),
        ("name"@, JsonV::Str(p.get_str("name"@)->0)),
        ("description"@, JsonV::Str(p.get_str("description"@)->0)),
        ("triggers"@, str_array_v(triggers_of(p))),
        ("content"@, JsonV::Str(p.get_str("content"@)->0)),
    ])
}

/// The marker answered for a valid `memory_write` call.
pub open spec fn memory_write_marker(p: JsonV) -> JsonV {
    JsonV::Object(seq![
        ("_builtin_action"@, JsonV::Str("memory_write"@)),
        ("tier"@, JsonV::Str(tier_name(tier_named(p.get_str("tier"@)->0)->0))),
        ("id"@, JsonV::Str(p.get_str("id"@)->0)),
        ("content"@, JsonV::Str(p.get_str("content"@)->0)),
    ])
}

/// The marker answered for a valid `memory_search` call.
pub open spec fn memory_search_marker(p: JsonV) -> JsonV {
    JsonV::Object(seq![
        ("_builtin_action"@, JsonV::Str("memory_search"@)),
        ("tier"@, JsonV::Str(tier_name(tier_named(p.get_str("tier"@)->0)->0))),
        ("query"@, JsonV::Str(p.get_str("query"@)->0)),
        ("limit"@, JsonV::Number(NumV::PosInt(requested_limit(p) as u64))),
    ])
}

/// The marker-producing built-ins: the marker, or the validation error message.
pub open spec fn marker_outcome(name: Seq<char>, p: JsonV) -> Result<JsonV, Seq<char>> {
    if name == "create_tool"@ {
        match create_tool_error(p) { Some(m) => Err(m), None => Ok(create_tool_marker(p)) }
    } else if name == "create_skill"@ {
        match create_skill_error(p) { Some(m) => Err(m), None => Ok(create_skill_marker(p)) }
    } else if name == "memory_write"@ {
        match memory_write_error(p) { Some(m) => Err(m), None => Ok(memory_write_marker(p)) }
    } else {
        match memory_search_error(p) { Some(m) => Err(m), None => Ok(memory_search_marker(p)) }
    }
}

/// The host tool a name denotes, if any.
pub open spec fn native_named(name: Seq<char>) -> Option<NativeTool> {
    if name == "bash"@ {
        Some(NativeTool::Bash)
    } else if name == "read_file"@ {
        Some(NativeTool::ReadFile)
    } else if name == "write_file"@ {
        Some(NativeTool::WriteFile)
    } else if name == "list_directory"@ {
        Some(NativeTool::ListDirectory)
    } else if name == "search_files"@ {
        Some(NativeTool::SearchFiles)
    } else {
        None
    }
}

/// The error message for a name that no built-in has.
pub open spec fn unknown_builtin_message(name: Seq<char>) -> Seq<char> {
    "unknown built-in tool: "@ + name
}

/// The remediation hint for a name that no built-in has.
pub open spec fn unknown_builtin_hint() -> Seq<char> {
    "available built-in tools: "@ + seq_join(builtin_names(), ", "@)
}

/// Built-in tool executor that handles native tools directly.
#[derive(Debug, Default)]
pub struct BuiltinExecutor;

impl BuiltinExecutor {
    /// Whether `tool_name` names a built-in tool.
    pub fn handles(&self, tool_name: &str) -> (r: bool)
        ensures
            r == builtin_names().contains(tool_name@),
    {
        let r = str_eq(tool_name, "bash") || str_eq(tool_name, "read_file") || str_eq(tool_name, "write_file")
            || str_eq(tool_name, "list_directory") || str_eq(tool_name, "search_files")
            || str_eq(tool_name, "create_tool") || str_eq(tool_name, "create_skill")
            || str_eq(tool_name, "memory_write") || str_eq(tool_name, "memory_search");
        proof {
            let names = builtin_names();
            if r {
                if tool_name@ == "bash"@ { assert(names[0] == tool_name@); }
                if tool_name@ == "read_file"@ { assert(names[1] == tool_name@); }
                if tool_name@ == "write_file"@ { assert(names[2] == tool_name@); }
                if tool_name@ == "list_directory"@ { assert(names[3] == tool_name@); }
                if tool_name@ == "search_files"@ { assert(names[4] == tool_name@); }
                if tool_name@ == "create_tool"@ { assert(names[5] == tool_name@); }
                if tool_name@ == "create_skill"@ { assert(names[6] == tool_name@); }
                if tool_name@ == "memory_write"@ { assert(names[7] == tool_name@); }
                if tool_name@ == "memory_search"@ { assert(names[8] == tool_name@); }
            } else {
                assert(!names.contains(tool_name@)) by {
                    if names.contains(tool_name@) {
                        let k = choose|k: int| 0 <= k < names.len() && names[k] == tool_name@;
                        assert(0 <= k < 9);
                    }
                }
            }
        }
        r
    }

    /// Routes a built-in call: host tools are handed back for the host to run;
    /// the stateful tools validate their parameters and answer a marker.
    pub fn route(&self, tool_name: &str, parameters: &Json) -> (r: Result<BuiltinStep, ToolExecutionError>)
        ensures
            native_named(tool_name@) is Some ==> (r matches Ok(BuiltinStep::Native(t)) && Some(t) == native_named(tool_name@)),
            native_named(tool_name@) is None && builtin_names().contains(tool_name@) ==> match r {
                Ok(BuiltinStep::Marker(m)) => marker_outcome(tool_name@, parameters@) == Ok::<JsonV, Seq<char>>(m@),
                Ok(BuiltinStep::Native(_)) => false,
                Err(e) => marker_outcome(tool_name@, parameters@) == Err::<JsonV, Seq<char>>(e.message@) && !e.is_retryable,
            },
            !builtin_names().contains(tool_name@) ==> (r matches Err(e) && e.message@ == unknown_builtin_message(tool_name@)
                && opt_string_view(e.remediation_hint) == Some(unknown_builtin_hint()) && !e.is_retryable),
    {
        proof {
            let names = builtin_names();
            assert(names[0] == "bash"@);
            assert(names[1] == "read_file"@);
            assert(names[2] == "write_file"@);
            assert(names[3] == "list_directory"@);
            assert(names[4] == "search_files"@);
            assert(names[5] == "create_tool"@);
            assert(names[6] == "create_skill"@);
            assert(names[7] == "memory_write"@);
            assert(names[8] == "memory_search"@);
        }
        if str_eq(tool_name, "bash") {
            Ok(BuiltinStep::Native(NativeTool::Bash))
        } else if str_eq(tool_name, "read_file") {
            Ok(BuiltinStep::Native(NativeTool::ReadFile))
        } else if str_eq(tool_name, "write_file") {
            Ok(BuiltinStep::Native(NativeTool::WriteFile))
        } else if str_eq(tool_name, "list_directory") {
            Ok(BuiltinStep::Native(NativeTool::ListDirectory))
        } else if str_eq(tool_name, "search_files") {
            Ok(BuiltinStep::Native(NativeTool::SearchFiles))
        } else if str_eq(tool_name, "create_tool") {
            let p = validate_create_tool_params(parameters)?;
            let mut e: Vec<(String, Json)> = Vec::new();
            push_entry(&mut e, "_builtin_action", jstr("create_tool"));
            push_entry(&mut e, "name", Json::Str(p.name));
            push_entry(&mut e, "description", Json::Str(p.description));
            push_entry(&mut e, "schema", p.schema);
            push_entry(&mut e, "script_path", Json::Str(p.script_path));
            push_entry(&mut e, "param_passing", Json::Str(p.param_passing));
            assert(json_entries_view(e@) =~= create_tool_marker(parameters@)->Object_0);
            let m = jobj(e);
            Ok(BuiltinStep::Marker(m))
        } else if str_eq(tool_name, "create_skill") {
            let p = validate_create_skill_params(parameters)?;
            let mut e: Vec<(String, Json)> = Vec::new();
            push_entry(&mut e, "_builtin_action", jstr("create_skill"));
            push_entry(&mut e, "name", Json::Str(p.name));
            push_entry(&mut e, "description", Json::Str(p.description));
            push_entry(&mut e, "triggers", strings_array(p.triggers));
            push_entry(&mut e, "content", Json::Str(p.content));
            assert(json_entries_view(e@) =~= create_skill_marker(parameters@)->Object_0);
            let m = jobj(e);
            Ok(BuiltinStep::Marker(m))
        } else if str_eq(tool_name, "memory_write") {
            let p = validate_memory_write(parameters)?;
            let mut e: Vec<(String, Json)> = Vec::new();
            push_entry(&mut e, "_builtin_action", jstr("memory_write"));
            push_entry(&mut e, "tier", jstr(tier_str(p.tier)));
            push_entry(&mut e, "id", Json::Str(p.id));
            push_entry(&mut e, "content", Json::Str(p.content));
            assert(json_entries_view(e@) =~= memory_write_marker(parameters@)->Object_0);
            let m = jobj(e);
            Ok(BuiltinStep::Marker(m))
        } else if str_eq(tool_name, "memory_search") {
            let p = validate_memory_search(parameters)?;
            let mut e: Vec<(String, Json)> = Vec::new();
            push_entry(&mut e, "_builtin_action", jstr("memory_search"));
            push_entry(&mut e, "tier", jstr(tier_str(p.tier)));
            push_entry(&mut e, "query", Json::Str(p.query));
            push_entry(&mut e, "limit", juint(p.limit as u64));
            assert(json_entries_view(e@) =~= memory_search_marker(parameters@)->Object_0);
            let m = jobj(e);
            Ok(BuiltinStep::Marker(m))
        } else {
            proof {
                assert(!builtin_names().contains(tool_name@)) by {
                    if builtin_names().contains(tool_name@) {
                        let k = choose|k: int| 0 <= k < 9 && builtin_names()[k] == tool_name@;
                        assert(0 <= k < 9);
                    }
                }
            }
            let mut msg = String::from_str("unknown built-in tool: ");
            msg.append(tool_name);
            Err(ToolExecutionError {
                message: msg,
                remediation_hint: Some(unknown_builtin_hint_text()),
                is_retryable: false,
            })
        }
    }
}

/// The built-in tool names, as owned strings.
pub fn builtin_name_list() -> (r: Vec<String>)
    ensures
        string_views(r@) == builtin_names(),
{
    let mut v: Vec<String> = Vec::new();
    v.push(String::from_str("bash"));
    v.push(String::from_str("read_file"));
    v.push(String::from_str("write_file"));
    v.push(String::from_str("list_directory"));
    v.push(String::from_str("search_files"));
    v.push(String::from_str("create_tool"));
    v.push(String::from_str("create_skill"));
    v.push(String::from_str("memory_write"));
    v.push(String::from_str("memory_search"));
    assert(string_views(v@) =~= builtin_names());
    v
}

fn unknown_builtin_hint_text() -> (r: String)
    ensures
        r@ == unknown_builtin_hint(),
{
    let names = builtin_name_list();
    let mut h = String::from_str("available built-in tools: ");
    let joined = join_strings(names.as_slice(), ", ");
    h.append(joined.as_str());
    h
}

/// A JSON array holding the given strings.
pub fn strings_array(v: Vec<String>) -> (r: Json)
    ensures
        r@ == str_array_v(string_views(v@)),
{
    let mut out: Vec<Json> = Vec::new();
    let mut i: usize = 0;
    while i < v.len()
        invariant
            i <= v.len(),
            out.len() == i,
            forall|k: int| 0 <= k < i ==> #[trigger] out@[k]@ == JsonV::Str(v@[k]@),
        decreases v.len() - i,
    {
        out.push(Json::Str(v[i].clone()));
        i = i + 1;
    }
    proof {
        lemma_seq_view(out@);
        let target = str_array_v(string_views(v@))->Array_0;
        assert forall|k: int| 0 <= k < out.len() implies #[trigger] json_seq_view(out@)[k] == target[k] by {
            assert(json_seq_view(out@)[k] == out@[k]@);
        }
        assert(json_seq_view(out@) =~= target);
    }
    Json::Array(out)
}

/// Every built-in tool definition: the five basic tools, `create_tool`,
/// `create_skill`, then the two memory tools, named as the built-in names
/// in order.
pub fn all_builtin_definitions() -> (r: Vec<ToolDefinition>)
    ensures
        r.len() == 9,
        forall|i: int| 0 <= i < 9 ==> (#[trigger] r@[i]).name@ == builtin_names()[i],
{
    let mut defs = builtin_tool_definitions();
    let ghost basic = defs@;
    defs.push(create_tool_definition());
    defs.push(create_skill_definition());
    let mut mem = memory_tool_definitions();
    let ghost m = mem@;
    defs.append(&mut mem);
    proof {
        assert(defs@[0] == basic[0]);
        assert(defs@[1] == basic[1]);
        assert(defs@[2] == basic[2]);
        assert(defs@[3] == basic[3]);
        assert(defs@[4] == basic[4]);
        assert(defs@[7] == m[0]);
        assert(defs@[8] == m[1]);
    }
    defs
}

} // verus!
