//! `create_tool` built-in: the agent registers a new tool backed by a script.

use vstd::prelude::*;

use crate::executor::{simple_error, ToolExecutionError};
use crate::json::{jobj, json_entries_view, jstr, push_entry, Json, JsonV};
use crate::tools::schemas::{add_prop, keys_of, lemma_no_entries, object_schema, object_schema_shape, object_schema_v, prop, prop_v, str_array, str_array_v, str_views};
use crate::text::str_eq;
use crate::types::ToolDefinition;

verus! {

/// Validated parameters of a `create_tool` call.
#[derive(Debug, Clone)]
pub struct CreateToolParams {
    pub name: String,
    pub description: String,
    pub schema: Json,
    pub script_path: String,
    pub param_passing: String,
}

/// The schema used when the call gives none: `{"type": "object"}`.
pub open spec fn default_tool_schema() -> JsonV {
    JsonV::Object(seq![("type"@, JsonV::Str("object"@))])
}

/// The parameter-passing modes a dynamic tool may use.
pub open spec fn is_param_passing_mode(s: Seq<char>) -> bool {
    s == "stdin"@ || s == "json_arg"@ || s == "cli_flags"@
}

/// The `param_passing` a call asks for; "stdin" when absent or not a string.
pub open spec fn requested_param_passing(p: JsonV) -> Seq<char> {
    match p.get_str("param_passing"@) {
        Some(s) => s,
        None => "stdin"@,
    }
}

/// The error message for an unknown parameter-passing mode.
pub open spec fn invalid_param_passing_message(s: Seq<char>) -> Seq<char> {
    "invalid param_passing: "@ + s + ". Must be one of: stdin, json_arg, cli_flags"@
}

/// The message of the error `validate_create_tool_params` answers, if any,
/// checking name, description and script_path in that order, then the mode.
pub open spec fn create_tool_error(p: JsonV) -> Option<Seq<char>> {
    if p.get_str("name"@) is None {
        Some("missing required parameter: name"@)
    } else if p.get_str("description"@) is None {
        Some("missing required parameter: description"@)
    } else if p.get_str("script_path"@) is None {
        Some("missing required parameter: script_path"@)
    } else if !is_param_passing_mode(requested_param_passing(p)) {
        Some(invalid_param_passing_message(requested_param_passing(p)))
    } else {
        None
    }
}

fn default_schema() -> (r: Json)
    ensures
        r@ == default_tool_schema(),
{
    let mut e: Vec<(String, Json)> = Vec::new();
    push_entry(&mut e, "type", jstr("object"));
    jobj(e)
}

/// Checks the parameters of a `create_tool` call.
pub fn validate_create_tool_params(parameters: &Json) -> (r: Result<CreateToolParams, ToolExecutionError>)
    ensures
        match r {
            Ok(p) => {
                &&& create_tool_error(parameters@) is None
                &&& parameters@.get_str("name"@) == Some(p.name@)
                &&& parameters@.get_str("description"@) == Some(p.description@)
                &&& parameters@.get_str("script_path"@) == Some(p.script_path@)
                &&& p.param_passing@ == requested_param_passing(parameters@)
                &&& p.schema@ == (match parameters@.get("schema"@) {
                    Some(s) => s,
                    None => default_tool_schema(),
                })
            },
            Err(e) => {
                &&& create_tool_error(parameters@) == Some(e.message@)
                &&& e.remediation_hint is None
                &&& !e.is_retryable
            },
        },
{
    let name = match parameters.get_str("name") {
        Some(s) => String::from_str(s),
        None => return Err(ToolExecutionError::simple("missing required parameter: name")),
    };
    let description = match parameters.get_str("description") {
        Some(s) => String::from_str(s),
        None => return Err(ToolExecutionError::simple("missing required parameter: description")),
    };
    let schema = match parameters.get("schema") {
        Some(s) => s.deep_clone(),
        None => default_schema(),
    };
    let script_path = match parameters.get_str("script_path") {
        Some(s) => String::from_str(s),
        None => return Err(ToolExecutionError::simple("missing required parameter: script_path")),
    };
    let param_passing = match parameters.get_str("param_passing") {
        Some(s) => String::from_str(s),
        None => String::from_str("stdin"),
    };
    let pp = param_passing.as_str();
    if !(str_eq(pp, "stdin") || str_eq(pp, "json_arg") || str_eq(pp, "cli_flags")) {
        let mut msg = String::from_str("invalid param_passing: ");
        msg.append(pp);
        msg.append(". Must be one of: stdin, json_arg, cli_flags");
        return Err(simple_error(msg));
    }
    Ok(CreateToolParams { name, description, schema, script_path, param_passing })
}


/// The `param_passing` property of `create_tool`.
pub open spec fn param_passing_prop_v() -> JsonV {
    JsonV::Object(
        seq![
            ("type"@, JsonV::Str("string"@)),
            ("description"@, JsonV::Str("How to pass params: stdin (default), json_arg, cli_flags"@)),
            ("enum"@, str_array_v(seq!["stdin"@, "json_arg"@, "cli_flags"@])),
        ],
    )
}

/// The properties of `create_tool`.
pub open spec fn create_tool_props_v() -> Seq<(Seq<char>, JsonV)> {
    seq![
        ("name"@, prop_v("string"@, "Unique tool name"@)),
        ("description"@, prop_v("string"@, "What the tool does"@)),
        ("schema"@, prop_v("object"@, "JSON Schema for tool parameters (optional)"@)),
        ("script_path"@, prop_v("string"@, "Path to the executable script"@)),
        ("param_passing"@, param_passing_prop_v()),
    ]
}

/// The definition of the `create_tool` built-in.
pub fn create_tool_definition() -> (r: ToolDefinition)
    ensures
        r.name@ == "create_tool"@,
        r.description@ == "Create a new tool by registering a script. The tool will be available in subsequent turns."@,
        object_schema_shape(
            r.schema@,
            seq!["name"@, "description"@, "schema"@, "script_path"@, "param_passing"@],
            seq!["name"@, "description"@, "script_path"@],
        ),
        r.schema@ == object_schema_v(create_tool_props_v(), seq!["name"@, "description"@, "script_path"@]),
{
    let mut p: Vec<(String, Json)> = Vec::new();
    proof {
        lemma_no_entries(p@);
    }
    add_prop(&mut p, "name", prop("string", "Unique tool name"));
    add_prop(&mut p, "description", prop("string", "What the tool does"));
    add_prop(&mut p, "schema", prop("object", "JSON Schema for tool parameters (optional)"));
    add_prop(&mut p, "script_path", prop("string", "Path to the executable script"));
    let mut pp: Vec<(String, Json)> = Vec::new();
    proof {
        lemma_no_entries(pp@);
    }
    push_entry(&mut pp, "type", jstr("string"));
    push_entry(&mut pp, "description", jstr("How to pass params: stdin (default), json_arg, cli_flags"));
    let modes = vec!["stdin", "json_arg", "cli_flags"];
    assert(str_views(modes@) =~= seq!["stdin"@, "json_arg"@, "cli_flags"@]);
    push_entry(&mut pp, "enum", str_array(modes));
    let ppj = jobj(pp);
    assert(ppj@ =~= param_passing_prop_v()) by {
        assert(json_entries_view(pp@) =~= seq![
            ("type"@, JsonV::Str("string"@)),
            ("description"@, JsonV::Str("How to pass params: stdin (default), json_arg, cli_flags"@)),
            ("enum"@, str_array_v(seq!["stdin"@, "json_arg"@, "cli_flags"@])),
        ]);
    }
    add_prop(&mut p, "param_passing", ppj);
    assert(json_entries_view(p@) =~= create_tool_props_v());
    assert(keys_of(p@) =~= seq!["name"@, "description"@, "schema"@, "script_path"@, "param_passing"@]);
    let req = vec!["name", "description", "script_path"];
    assert(str_views(req@) =~= seq!["name"@, "description"@, "script_path"@]);
    ToolDefinition {
        name: String::from_str("create_tool"),
        description: String::from_str(
            "Create a new tool by registering a script. The tool will be available in subsequent turns.",
        ),
        schema: object_schema(p, req),
    }
}

} // verus!
