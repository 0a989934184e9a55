//! `create_skill` built-in: the agent writes a skill as Markdown with YAML frontmatter.

use vstd::prelude::*;

use crate::executor::ToolExecutionError;
use crate::json::{json_entries_view, json_seq_view, lemma_seq_view, Json, JsonV};
use crate::text::{join_strings, seq_join, string_views};
use crate::json::{jobj, jstr, push_entry};
use crate::tools::schemas::{add_prop, keys_of, lemma_no_entries, object_schema, object_schema_shape, object_schema_v, prop, prop_v, str_views};
use crate::types::ToolDefinition;

verus! {

/// Validated parameters of a `create_skill` call.
#[derive(Debug, Clone)]
pub struct CreateSkillParams {
    pub name: String,
    pub description: String,
    pub triggers: Vec<String>,
    pub content: String,
}

/// The strings among `items`, in order; other items are skipped.
pub open spec fn string_items(items: Seq<JsonV>) -> Seq<Seq<char>>
    decreases items.len(),
{
    if items.len() == 0 {
        Seq::empty()
    } else {
        string_items(items.drop_last()) + match items.last() {
            JsonV::Str(s) => seq![s],
            _ => Seq::empty(),
        }
    }
}

/// The triggers a value names: the strings of its "triggers" array, or none.
pub open spec fn triggers_of(val: JsonV) -> Seq<Seq<char>> {
    match val.get("triggers"@) {
        Some(JsonV::Array(items)) => string_items(items),
        _ => Seq::empty(),
    }
}

/// Extracts the triggers array from a JSON value with a "triggers" field.
pub fn parse_triggers(val: &Json) -> (r: Vec<String>)
    ensures
        string_views(r@) == triggers_of(val@),
{
    let mut out: Vec<String> = Vec::new();
    match val.get("triggers") {
        Some(t) => match t.as_array() {
            Some(arr) => {
                proof {
                    lemma_seq_view(arr@);
                }
                let ghost items = json_seq_view(arr@);
                let mut i: usize = 0;
                while i < arr.len()
                    invariant
                        i <= arr.len(),
                        items == json_seq_view(arr@),
                        items.len() == arr.len(),
                        forall|k: int| 0 <= k < arr.len() ==> #[trigger] items[k] == arr@[k]@,
                        string_views(out@) == string_items(items.take(i as int)),
                    decreases arr.len() - i,
                {
                    assert(items.take(i + 1).drop_last() =~= items.take(i as int));
                    match arr[i].as_str() {
                        Some(s) => {
                            out.push(String::from_str(s));
                        },
                        None => {},
                    }
                    assert(string_views(out@) =~= string_items(items.take(i + 1)));
                    i = i + 1;
                }
                assert(items.take(arr.len() as int) =~= items);
            },
            None => {},
        },
        None => {},
    }
    proof {
        assert(string_views(out@) =~= triggers_of(val@));
    }
    out
}

/// The message of the error `validate_create_skill_params` answers, if any.
pub open spec fn create_skill_error(p: JsonV) -> Option<Seq<char>> {
    if p.get_str("name"@) is None {
        Some("missing required parameter: name"@)
    } else if p.get_str("description"@) is None {
        Some("missing required parameter: description"@)
    } else if p.get_str("content"@) is None {
        Some("missing required parameter: content"@)
    } else {
        None
    }
}

/// Checks the parameters of a `create_skill` call.
pub fn validate_create_skill_params(parameters: &Json) -> (r: Result<CreateSkillParams, ToolExecutionError>)
    ensures
        match r {
            Ok(p) => {
                &&& create_skill_error(parameters@) is None
                &&& parameters@.get_str("name"@) == Some(p.name@)
                &&& parameters@.get_str("description"@) == Some(p.description@)
                &&& parameters@.get_str("content"@) == Some(p.content@)
                &&& string_views(p.triggers@) == triggers_of(parameters@)
            },
            Err(e) => {
                &&& create_skill_error(parameters@) == Some(e.message@)
                &&& e.remediation_hint is None
                &&& !e.is_retryable
            },
        },
{
    let name = match parameters.get_str("name") {
        Some(s) => String::from_str(s),
        None => return Err(ToolExecutionError::simple("missing required parameter: name")),
    };
    let description = match parameters.get_str("description") {
        Some(s) => String::from_str(s),
        None => return Err(ToolExecutionError::simple("missing required parameter: description")),
    };
    let triggers = parse_triggers(parameters);
    let content = match parameters.get_str("content") {
        Some(s) => String::from_str(s),
        None => return Err(ToolExecutionError::simple("missing required parameter: content")),
    };
    Ok(CreateSkillParams { name, description, triggers, content })
}

/// Each trigger rendered as a YAML list item.
pub open spec fn trigger_items(ts: Seq<Seq<char>>) -> Seq<Seq<char>> {
    ts.map_values(|t: Seq<char>| "  - "@ + t)
}

/// The YAML `triggers` field of a skill file.
pub open spec fn triggers_yaml(ts: Seq<Seq<char>>) -> Seq<char> {
    if ts.len() == 0 {
        "triggers: []"@
    } else {
        "triggers:\n"@ + seq_join(trigger_items(ts), "\n"@)
    }
}

/// The Markdown text of a skill file: YAML frontmatter, then the content.
pub open spec fn skill_markdown(p: CreateSkillParams) -> Seq<char> {
    "---\nname: "@ + p.name@ + "\ndescription: "@ + p.description@ + "\n"@ + triggers_yaml(
        string_views(p.triggers@),
    ) + "\n---\n"@ + p.content@
}

/// Renders the Markdown text written for a skill.
pub fn render_skill_markdown(params: &CreateSkillParams) -> (r: String)
    ensures
        r@ == skill_markdown(*params),
{
    let mut yaml: String;
    if params.triggers.len() == 0 {
        yaml = String::from_str("triggers: []");
    } else {
        let mut items: Vec<String> = Vec::new();
        let mut i: usize = 0;
        while i < params.triggers.len()
            invariant
                i <= params.triggers.len(),
                items.len() == i,
                forall|k: int| 0 <= k < i ==> #[trigger] items@[k]@ == "  - "@ + params.triggers@[k]@,
            decreases params.triggers.len() - i,
        {
            let mut item = String::from_str("  - ");
            item.append(params.triggers[i].as_str());
            items.push(item);
            i = i + 1;
        }
        assert(string_views(items@) =~= trigger_items(string_views(params.triggers@)));
        yaml = String::from_str("triggers:\n");
        let joined = join_strings(items.as_slice(), "\n");
        yaml.append(joined.as_str());
    }
    let mut md = String::from_str("---\nname: ");
    md.append(params.name.as_str());
    md.append("\ndescription: ");
    md.append(params.description.as_str());
    md.append("\n");
    md.append(yaml.as_str());
    md.append("\n---\n");
    md.append(params.content.as_str());
    md
}

/// The file name a skill is written under: its name with ".md".
pub fn skill_file_name(name: &str) -> (r: String)
    ensures
        r@ == name@ + ".md"@,
{
    let mut f = String::from_str(name);
    f.append(".md");
    f
}


/// The `triggers` property of `create_skill`.
pub open spec fn triggers_prop_v() -> JsonV {
    JsonV::Object(
        seq![
            ("type"@, JsonV::Str("array"@)),
            ("items"@, JsonV::Object(seq![("type"@, JsonV::Str("string"@))])),
            ("description"@, JsonV::Str("Keywords that trigger this skill (optional)"@)),
        ],
    )
}

/// The properties of `create_skill`.
pub open spec fn create_skill_props_v() -> Seq<(Seq<char>, JsonV)> {
    seq![
        ("name"@, prop_v("string"@, "Unique skill name (used as filename)"@)),
        ("description"@, prop_v("string"@, "What the skill does"@)),
        ("triggers"@, triggers_prop_v()),
        ("content"@, prop_v("string"@, "Skill content (Markdown)"@)),
    ]
}

/// The definition of the `create_skill` built-in.
pub fn create_skill_definition() -> (r: ToolDefinition)
    ensures
        r.name@ == "create_skill"@,
        r.description@ == "Create a new skill as a Markdown file. Skills provide context for matching tasks."@,
        object_schema_shape(
            r.schema@,
            seq!["name"@, "description"@, "triggers"@, "content"@],
            seq!["name"@, "description"@, "content"@],
        ),
        r.schema@ == object_schema_v(create_skill_props_v(), seq!["name"@, "description"@, "content"@]),
{
    let mut p: Vec<(String, Json)> = Vec::new();
    proof {
        lemma_no_entries(p@);
    }
    add_prop(&mut p, "name", prop("string", "Unique skill name (used as filename)"));
    add_prop(&mut p, "description", prop("string", "What the skill does"));
    let mut items: Vec<(String, Json)> = Vec::new();
    proof {
        lemma_no_entries(items@);
    }
    push_entry(&mut items, "type", jstr("string"));
    let itemsj = jobj(items);
    assert(itemsj@ =~= JsonV::Object(seq![("type"@, JsonV::Str("string"@))])) by {
        assert(json_entries_view(items@) =~= seq![("type"@, JsonV::Str("string"@))]);
    }
    let mut tp: Vec<(String, Json)> = Vec::new();
    proof {
        lemma_no_entries(tp@);
    }
    push_entry(&mut tp, "type", jstr("array"));
    push_entry(&mut tp, "items", itemsj);
    push_entry(&mut tp, "description", jstr("Keywords that trigger this skill (optional)"));
    let tpj = jobj(tp);
    assert(tpj@ =~= triggers_prop_v()) by {
        assert(json_entries_view(tp@) =~= seq![
            ("type"@, JsonV::Str("array"@)),
            ("items"@, JsonV::Object(seq![("type"@, JsonV::Str("string"@))])),
            ("description"@, JsonV::Str("Keywords that trigger this skill (optional)"@)),
        ]);
    }
    add_prop(&mut p, "triggers", tpj);
    add_prop(&mut p, "content", prop("string", "Skill content (Markdown)"));
    assert(json_entries_view(p@) =~= create_skill_props_v());
    assert(keys_of(p@) =~= seq!["name"@, "description"@, "triggers"@, "content"@]);
    let req = vec!["name", "description", "content"];
    assert(str_views(req@) =~= seq!["name"@, "description"@, "content"@]);
    ToolDefinition {
        name: String::from_str("create_skill"),
        description: String::from_str(
            "Create a new skill as a Markdown file. Skills provide context for matching tasks.",
        ),
        schema: object_schema(p, req),
    }
}

} // verus!
