//! JSON Schema definitions of the built-in tools.

use vstd::prelude::*;

use crate::json::{entries_lookup, jobj, jstr, json_entries_view, json_seq_view, json_view, lemma_entries_view, lemma_seq_view, push_entry, Json, JsonV};
use crate::types::ToolDefinition;

verus! {

/// A JSON array of strings.
pub open spec fn str_array_v(xs: Seq<Seq<char>>) -> JsonV {
    JsonV::Array(xs.map_values(|x: Seq<char>| JsonV::Str(x)))
}

/// The views of a sequence of string slices.
pub open spec fn str_views(xs: Seq<&str>) -> Seq<Seq<char>> {
    xs.map_values(|x: &str| x@)
}

/// The names of the properties a schema declares, in order.
pub open spec fn property_names(schema: JsonV) -> Seq<Seq<char>> {
    match schema.get("properties"@) {
        Some(JsonV::Object(es)) => es.map_values(|e: (Seq<char>, JsonV)| e.0),
        _ => Seq::empty(),
    }
}

/// A schema `{"type": "object", "properties": {...}, "required": [...]}` whose
/// properties have the given names and whose required list is `required`.
pub open spec fn object_schema_shape(schema: JsonV, props: Seq<Seq<char>>, required: Seq<Seq<char>>) -> bool {
    &&& schema.get("type"@) == Some(JsonV::Str("object"@))
    &&& property_names(schema) == props
    &&& schema.get("required"@) == Some(str_array_v(required))
}

/// The property `{"type": ty, "description": desc}`.
pub open spec fn prop_v(ty: Seq<char>, desc: Seq<char>) -> JsonV {
    JsonV::Object(seq![("type"@, JsonV::Str(ty)), ("description"@, JsonV::Str(desc))])
}

/// The schema `{"type": "object", "properties": props, "required": required}`.
pub open spec fn object_schema_v(props: Seq<(Seq<char>, JsonV)>, required: Seq<Seq<char>>) -> JsonV {
    JsonV::Object(
        seq![
            ("type"@, JsonV::Str("object"@)),
            ("properties"@, JsonV::Object(props)),
            ("required"@, str_array_v(required)),
        ],
    )
}

/// The entries of an empty list.
pub proof fn lemma_no_entries(e: Seq<(String, Json)>)
    requires
        e.len() == 0,
    ensures
        json_entries_view(e) == Seq::<(Seq<char>, JsonV)>::empty(),
{
    lemma_entries_view(e);
    assert(json_entries_view(e) =~= Seq::<(Seq<char>, JsonV)>::empty());
}

/// `{"type": ty, "description": desc}`.
pub fn prop(ty: &str, desc: &str) -> (r: Json)
    ensures
        r@ == prop_v(ty@, desc@),
        r@.get("type"@) == Some(JsonV::Str(ty@)),
{
    let mut e: Vec<(String, Json)> = Vec::new();
    proof {
        lemma_no_entries(e@);
    }
    push_entry(&mut e, "type", jstr(ty));
    push_entry(&mut e, "description", jstr(desc));
    proof {
        lemma_entries_view(e@);
        assert(json_entries_view(e@) =~= seq![("type"@, JsonV::Str(ty@)), ("description"@, JsonV::Str(desc@))]);
    }
    jobj(e)
}

/// A JSON array of the given strings.
pub fn str_array(xs: Vec<&str>) -> (r: Json)
    ensures
        r@ == str_array_v(str_views(xs@)),
{
    let mut out: Vec<Json> = Vec::new();
    let mut i: usize = 0;
    while i < xs.len()
        invariant
            i <= xs.len(),
            out.len() == i,
            forall|k: int| 0 <= k < i ==> #[trigger] out@[k]@ == JsonV::Str(xs@[k]@),
        decreases xs.len() - i,
    {
        out.push(jstr(xs[i]));
        i = i + 1;
    }
    proof {
        lemma_seq_view(out@);
        let target = str_views(xs@).map_values(|x: Seq<char>| JsonV::Str(x));
        assert forall|k: int| 0 <= k < out.len() implies #[trigger] json_seq_view(out@)[k] == target[k] by {
            assert(json_seq_view(out@)[k] == out@[k]@);
        }
        assert(json_seq_view(out@) =~= target);
    }
    Json::Array(out)
}

/// An object schema with the given properties and required names.
pub fn object_schema(props: Vec<(String, Json)>, required: Vec<&str>) -> (r: Json)
    ensures
        r@ == object_schema_v(json_entries_view(props@), str_views(required@)),
        object_schema_shape(r@, keys_of(props@), str_views(required@)),
{
    let ghost pv = json_entries_view(props@);
    proof {
        lemma_entries_view(props@);
        assert(pv.map_values(|e: (Seq<char>, JsonV)| e.0) =~= props@.map_values(|e: (String, Json)| e.0@));
    }
    let mut e: Vec<(String, Json)> = Vec::new();
    push_entry(&mut e, "type", jstr("object"));
    push_entry(&mut e, "properties", jobj(props));
    push_entry(&mut e, "required", str_array(required));
    let r = jobj(e);
    proof {
        reveal_strlit("type");
        reveal_strlit("properties");
        reveal_strlit("required");
        let es = json_entries_view(e@);
        assert(es[0].0 == "type"@);
        assert(es[1].0 == "properties"@);
        assert(es[2].0 == "required"@);
        assert(es.len() == 3);
        assert(es.drop_first()[0] == es[1]);
        assert(es.drop_first().drop_first()[0] == es[2]);
        assert(entries_lookup(es, "type"@) == Some(es[0].1));
        assert(entries_lookup(es.drop_first(), "properties"@) == Some(es[1].1));
        assert(entries_lookup(es, "properties"@) == Some(es[1].1));
        assert(entries_lookup(es.drop_first().drop_first(), "required"@) == Some(es[2].1));
        assert(entries_lookup(es.drop_first(), "required"@) == Some(es[2].1));
        assert(entries_lookup(es, "required"@) == Some(es[2].1));
        assert(es[1].1 == JsonV::Object(pv));
        lemma_entries_view(e@);
        assert(es =~= seq![
            ("type"@, JsonV::Str("object"@)),
            ("properties"@, JsonV::Object(pv)),
            ("required"@, str_array_v(str_views(required@))),
        ]);
    }
    r
}



/// The keys of a list of properties.
pub open spec fn keys_of(props: Seq<(String, Json)>) -> Seq<Seq<char>> {
    props.map_values(|e: (String, Json)| e.0@)
}

/// Appends the property `key: value`.
pub fn add_prop(props: &mut Vec<(String, Json)>, key: &str, value: Json)
    ensures
        keys_of(final(props)@) == keys_of(old(props)@).push(key@),
        json_entries_view(final(props)@) == json_entries_view(old(props)@).push((key@, value@)),
{
    let ghost before = props@;
    let ghost v = value@;
    push_entry(props, key, value);
    assert(keys_of(props@) =~= keys_of(before).push(key@)) by {
        lemma_entries_view(props@);
        lemma_entries_view(before);
        assert(props@.len() == before.len() + 1);
        assert forall|i: int| 0 <= i < props@.len() implies #[trigger] keys_of(props@)[i] == keys_of(before).push(key@)[i] by {
            assert(json_entries_view(props@)[i] == json_entries_view(before).push((key@, v))[i]);
            if i < before.len() {
                assert(json_entries_view(before)[i] == (before[i].0@, json_view(before[i].1)));
            }
        }
    }
    assert(json_entries_view(before) + seq![(key@, v)] =~= json_entries_view(before).push((key@, v)));
}

/// The properties of `bash`.
pub open spec fn bash_props_v() -> Seq<(Seq<char>, JsonV)> {
    seq![
        ("command"@, prop_v("string"@, "Shell command to execute"@)),
        ("working_dir"@, prop_v("string"@, "Working directory (optional)"@)),
        ("timeout_ms"@, prop_v("number"@, "Timeout in milliseconds (optional, default 30000)"@)),
    ]
}

/// The schema of `bash`.
pub open spec fn bash_schema_v() -> JsonV {
    object_schema_v(bash_props_v(), seq!["command"@])
}

/// The properties of `read_file`.
pub open spec fn read_file_props_v() -> Seq<(Seq<char>, JsonV)> {
    seq![
        ("path"@, prop_v("string"@, "File path to read"@)),
        ("offset"@, prop_v("number"@, "Byte offset to start reading from (optional)"@)),
        ("limit"@, prop_v("number"@, "Maximum number of bytes to read (optional)"@)),
    ]
}

/// The schema of `read_file`.
pub open spec fn read_file_schema_v() -> JsonV {
    object_schema_v(read_file_props_v(), seq!["path"@])
}

/// The properties of `write_file`.
pub open spec fn write_file_props_v() -> Seq<(Seq<char>, JsonV)> {
    seq![
        ("path"@, prop_v("string"@, "File path to write"@)),
        ("content"@, prop_v("string"@, "Content to write to the file"@)),
    ]
}

/// The schema of `write_file`.
pub open spec fn write_file_schema_v() -> JsonV {
    object_schema_v(write_file_props_v(), seq!["path"@, "content"@])
}

/// The properties of `list_directory`.
pub open spec fn list_directory_props_v() -> Seq<(Seq<char>, JsonV)> {
    seq![
        ("path"@, prop_v("string"@, "Directory path to list"@)),
        ("pattern"@, prop_v("string"@, "Glob pattern to filter entries (optional)"@)),
    ]
}

/// The schema of `list_directory`.
pub open spec fn list_directory_schema_v() -> JsonV {
    object_schema_v(list_directory_props_v(), seq!["path"@])
}

/// The properties of `search_files`.
pub open spec fn search_files_props_v() -> Seq<(Seq<char>, JsonV)> {
    seq![
        ("path"@, prop_v("string"@, "Directory to search in"@)),
        ("query"@, prop_v("string"@, "Text pattern to search for"@)),
        ("pattern"@, prop_v("string"@, "Glob pattern to filter files (optional)"@)),
    ]
}

/// The schema of `search_files`.
pub open spec fn search_files_schema_v() -> JsonV {
    object_schema_v(search_files_props_v(), seq!["path"@, "query"@])
}

/// The definitions of the basic built-in tools: bash and the four file tools.
pub fn builtin_tool_definitions() -> (r: Vec<ToolDefinition>)
    ensures
        r.len() == 5,
        r[0].name@ == "bash"@,
        r[0].description@ == "Execute a shell command via /bin/sh -c"@,
        object_schema_shape(r[0].schema@, seq!["command"@, "working_dir"@, "timeout_ms"@], seq!["command"@]),
        r[0].schema@ == bash_schema_v(),
        r[1].name@ == "read_file"@,
        r[1].description@ == "Read the contents of a file"@,
        object_schema_shape(r[1].schema@, seq!["path"@, "offset"@, "limit"@], seq!["path"@]),
        r[1].schema@ == read_file_schema_v(),
        r[2].name@ == "write_file"@,
        r[2].description@ == "Write content to a file (creates or overwrites)"@,
        object_schema_shape(r[2].schema@, seq!["path"@, "content"@], seq!["path"@, "content"@]),
        r[2].schema@ == write_file_schema_v(),
        r[3].name@ == "list_directory"@,
        r[3].description@ == "List files and directories at a path"@,
        object_schema_shape(r[3].schema@, seq!["path"@, "pattern"@], seq!["path"@]),
        r[3].schema@ == list_directory_schema_v(),
        r[4].name@ == "search_files"@,
        r[4].description@ == "Search for a text pattern in files under a directory"@,
        object_schema_shape(r[4].schema@, seq!["path"@, "query"@, "pattern"@], seq!["path"@, "query"@]),
        r[4].schema@ == search_files_schema_v(),
{
    let mut defs: Vec<ToolDefinition> = Vec::new();

    let mut p: Vec<(String, Json)> = Vec::new();
    proof {
        lemma_no_entries(p@);
    }
    add_prop(&mut p, "command", prop("string", "Shell command to execute"));
    add_prop(&mut p, "working_dir", prop("string", "Working directory (optional)"));
    add_prop(&mut p, "timeout_ms", prop("number", "Timeout in milliseconds (optional, default 30000)"));
    assert(keys_of(p@) =~= seq!["command"@, "working_dir"@, "timeout_ms"@]);
    assert(json_entries_view(p@) =~= bash_props_v());
    let req = vec!["command"];
    assert(str_views(req@) =~= seq!["command"@]);
    defs.push(ToolDefinition {
        name: String::from_str("bash"),
        description: String::from_str("Execute a shell command via /bin/sh -c"),
        schema: object_schema(p, req),
    });

    let mut p: Vec<(String, Json)> = Vec::new();
    proof {
        lemma_no_entries(p@);
    }
    add_prop(&mut p, "path", prop("string", "File path to read"));
    add_prop(&mut p, "offset", prop("number", "Byte offset to start reading from (optional)"));
    add_prop(&mut p, "limit", prop("number", "Maximum number of bytes to read (optional)"));
    assert(keys_of(p@) =~= seq!["path"@, "offset"@, "limit"@]);
    assert(json_entries_view(p@) =~= read_file_props_v());
    let req = vec!["path"];
    assert(str_views(req@) =~= seq!["path"@]);
    defs.push(ToolDefinition {
        name: String::from_str("read_file"),
        description: String::from_str("Read the contents of a file"),
        schema: object_schema(p, req),
    });

    let mut p: Vec<(String, Json)> = Vec::new();
    proof {
        lemma_no_entries(p@);
    }
    add_prop(&mut p, "path", prop("string", "File path to write"));
    add_prop(&mut p, "content", prop("string", "Content to write to the file"));
    assert(keys_of(p@) =~= seq!["path"@, "content"@]);
    assert(json_entries_view(p@) =~= write_file_props_v());
    let req = vec!["path", "content"];
    assert(str_views(req@) =~= seq!["path"@, "content"@]);
    defs.push(ToolDefinition {
        name: String::from_str("write_file"),
        description: String::from_str("Write content to a file (creates or overwrites)"),
        schema: object_schema(p, req),
    });

    let mut p: Vec<(String, Json)> = Vec::new();
    proof {
        lemma_no_entries(p@);
    }
    add_prop(&mut p, "path", prop("string", "Directory path to list"));
    add_prop(&mut p, "pattern", prop("string", "Glob pattern to filter entries (optional)"));
    assert(keys_of(p@) =~= seq!["path"@, "pattern"@]);
    assert(json_entries_view(p@) =~= list_directory_props_v());
    let req = vec!["path"];
    assert(str_views(req@) =~= seq!["path"@]);
    defs.push(ToolDefinition {
        name: String::from_str("list_directory"),
        description: String::from_str("List files and directories at a path"),
        schema: object_schema(p, req),
    });

    let mut p: Vec<(String, Json)> = Vec::new();
    proof {
        lemma_no_entries(p@);
    }
    add_prop(&mut p, "path", prop("string", "Directory to search in"));
    add_prop(&mut p, "query", prop("string", "Text pattern to search for"));
    add_prop(&mut p, "pattern", prop("string", "Glob pattern to filter files (optional)"));
    assert(keys_of(p@) =~= seq!["path"@, "query"@, "pattern"@]);
    assert(json_entries_view(p@) =~= search_files_props_v());
    let req = vec!["path", "query"];
    assert(str_views(req@) =~= seq!["path"@, "query"@]);
    defs.push(ToolDefinition {
        name: String::from_str("search_files"),
        description: String::from_str("Search for a text pattern in files under a directory"),
        schema: object_schema(p, req),
    });

    defs
}

} // verus!
