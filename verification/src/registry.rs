//! The tool registry: the tools the model may call, each name once, with
//! their parameter schemas checked by `jsonschema`. The host keeps the
//! registry's storage (the `agent_tools` table) and reloads it through
//! [`PersistentToolRegistry::load_stored`].

use vstd::prelude::*;

use crate::error::EngineError;
use crate::json::{json_entries_view, json_seq_view, json_view, lemma_entries_view, lemma_seq_view, Json, JsonV};
use crate::json_text::{json_text, to_json_text};
use crate::json::opt_string_view;
use crate::text::str_eq;
use crate::types::{defs_view, ToolDefinition, ToolDefinitionV};

verus! {

/// What `jsonschema::validator_for` reports when it cannot compile the
/// schema written as `schema_text`: the error's text, or none when it compiles.
pub uninterp spec fn schema_compile_error(schema_text: Seq<char>) -> Option<Seq<char>>;

/// What `jsonschema`'s `Validator::validate` reports for the parameters
/// written as `params_text` against the schema written as `schema_text`:
/// the text of the first error, or none when they conform.
pub uninterp spec fn schema_validation_error(schema_text: Seq<char>, params_text: Seq<char>) -> Option<Seq<char>>;

/// Trusted: reads `schema_text` as a `serde_json::Value` and compiles it with
/// `jsonschema::validator_for`; returns the error's `to_string()` where either
/// step fails. Its result is named `schema_compile_error`.
#[verifier::external_body]
fn compile_schema(schema_text: &str) -> (r: Option<String>)
    ensures
        opt_string_view(r) == schema_compile_error(schema_text@),
{
    let value: serde_json::Value = match serde_json::from_str(schema_text) {
        Ok(v) => v,
        Err(e) => return Some(e.to_string()),
    };
    match jsonschema::validator_for(&value) {
        Ok(_) => None,
        Err(e) => Some(e.to_string()),
    }
}

/// Trusted: compiles the schema as `compile_schema` does and checks the
/// parameters against it with `Validator::validate`, returning the first
/// error's `to_string()`. Its result is named `schema_validation_error`.
///
/// Only for a schema without reference keywords: `jsonschema` resolves a
/// `$ref` cycle lazily at each step of validation and never returns.
#[verifier::external_body]
fn check_against_schema(schema_text: &str, params_text: &str) -> (r: Option<String>)
    requires
        exists|schema: Json| #[trigger] json_text(schema) == schema_text@ && ref_free(schema@),
    ensures
        opt_string_view(r) == schema_validation_error(schema_text@, params_text@),
{
    let schema: serde_json::Value = match serde_json::from_str(schema_text) {
        Ok(v) => v,
        Err(e) => return Some(e.to_string()),
    };
    let params: serde_json::Value = match serde_json::from_str(params_text) {
        Ok(v) => v,
        Err(e) => return Some(e.to_string()),
    };
    match jsonschema::validator_for(&schema) {
        Ok(v) => v.validate(&params).err().map(|e| e.to_string()),
        Err(e) => Some(e.to_string()),
    }
}

/// The keywords by which a schema refers to another schema.
pub open spec fn is_ref_keyword(k: Seq<char>) -> bool {
    k == "$ref"@ || k == "$dynamicRef"@ || k == "$recursiveRef"@
}

/// The schema holds no reference keyword at any depth.
pub open spec fn ref_free(j: JsonV) -> bool
    decreases j, 1int,
{
    match j {
        JsonV::Array(v) => {
            proof {
                assert(decreases_to!(j => v));
            }
            items_ref_free(v)
        },
        JsonV::Object(v) => {
            proof {
                assert(decreases_to!(j => v));
            }
            entries_ref_free(v)
        },
        _ => true,
    }
}

/// Every item is free of reference keywords.
pub open spec fn items_ref_free(s: Seq<JsonV>) -> bool
    decreases s, 0int,
{
    if s.len() == 0 {
        true
    } else {
        proof {
            assert(decreases_to!(s => s[s.len() - 1]));
            assert(decreases_to!(s => s.subrange(0, s.len() - 1)));
        }
        items_ref_free(s.subrange(0, s.len() - 1)) && ref_free(s[s.len() - 1])
    }
}

/// No entry is named by a reference keyword, and every value is free of them.
pub open spec fn entries_ref_free(s: Seq<(Seq<char>, JsonV)>) -> bool
    decreases s, 0int,
{
    if s.len() == 0 {
        true
    } else {
        proof {
            assert(decreases_to!(s => s[s.len() - 1]));
            assert(decreases_to!(s[s.len() - 1] => s[s.len() - 1].1));
            assert(decreases_to!(s => s.subrange(0, s.len() - 1)));
        }
        entries_ref_free(s.subrange(0, s.len() - 1)) && !is_ref_keyword(s[s.len() - 1].0) && ref_free(
            s[s.len() - 1].1,
        )
    }
}

/// Whether `k` is a reference keyword.
fn ref_keyword(k: &str) -> (r: bool)
    ensures
        r == is_ref_keyword(k@),
{
    str_eq(k, "$ref") || str_eq(k, "$dynamicRef") || str_eq(k, "$recursiveRef")
}

/// Whether the schema holds no reference keyword.
pub fn has_no_refs(j: &Json) -> (r: bool)
    ensures
        r == ref_free(j@),
    decreases j,
{
    match j {
        Json::Array(v) => {
            let ghost vs = json_seq_view(v@);
            proof {
                lemma_seq_view(v@);
            }
            let mut i: usize = 0;
            while i < v.len()
                invariant
                    i <= v.len(),
                    *j == Json::Array(*v),
                    vs == json_seq_view(v@),
                    vs.len() == v.len(),
                    forall|k: int| 0 <= k < v.len() ==> #[trigger] vs[k] == json_view(v@[k]),
                    items_ref_free(vs.take(i as int)),
                decreases v.len() - i,
            {
                proof {
                    assert(decreases_to!(*j => (*j)->Array_0));
                    assert(decreases_to!(*v => v@));
                    assert(decreases_to!(v@ => v@[i as int]));
                }
                let ghost t = vs.take(i + 1);
                assert(t.subrange(0, t.len() - 1) =~= vs.take(i as int));
                assert(t[t.len() - 1] == vs[i as int]);
                if !has_no_refs(&v[i]) {
                    proof {
                        lemma_items_prefix(vs, i as int + 1);
                    }
                    return false;
                }
                i = i + 1;
            }
            assert(vs.take(v.len() as int) =~= vs);
            true
        },
        Json::Object(v) => {
            let ghost vs = json_entries_view(v@);
            proof {
                lemma_entries_view(v@);
            }
            let mut i: usize = 0;
            while i < v.len()
                invariant
                    i <= v.len(),
                    *j == Json::Object(*v),
                    vs == json_entries_view(v@),
                    vs.len() == v.len(),
                    forall|k: int| 0 <= k < v.len() ==> #[trigger] vs[k] == (v@[k].0@, json_view(v@[k].1)),
                    entries_ref_free(vs.take(i as int)),
                decreases v.len() - i,
            {
                proof {
                    assert(decreases_to!(*j => (*j)->Object_0));
                    assert(decreases_to!(*v => v@));
                    assert(decreases_to!(v@ => v@[i as int]));
                    assert(decreases_to!(v@[i as int] => v@[i as int].1));
                }
                let ghost t = vs.take(i + 1);
                assert(t.subrange(0, t.len() - 1) =~= vs.take(i as int));
                assert(t[t.len() - 1] == vs[i as int]);
                if ref_keyword(v[i].0.as_str()) || !has_no_refs(&v[i].1) {
                    proof {
                        lemma_entries_prefix(vs, i as int + 1);
                    }
                    return false;
                }
                i = i + 1;
            }
            assert(vs.take(v.len() as int) =~= vs);
            true
        },
        _ => true,
    }
}

/// A sequence of items is free of references only if each prefix is.
proof fn lemma_items_prefix(s: Seq<JsonV>, k: int)
    requires
        0 <= k <= s.len(),
    ensures
        items_ref_free(s) ==> items_ref_free(s.take(k)),
    decreases s.len() - k,
{
    if k < s.len() {
        lemma_items_prefix(s, k + 1);
        assert(s.take(k + 1).subrange(0, k) =~= s.take(k));
    } else {
        assert(s.take(k) =~= s);
    }
}

/// A sequence of entries is free of references only if each prefix is.
proof fn lemma_entries_prefix(s: Seq<(Seq<char>, JsonV)>, k: int)
    requires
        0 <= k <= s.len(),
    ensures
        entries_ref_free(s) ==> entries_ref_free(s.take(k)),
    decreases s.len() - k,
{
    if k < s.len() {
        lemma_entries_prefix(s, k + 1);
        assert(s.take(k + 1).subrange(0, k) =~= s.take(k));
    } else {
        assert(s.take(k) =~= s);
    }
}

/// Why a tool's schema cannot be registered: a reference keyword, whose
/// targets could form a cycle, or an error of `jsonschema`'s compiler;
/// none where it can.
pub open spec fn schema_error(def: ToolDefinition) -> Option<Seq<char>> {
    if !ref_free(def.schema@) {
        Some(refs_refused_message())
    } else {
        schema_compile_error(json_text(def.schema))
    }
}

/// The error for a schema with reference keywords.
pub open spec fn refs_refused_message() -> Seq<char> {
    "references ($ref, $dynamicRef, $recursiveRef) are not supported"@
}

/// Why the tool's schema cannot be registered, if it cannot.
fn schema_problem(def: &ToolDefinition) -> (r: Option<String>)
    ensures
        opt_string_view(r) == schema_error(*def),
{
    if !has_no_refs(&def.schema) {
        return Some(String::from_str("references ($ref, $dynamicRef, $recursiveRef) are not supported"));
    }
    let text = to_json_text(&def.schema);
    compile_schema(text.as_str())
}

/// Whether a tool of this name is among `defs`.
pub open spec fn has_tool(defs: Seq<ToolDefinitionV>, name: Seq<char>) -> bool {
    exists|i: int| 0 <= i < defs.len() && (#[trigger] defs[i]).name == name
}

/// No two tools share a name.
pub open spec fn names_distinct(defs: Seq<ToolDefinitionV>) -> bool {
    forall|i: int, j: int| 0 <= i < j < defs.len() ==> (#[trigger] defs[i]).name != (#[trigger] defs[j]).name
}

/// The message of a schema that does not compile.
pub open spec fn compile_failure_message(name: Seq<char>, error: Seq<char>) -> Seq<char> {
    "failed to compile schema for `"@ + name + "`: "@ + error
}

/// Registering one built-in tool: a name already present is kept as it
/// is; a schema that does not compile stops with its message; otherwise the
/// tool is appended.
pub open spec fn builtin_step(defs: Seq<ToolDefinitionV>, def: ToolDefinition) -> (Seq<ToolDefinitionV>, Option<Seq<char>>) {
    if has_tool(defs, def.name@) {
        (defs, None)
    } else {
        match schema_error(def) {
            Some(e) => (defs, Some(compile_failure_message(def.name@, e))),
            None => (defs.push(def@), None),
        }
    }
}

/// Registering built-in tools in order, stopping at the first that fails.
pub open spec fn register_all(defs: Seq<ToolDefinitionV>, incoming: Seq<ToolDefinition>) -> (Seq<ToolDefinitionV>, Option<Seq<char>>)
    decreases incoming.len(),
{
    if incoming.len() == 0 {
        (defs, None)
    } else {
        let before = register_all(defs, incoming.drop_last());
        if before.1 is Some {
            before
        } else {
            builtin_step(before.0, incoming.last())
        }
    }
}

/// Loading stored tools in order: a name already present or a schema that
/// does not compile is passed over; any other tool is appended.
pub open spec fn load_all(defs: Seq<ToolDefinitionV>, incoming: Seq<ToolDefinition>) -> Seq<ToolDefinitionV>
    decreases incoming.len(),
{
    if incoming.len() == 0 {
        defs
    } else {
        let before = load_all(defs, incoming.drop_last());
        let def = incoming.last();
        if has_tool(before, def.name@) || schema_error(def) is Some {
            before
        } else {
            before.push(def@)
        }
    }
}

/// The catalog after putting `def` in: it replaces the tool of the same
/// name where there is one, and is appended otherwise.
pub open spec fn upsert(defs: Seq<ToolDefinitionV>, def: ToolDefinitionV) -> Seq<ToolDefinitionV> {
    if has_tool(defs, def.name) {
        let i = choose|i: int| 0 <= i < defs.len() && (#[trigger] defs[i]).name == def.name;
        defs.update(i, def)
    } else {
        defs.push(def)
    }
}

/// How a tool the agent created is run: its script, if any, and how its
/// parameters are passed.
#[derive(Debug)]
pub struct DynamicToolInfo {
    pub script_path: Option<String>,
    pub param_passing: String,
}

impl View for DynamicToolInfo {
    type V = (Option<Seq<char>>, Seq<char>);

    open spec fn view(&self) -> (Option<Seq<char>>, Seq<char>) {
        (opt_string_view(self.script_path), self.param_passing@)
    }
}

impl DynamicToolInfo {
    pub fn copy(&self) -> (r: DynamicToolInfo)
        ensures
            r@ == self@,
    {
        let script_path = match &self.script_path {
            Some(p) => Some(p.clone()),
            None => None,
        };
        DynamicToolInfo { script_path, param_passing: self.param_passing.clone() }
    }
}

impl Clone for DynamicToolInfo {
    fn clone(&self) -> (r: DynamicToolInfo)
        ensures
            r@ == self@,
    {
        self.copy()
    }
}

/// The run information of each tool the agent created, by name, as a
/// sequence of entries.
pub open spec fn info_entries_view(s: Seq<(String, DynamicToolInfo)>) -> Seq<(Seq<char>, (Option<Seq<char>>, Seq<char>))> {
    s.map_values(|e: (String, DynamicToolInfo)| (e.0@, e.1@))
}

/// No two entries share a name.
pub open spec fn info_names_distinct(s: Seq<(Seq<char>, (Option<Seq<char>>, Seq<char>))>) -> bool {
    forall|i: int, j: int| 0 <= i < j < s.len() ==> (#[trigger] s[i]).0 != (#[trigger] s[j]).0
}

/// The entries as a map from name to run information.
pub open spec fn info_map(s: Seq<(Seq<char>, (Option<Seq<char>>, Seq<char>))>) -> Map<Seq<char>, (Option<Seq<char>>, Seq<char>)> {
    Map::new(
        |n: Seq<char>| exists|i: int| 0 <= i < s.len() && (#[trigger] s[i]).0 == n,
        |n: Seq<char>| s[choose|i: int| 0 <= i < s.len() && (#[trigger] s[i]).0 == n].1,
    )
}

/// Recording stored run information in order: a later entry of the same
/// name replaces an earlier one.
pub open spec fn record_all(
    m: Map<Seq<char>, (Option<Seq<char>>, Seq<char>)>,
    incoming: Seq<(Seq<char>, (Option<Seq<char>>, Seq<char>))>,
) -> Map<Seq<char>, (Option<Seq<char>>, Seq<char>)>
    decreases incoming.len(),
{
    if incoming.len() == 0 {
        m
    } else {
        record_all(m, incoming.drop_last()).insert(incoming.last().0, incoming.last().1)
    }
}

/// The tools the model may call, in registration order, each name once;
/// and how each tool the agent created is run.
#[derive(Debug)]
pub struct PersistentToolRegistry {
    tools: Vec<ToolDefinition>,
    dynamic: Vec<(String, DynamicToolInfo)>,
}

impl View for PersistentToolRegistry {
    type V = Seq<ToolDefinitionV>;

    open spec fn view(&self) -> Seq<ToolDefinitionV> {
        defs_view(self.entries())
    }
}

impl PersistentToolRegistry {
    /// The registered tools, in order.
    pub closed spec fn entries(&self) -> Seq<ToolDefinition> {
        self.tools@
    }

    /// The run information recorded for tools the agent created, by name.
    pub closed spec fn dynamic_tools(&self) -> Map<Seq<char>, (Option<Seq<char>>, Seq<char>)> {
        info_map(info_entries_view(self.dynamic@))
    }

    pub closed spec fn dynamic_wf(&self) -> bool {
        info_names_distinct(info_entries_view(self.dynamic@))
    }

    /// The registry's invariant: no two tools share a name, nor two entries
    /// of run information.
    pub open spec fn wf(&self) -> bool {
        &&& names_distinct(self@)
        &&& self.dynamic_wf()
        &&& forall|i: int| 0 <= i < self@.len() ==> ref_free(#[trigger] self@[i].schema)
    }

    /// An empty registry.
    pub fn new() -> (r: PersistentToolRegistry)
        ensures
            r.wf(),
            r@ == Seq::<ToolDefinitionV>::empty(),
            r.dynamic_tools() == Map::<Seq<char>, (Option<Seq<char>>, Seq<char>)>::empty(),
    {
        let r = PersistentToolRegistry { tools: Vec::new(), dynamic: Vec::new() };
        assert(r@ =~= Seq::<ToolDefinitionV>::empty());
        assert(r.dynamic_tools() =~= Map::<Seq<char>, (Option<Seq<char>>, Seq<char>)>::empty());
        r
    }

    /// The position of the run information recorded under `name`, if any.
    fn info_position(&self, name: &str) -> (r: Option<usize>)
        ensures
            match r {
                Some(i) => i < self.dynamic@.len() && self.dynamic@[i as int].0@ == name@,
                None => forall|k: int| 0 <= k < self.dynamic@.len() ==> (#[trigger] self.dynamic@[k]).0@ != name@,
            },
    {
        let mut i: usize = 0;
        while i < self.dynamic.len()
            invariant
                i <= self.dynamic.len(),
                forall|k: int| 0 <= k < i ==> (#[trigger] self.dynamic@[k]).0@ != name@,
            decreases self.dynamic.len() - i,
        {
            if str_eq(self.dynamic[i].0.as_str(), name) {
                return Some(i);
            }
            i = i + 1;
        }
        None
    }

    /// Records the run information of the tool `name`, replacing what was
    /// recorded under that name.
    fn record_info(&mut self, name: String, info: DynamicToolInfo)
        requires
            old(self).wf(),
        ensures
            final(self).wf(),
            final(self)@ == old(self)@,
            final(self).dynamic_tools() == old(self).dynamic_tools().insert(name@, info@),
    {
        let ghost before = info_entries_view(self.dynamic@);
        let ghost n = name@;
        let ghost v = info@;
        match self.info_position(name.as_str()) {
            Some(i) => {
                self.dynamic.set(i, (name, info));
                let ghost after = info_entries_view(self.dynamic@);
                proof {
                    assert(after =~= before.update(i as int, (n, v)));
                    assert(info_names_distinct(after)) by {
                        assert forall|a: int, b: int| 0 <= a < b < after.len() implies (#[trigger] after[a]).0 != (#[trigger] after[b]).0 by {
                            assert(before[a].0 != before[b].0);
                        }
                    }
                    assert(info_map(after) =~= info_map(before).insert(n, v)) by {
                        assert forall|m: Seq<char>| #[trigger] info_map(after).dom().contains(m) <==> info_map(before).insert(n, v).dom().contains(m) by {
                            if info_map(before).dom().contains(m) {
                                let k = choose|k: int| 0 <= k < before.len() && (#[trigger] before[k]).0 == m;
                                assert(after[k].0 == m);
                            }
                            if info_map(after).dom().contains(m) && m != n {
                                let k = choose|k: int| 0 <= k < after.len() && (#[trigger] after[k]).0 == m;
                                assert(before[k].0 == m);
                            }
                            if m == n {
                                assert(after[i as int].0 == n);
                            }
                        }
                        assert forall|m: Seq<char>| #[trigger] info_map(after).dom().contains(m) implies info_map(after)[m] == info_map(before).insert(n, v)[m] by {
                            let k = choose|k: int| 0 <= k < after.len() && (#[trigger] after[k]).0 == m;
                            if m == n {
                                assert(k == i as int);
                            } else {
                                assert(before[k].0 == m);
                                let k2 = choose|k2: int| 0 <= k2 < before.len() && (#[trigger] before[k2]).0 == m;
                                assert(k2 == k);
                            }
                        }
                    }
                }
            },
            None => {
                self.dynamic.push((name, info));
                let ghost after = info_entries_view(self.dynamic@);
                proof {
                    assert(after =~= before.push((n, v)));
                    assert(info_map(after) =~= info_map(before).insert(n, v)) by {
                        assert forall|m: Seq<char>| #[trigger] info_map(after).dom().contains(m) <==> info_map(before).insert(n, v).dom().contains(m) by {
                            if info_map(before).dom().contains(m) {
                                let k = choose|k: int| 0 <= k < before.len() && (#[trigger] before[k]).0 == m;
                                assert(after[k].0 == m);
                            }
                            if info_map(after).dom().contains(m) && m != n {
                                let k = choose|k: int| 0 <= k < after.len() && (#[trigger] after[k]).0 == m;
                                assert(k < before.len());
                                assert(before[k].0 == m);
                            }
                            if m == n {
                                assert(after[before.len() as int].0 == n);
                            }
                        }
                        assert forall|m: Seq<char>| #[trigger] info_map(after).dom().contains(m) implies info_map(after)[m] == info_map(before).insert(n, v)[m] by {
                            let k = choose|k: int| 0 <= k < after.len() && (#[trigger] after[k]).0 == m;
                            if m == n {
                                assert(k == before.len() as int);
                            } else {
                                assert(before[k].0 == m);
                                let k2 = choose|k2: int| 0 <= k2 < before.len() && (#[trigger] before[k2]).0 == m;
                                assert(k2 == k);
                            }
                        }
                    }
                }
            },
        }
    }

    /// The position of the tool named `name`, if there is one.
    fn position(&self, name: &str) -> (r: Option<usize>)
        requires
            self.wf(),
        ensures
            match r {
                Some(i) => i < self@.len() && self@[i as int].name == name@,
                None => !has_tool(self@, name@),
            },
    {
        let mut i: usize = 0;
        while i < self.tools.len()
            invariant
                i <= self.tools.len(),
                self@ == defs_view(self.tools@),
                self@.len() == self.tools@.len(),
                forall|k: int| 0 <= k < i ==> (#[trigger] self@[k]).name != name@,
            decreases self.tools.len() - i,
        {
            if str_eq(self.tools[i].name.as_str(), name) {
                return Some(i);
            }
            i = i + 1;
        }
        None
    }

    /// Appends a tool whose name is not present.
    fn append(&mut self, def: ToolDefinition)
        requires
            old(self).wf(),
            !has_tool(old(self)@, def.name@),
            ref_free(def.schema@),
        ensures
            final(self).wf(),
            final(self)@ == old(self)@.push(def@),
            final(self).dynamic_tools() == old(self).dynamic_tools(),
    {
        let ghost before = self@;
        self.tools.push(def);
        assert(self@ =~= before.push(def@));
    }

    /// Registers built-in tools in order: a name already present is kept as
    /// it is; a tool whose schema does not compile stops the registration
    /// with `SchemaCompilation` (the tools before it stay registered).
    pub fn register_builtins(&mut self, builtins: Vec<ToolDefinition>) -> (r: Result<(), EngineError>)
        requires
            old(self).wf(),
        ensures
            final(self).wf(),
            final(self)@ == register_all(old(self)@, builtins@).0,
            final(self).dynamic_tools() == old(self).dynamic_tools(),
            match r {
                Ok(()) => register_all(old(self)@, builtins@).1 is None,
                Err(EngineError::SchemaCompilation(m)) => register_all(old(self)@, builtins@).1 == Some(m@),
                Err(_) => false,
            },
    {
        let ghost start = self@;
        let mut i: usize = 0;
        while i < builtins.len()
            invariant
                i <= builtins.len(),
                self.wf(),
                register_all(start, builtins@.take(i as int)) == (self@, None::<Seq<char>>),
                start == old(self)@,
                self.dynamic_tools() == old(self).dynamic_tools(),
            decreases builtins.len() - i,
        {
            let def = &builtins[i];
            assert(builtins@.take(i + 1).drop_last() =~= builtins@.take(i as int));
            match self.position(def.name.as_str()) {
                Some(_) => {},
                None => {
                    match schema_problem(def) {
                        Some(e) => {
                            let msg = String::from_str("failed to compile schema for `").concat(
                                def.name.as_str(),
                            ).concat("`: ").concat(e.as_str());
                            assert(builtins@.take(i + 1).last() == *def);
                            assert(msg@ == compile_failure_message(def.name@, e@));
                            assert(builtin_step(self@, *def) == (self@, Some(msg@)));
                            assert(register_all(start, builtins@.take(i + 1)) == (self@, Some(msg@)));
                            proof {
                                assert(builtins@.take(builtins.len() as int) =~= builtins@);
                                lemma_register_all_stops(start, builtins@, i as int + 1);
                                assert(register_all(start, builtins@) == (self@, Some(msg@)));
                            }
                            return Err(EngineError::SchemaCompilation(msg));
                        },
                        None => {
                            self.append(def.copy());
                        },
                    }
                },
            }
            i = i + 1;
        }
        assert(builtins@.take(builtins.len() as int) =~= builtins@);
        Ok(())
    }

    /// Loads what storage holds: the tools read back (a name already
    /// present, or a schema that does not compile, is passed over) and the
    /// run information of every stored row.
    pub fn load_stored(&mut self, stored: Vec<ToolDefinition>, infos: Vec<(String, DynamicToolInfo)>)
        requires
            old(self).wf(),
        ensures
            final(self).wf(),
            final(self)@ == load_all(old(self)@, stored@),
            final(self).dynamic_tools() == record_all(old(self).dynamic_tools(), info_entries_view(infos@)),
    {
        let ghost start = self@;
        let mut i: usize = 0;
        while i < stored.len()
            invariant
                i <= stored.len(),
                self.wf(),
                load_all(start, stored@.take(i as int)) == self@,
                self.dynamic_tools() == old(self).dynamic_tools(),
            decreases stored.len() - i,
        {
            let def = &stored[i];
            assert(stored@.take(i + 1).drop_last() =~= stored@.take(i as int));
            assert(stored@.take(i + 1).last() == *def);
            match self.position(def.name.as_str()) {
                Some(_) => {},
                None => {
                    match schema_problem(def) {
                        Some(_) => {},
                        None => {
                            self.append(def.copy());
                        },
                    }
                },
            }
            i = i + 1;
        }
        assert(stored@.take(stored.len() as int) =~= stored@);
        let ghost tools_after = self@;
        let ghost m0 = self.dynamic_tools();
        let mut j: usize = 0;
        while j < infos.len()
            invariant
                j <= infos.len(),
                self.wf(),
                self@ == tools_after,
                self.dynamic_tools() == record_all(m0, info_entries_view(infos@.take(j as int))),
            decreases infos.len() - j,
        {
            let (name, info) = (infos[j].0.clone(), infos[j].1.copy());
            proof {
                let t1 = info_entries_view(infos@.take(j + 1));
                assert(t1.drop_last() =~= info_entries_view(infos@.take(j as int)));
                assert(t1.last() == (name@, info@));
            }
            self.record_info(name, info);
            j = j + 1;
        }
        assert(infos@.take(infos.len() as int) =~= infos@);
    }

    /// Checks that a tool's schema compiles; the error is `SchemaCompilation`.
    pub fn check_schema(definition: &ToolDefinition) -> (r: Result<(), EngineError>)
        ensures
            match r {
                Ok(()) => schema_error(*definition) is None,
                Err(EngineError::SchemaCompilation(m)) => (schema_error(*definition)
                    matches Some(e) && m@ == compile_failure_message(definition.name@, e)),
                Err(_) => false,
            },
    {
        match schema_problem(definition) {
            Some(e) => {
                let msg = String::from_str("failed to compile schema for `").concat(
                    definition.name.as_str(),
                ).concat("`: ").concat(e.as_str());
                Err(EngineError::SchemaCompilation(msg))
            },
            None => Ok(()),
        }
    }

    /// Puts a tool in: it replaces the tool of the same name where there is
    /// one, and is appended otherwise.
    pub fn upsert(&mut self, definition: ToolDefinition)
        requires
            old(self).wf(),
            ref_free(definition.schema@),
        ensures
            final(self).wf(),
            final(self)@ == upsert(old(self)@, definition@),
            final(self).dynamic_tools() == old(self).dynamic_tools(),
    {
        let ghost before = self@;
        match self.position(definition.name.as_str()) {
            Some(i) => {
                let ghost d = definition@;
                self.tools.set(i, definition);
                proof {
                    assert(self@ =~= before.update(i as int, d));
                    let j = choose|j: int| 0 <= j < before.len() && (#[trigger] before[j]).name == d.name;
                    assert(j == i as int);
                }
            },
            None => {
                self.append(definition);
            },
        }
    }

    /// Registers a tool the agent created, with how it is run: its schema
    /// must compile (`SchemaCompilation` otherwise, and nothing changes);
    /// then it replaces the tool of the same name or is appended, and its run
    /// information replaces what was recorded under its name.
    pub fn register_dynamic(&mut self, definition: ToolDefinition, script_path: Option<String>, param_passing: &str) -> (r: Result<(), EngineError>)
        requires
            old(self).wf(),
        ensures
            final(self).wf(),
            r is Ok <==> schema_error(definition) is None,
            r is Ok ==> final(self)@ == upsert(old(self)@, definition@),
            r is Ok ==> final(self).dynamic_tools() == old(self).dynamic_tools().insert(
                definition.name@,
                (opt_string_view(script_path), param_passing@),
            ),
            r is Err ==> final(self)@ == old(self)@ && final(self).dynamic_tools() == old(self).dynamic_tools(),
            r matches Err(e) ==> (e matches EngineError::SchemaCompilation(m)
                && (schema_error(definition) matches Some(c)
                && m@ == compile_failure_message(definition.name@, c))),
    {
        match Self::check_schema(&definition) {
            Err(e) => Err(e),
            Ok(()) => {
                let name = definition.name.clone();
                self.upsert(definition);
                self.record_info(name, DynamicToolInfo { script_path, param_passing: String::from_str(param_passing) });
                Ok(())
            },
        }
    }

    /// The run information recorded for the tool `tool_name`, if any.
    pub fn get_dynamic_tool_info(&self, tool_name: &str) -> (r: Option<DynamicToolInfo>)
        requires
            self.wf(),
        ensures
            match r {
                Some(info) => self.dynamic_tools().dom().contains(tool_name@) && info@ == self.dynamic_tools()[tool_name@],
                None => !self.dynamic_tools().dom().contains(tool_name@),
            },
    {
        match self.info_position(tool_name) {
            Some(i) => {
                let ghost s = info_entries_view(self.dynamic@);
                proof {
                    assert(s[i as int].0 == tool_name@);
                    let k = choose|k: int| 0 <= k < s.len() && (#[trigger] s[k]).0 == tool_name@;
                    assert(k == i as int);
                }
                Some(self.dynamic[i].1.copy())
            },
            None => {
                proof {
                    let s = info_entries_view(self.dynamic@);
                    assert forall|k: int| 0 <= k < s.len() implies (#[trigger] s[k]).0 != tool_name@ by {
                        assert(self.dynamic@[k].0@ != tool_name@);
                    }
                }
                None
            },
        }
    }

    /// Checks parameters against the named tool's schema: `ToolNotFound`
    /// for an unknown name, `ValidationFailed` with the first error's text
    /// where they do not conform.
    pub fn validate_params(&self, tool_name: &str, parameters: &Json) -> (r: Result<(), EngineError>)
        requires
            self.wf(),
        ensures
            !has_tool(self@, tool_name@) ==> (r matches Err(EngineError::ToolNotFound(n)) && n@ == tool_name@),
            has_tool(self@, tool_name@) ==> exists|i: int|
                0 <= i < self@.len() && (#[trigger] self@[i]).name == tool_name@ && match schema_validation_error(
                    json_text(self.entries()[i].schema),
                    json_text(*parameters),
                ) {
                    None => r is Ok,
                    Some(m) => (r matches Err(EngineError::ValidationFailed { tool_name: t, message, remediation_hint })
                        && t@ == tool_name@ && message@ == m && remediation_hint is None),
                },
    {
        match self.position(tool_name) {
            None => Err(EngineError::ToolNotFound(String::from_str(tool_name))),
            Some(i) => {
                let schema_text = to_json_text(&self.tools[i].schema);
                let params_text = to_json_text(parameters);
                proof {
                    let sch = self.tools@[i as int].schema;
                    assert(self@[i as int] == self.tools@[i as int]@);
                    assert(ref_free(self@[i as int].schema));
                    assert(self@[i as int].schema == sch@);
                    assert(json_text(sch) == schema_text@);
                }
                let r = match check_against_schema(schema_text.as_str(), params_text.as_str()) {
                    None => Ok(()),
                    Some(message) => Err(
                        EngineError::ValidationFailed {
                            tool_name: String::from_str(tool_name),
                            message,
                            remediation_hint: None,
                        },
                    ),
                };
                assert(self@[i as int].name == tool_name@);
                r
            },
        }
    }

    /// All registered tools, in order.
    pub fn get_manifest_owned(&self) -> (r: Vec<ToolDefinition>)
        ensures
            defs_view(r@) == self@,
    {
        let mut out: Vec<ToolDefinition> = Vec::new();
        let mut i: usize = 0;
        while i < self.tools.len()
            invariant
                i <= self.tools.len(),
                defs_view(out@) == defs_view(self.tools@.take(i as int)),
            decreases self.tools.len() - i,
        {
            let ghost before = out@;
            let c = self.tools[i].copy();
            out.push(c);
            assert(defs_view(out@) =~= defs_view(before).push(self.tools@[i as int]@));
            assert(defs_view(self.tools@.take(i + 1)) =~= defs_view(self.tools@.take(i as int)).push(
                self.tools@[i as int]@,
            ));
            i = i + 1;
        }
        assert(self.tools@.take(self.tools.len() as int) =~= self.tools@);
        out
    }

    /// The tool of this name, if registered.
    pub fn get_tool_owned(&self, name: &str) -> (r: Option<ToolDefinition>)
        requires
            self.wf(),
        ensures
            r is None <==> !has_tool(self@, name@),
            r matches Some(d) ==> (exists|i: int| 0 <= i < self@.len() && (#[trigger] self@[i]).name == name@ && d@ == self@[i]),
    {
        match self.position(name) {
            None => None,
            Some(i) => Some(self.tools[i].copy()),
        }
    }

    /// The number of registered tools.
    pub fn len(&self) -> (r: usize)
        ensures
            r == self@.len(),
    {
        self.tools.len()
    }
}

/// Once registration fails, later tools change nothing.
proof fn lemma_register_all_stops(defs: Seq<ToolDefinitionV>, incoming: Seq<ToolDefinition>, k: int)
    requires
        0 <= k <= incoming.len(),
        register_all(defs, incoming.take(k)).1 is Some,
    ensures
        register_all(defs, incoming) == register_all(defs, incoming.take(k)),
    decreases incoming.len() - k,
{
    if k < incoming.len() {
        assert(incoming.take(k + 1).drop_last() =~= incoming.take(k));
        lemma_register_all_stops(defs, incoming, k + 1);
    } else {
        assert(incoming.take(k) =~= incoming);
    }
}

/// Registering built-in tools keeps every tool already registered, in its
/// place, and only appends.
pub proof fn lemma_register_builtins_keeps(defs: Seq<ToolDefinitionV>, incoming: Seq<ToolDefinition>)
    ensures
        register_all(defs, incoming).0.len() >= defs.len(),
        register_all(defs, incoming).0.subrange(0, defs.len() as int) == defs,
    decreases incoming.len(),
{
    if incoming.len() > 0 {
        lemma_register_builtins_keeps(defs, incoming.drop_last());
        let before = register_all(defs, incoming.drop_last()).0;
        assert(before.push(incoming.last()@).subrange(0, defs.len() as int) =~= before.subrange(0, defs.len() as int));
    }
}

/// After a tool is put in, looking up its name finds exactly it, and every
/// other name finds what it found before.
pub proof fn lemma_upsert_then_lookup(defs: Seq<ToolDefinitionV>, def: ToolDefinitionV, other: Seq<char>)
    requires
        names_distinct(defs),
    ensures
        names_distinct(upsert(defs, def)),
        has_tool(upsert(defs, def), def.name),
        forall|i: int| 0 <= i < upsert(defs, def).len() && (#[trigger] upsert(defs, def)[i]).name == def.name
            ==> upsert(defs, def)[i] == def,
        other != def.name ==> (has_tool(upsert(defs, def), other) <==> has_tool(defs, other)),
        other != def.name ==> forall|i: int| 0 <= i < defs.len() && (#[trigger] defs[i]).name == other
            ==> upsert(defs, def)[i] == defs[i],
{
    let u = upsert(defs, def);
    if has_tool(defs, def.name) {
        let k = choose|i: int| 0 <= i < defs.len() && (#[trigger] defs[i]).name == def.name;
        assert(u[k] == def);
        assert forall|i: int| 0 <= i < u.len() && (#[trigger] u[i]).name == def.name implies u[i] == def by {
            if i != k {
                assert(defs[i].name == def.name);
            }
        }
        if other != def.name {
            if has_tool(defs, other) {
                let j = choose|i: int| 0 <= i < defs.len() && (#[trigger] defs[i]).name == other;
                assert(u[j].name == other);
            }
            if has_tool(u, other) {
                let j = choose|i: int| 0 <= i < u.len() && (#[trigger] u[i]).name == other;
                assert(defs[j].name == other);
            }
        }
    } else {
        assert(u[defs.len() as int] == def);
        if other != def.name {
            if has_tool(defs, other) {
                let j = choose|i: int| 0 <= i < defs.len() && (#[trigger] defs[i]).name == other;
                assert(u[j].name == other);
            }
            if has_tool(u, other) {
                let j = choose|i: int| 0 <= i < u.len() && (#[trigger] u[i]).name == other;
                assert(defs[j].name == other);
            }
        }
    }
}

} // verus!
