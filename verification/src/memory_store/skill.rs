//! Skills: Markdown documents with a YAML front matter (name, description,
//! triggers) that give context for tasks. The host reads the skill files
//! and decodes the front matter; this module splits a file into front
//! matter and body, keeps the loaded skills, and picks the skills whose
//! triggers a task mentions.

use vstd::prelude::*;

use crate::memory_store::types::MemoryError;
use crate::text::{
    chars_range, contains_str, find_chars, first_occurrence, has_prefix, is_substring, occurs_at,
    spec_lowercase, spec_trim, sort_strings, starts_with_chars, str_eq, string_views, strings_sorted, to_chars,
    to_lowercase, trim,
};

verus! {

/// A skill: its name, description, trigger words and Markdown body.
#[derive(Debug)]
pub struct Skill {
    pub name: String,
    pub description: String,
    pub trigger_conditions: Vec<String>,
    pub content: String,
}

impl Skill {
    /// A copy with the same fields.
    pub fn copy(&self) -> (r: Skill)
        ensures
            r.name@ == self.name@,
            r.description@ == self.description@,
            string_views(r.trigger_conditions@) == string_views(self.trigger_conditions@),
            r.content@ == self.content@,
    {
        let mut triggers: Vec<String> = Vec::new();
        let mut i: usize = 0;
        while i < self.trigger_conditions.len()
            invariant
                i <= self.trigger_conditions.len(),
                string_views(triggers@) == string_views(self.trigger_conditions@.take(i as int)),
            decreases self.trigger_conditions.len() - i,
        {
            let ghost before = triggers@;
            let t = self.trigger_conditions[i].clone();
            triggers.push(t);
            assert(string_views(triggers@) =~= string_views(before).push(self.trigger_conditions@[i as int]@));
            assert(string_views(self.trigger_conditions@.take(i + 1)) =~= string_views(
                self.trigger_conditions@.take(i as int),
            ).push(self.trigger_conditions@[i as int]@));
            i = i + 1;
        }
        assert(self.trigger_conditions@.take(self.trigger_conditions.len() as int) =~= self.trigger_conditions@);
        Skill {
            name: self.name.clone(),
            description: self.description.clone(),
            trigger_conditions: triggers,
            content: self.content.clone(),
        }
    }
}

/// The error text of a file without front matter.
pub open spec fn no_frontmatter_message() -> Seq<char> {
    "skill file must start with YAML frontmatter (---)"@
}

/// The error text of a front matter that is not closed.
pub open spec fn unclosed_frontmatter_message() -> Seq<char> {
    "missing closing --- for YAML frontmatter"@
}

/// A skill file split into its front matter text and its body: the file,
/// trimmed, must start with `---`; the front matter runs up to the next
/// `---`, and the body is the trimmed rest after it.
pub open spec fn frontmatter_split(content: Seq<char>) -> Result<(Seq<char>, Seq<char>), Seq<char>> {
    let t = spec_trim(content);
    if !has_prefix(t, "---"@) {
        Err(no_frontmatter_message())
    } else {
        let after = t.subrange(3, t.len() as int);
        match first_occurrence(after, "---"@) {
            None => Err(unclosed_frontmatter_message()),
            Some(i) => Ok((after.subrange(0, i), spec_trim(after.subrange(i + 3, after.len() as int)))),
        }
    }
}

/// Splits a skill file into its front matter and its body; `Yaml` errors
/// for a file that does not start with `---` or never closes it.
pub fn split_frontmatter(content: &str) -> (r: Result<(String, String), MemoryError>)
    ensures
        match frontmatter_split(content@) {
            Ok((yaml, body)) => (r matches Ok((y, b)) && y@ == yaml && b@ == body),
            Err(m) => (r matches Err(MemoryError::Yaml(e)) && e@ == m),
        },
{
    let t = trim(content);
    let tc = to_chars(t.as_str());
    let mut dashes: Vec<char> = Vec::new();
    dashes.push('-');
    dashes.push('-');
    dashes.push('-');
    proof {
        reveal_strlit("---");
        assert(dashes@ =~= "---"@);
    }
    if !starts_with_chars(&tc, &dashes) {
        return Err(MemoryError::Yaml(String::from_str("skill file must start with YAML frontmatter (---)")));
    }
    let mut after: Vec<char> = Vec::new();
    let mut i: usize = 3;
    while i < tc.len()
        invariant
            3 <= i <= tc.len(),
            after@ == tc@.subrange(3, i as int),
        decreases tc.len() - i,
    {
        after.push(tc[i]);
        assert(tc@.subrange(3, i + 1) =~= tc@.subrange(3, i as int).push(tc@[i as int]));
        i = i + 1;
    }
    let ghost after_spec = tc@.subrange(3, tc@.len() as int);
    assert(after@ == after_spec);
    match find_chars(&after, &dashes) {
        None => {
            proof {
                assert(!(exists|j: int| #[trigger] occurs_at(after_spec, "---"@, j)));
            }
            Err(MemoryError::Yaml(String::from_str("missing closing --- for YAML frontmatter")))
        },
        Some(end) => {
            proof {
                assert(occurs_at(after_spec, "---"@, end as int));
                let j = choose|j: int|
                    occurs_at(after_spec, "---"@, j) && forall|k: int| 0 <= k < j ==> !#[trigger] occurs_at(after_spec, "---"@, k);
                if j < end {
                    assert(!occurs_at(after_spec, "---"@, j));
                }
                if j > end {
                    assert(!occurs_at(after_spec, "---"@, end as int));
                }
                assert(j == end);
                assert(first_occurrence(after_spec, "---"@) == Some(end as int));
            }
            let yaml = chars_range(&after, 0, end);
            let rest = chars_range(&after, end + 3, after.len());
            let body = trim(rest.as_str());
            Ok((yaml, body))
        },
    }
}

/// Whether a task mentions one of a skill's triggers, ignoring case.
pub open spec fn skill_matches(triggers: Seq<String>, context: Seq<char>) -> bool {
    exists|i: int| 0 <= i < triggers.len() && is_substring(spec_lowercase((#[trigger] triggers[i])@), spec_lowercase(context))
}

/// The names of the skills a task mentions, in catalog order.
pub open spec fn matched_names(skills: Seq<Skill>, context: Seq<char>) -> Seq<Seq<char>>
    decreases skills.len(),
{
    if skills.len() == 0 {
        Seq::empty()
    } else if skill_matches(skills.last().trigger_conditions@, context) {
        matched_names(skills.drop_last(), context).push(skills.last().name@)
    } else {
        matched_names(skills.drop_last(), context)
    }
}

/// No two skills share a name.
pub open spec fn skill_names_distinct(skills: Seq<Skill>) -> bool {
    forall|i: int, j: int| 0 <= i < j < skills.len() ==> (#[trigger] skills[i]).name@ != (#[trigger] skills[j]).name@
}

/// The skills of a directory: the manifest of (name, description) in the
/// order the files were read, and the loaded skills, one per name (a later
/// file with the same name replaces the earlier skill).
#[derive(Debug)]
pub struct FilesystemSkillLoader {
    skills_dir: String,
    manifest: Vec<(String, String)>,
    skills: Vec<Skill>,
}

impl FilesystemSkillLoader {
    pub closed spec fn spec_skills(&self) -> Seq<Skill> {
        self.skills@
    }

    pub closed spec fn spec_manifest(&self) -> Seq<(String, String)> {
        self.manifest@
    }

    pub closed spec fn spec_dir(&self) -> Seq<char> {
        self.skills_dir@
    }

    /// The invariant: one skill per name.
    pub open spec fn wf(&self) -> bool {
        skill_names_distinct(self.spec_skills())
    }

    /// A loader for a directory, with nothing loaded yet.
    pub fn new(skills_dir: String) -> (r: FilesystemSkillLoader)
        ensures
            r.wf(),
            r.spec_dir() == skills_dir@,
            r.spec_skills().len() == 0,
            r.spec_manifest().len() == 0,
    {
        FilesystemSkillLoader { skills_dir, manifest: Vec::new(), skills: Vec::new() }
    }

    /// The directory the skills are read from.
    pub fn skills_dir(&self) -> (r: &str)
        ensures
            r@ == self.spec_dir(),
    {
        self.skills_dir.as_str()
    }

    /// Forgets every loaded skill, before a new scan.
    pub fn clear(&mut self)
        ensures
            final(self).wf(),
            final(self).spec_dir() == old(self).spec_dir(),
            final(self).spec_skills().len() == 0,
            final(self).spec_manifest().len() == 0,
    {
        self.manifest = Vec::new();
        self.skills = Vec::new();
    }

    /// Adds a skill read from a file: its name and description join the
    /// manifest, and it replaces a loaded skill of the same name.
    pub fn add_skill(&mut self, skill: Skill)
        requires
            old(self).wf(),
        ensures
            final(self).wf(),
            final(self).spec_dir() == old(self).spec_dir(),
            final(self).spec_manifest().len() == old(self).spec_manifest().len() + 1,
            final(self).spec_manifest().last().0@ == skill.name@,
            final(self).spec_manifest().last().1@ == skill.description@,
            final(self).spec_manifest().drop_last() == old(self).spec_manifest(),
            exists|i: int| 0 <= i < final(self).spec_skills().len() && (#[trigger] final(self).spec_skills()[i]) == skill,
            forall|i: int| 0 <= i < final(self).spec_skills().len() && (#[trigger] final(self).spec_skills()[i]).name@
                == skill.name@ ==> final(self).spec_skills()[i] == skill,
            forall|i: int| 0 <= i < old(self).spec_skills().len() && (#[trigger] old(self).spec_skills()[i]).name@ != skill.name@
                ==> final(self).spec_skills().contains(old(self).spec_skills()[i]),
            forall|i: int| 0 <= i < final(self).spec_skills().len() ==> (#[trigger] final(self).spec_skills()[i]) == skill
                || old(self).spec_skills().contains(final(self).spec_skills()[i]),
    {
        let ghost before = self.manifest@;
        self.manifest.push((skill.name.clone(), skill.description.clone()));
        assert(self.manifest@.drop_last() =~= before);
        let ghost m = self.manifest@;
        let ghost old_skills = self.skills@;
        let mut i: usize = 0;
        while i < self.skills.len()
            invariant
                i <= self.skills.len(),
                self.skills@ == old_skills,
                old_skills == old(self).spec_skills(),
                skill_names_distinct(old_skills),
                self.manifest@ == m,
                self.skills_dir == old(self).skills_dir,
                m.len() == old(self).spec_manifest().len() + 1,
                m.last().0@ == skill.name@,
                m.last().1@ == skill.description@,
                m.drop_last() == old(self).spec_manifest(),
                forall|k: int| 0 <= k < i ==> (#[trigger] old_skills[k]).name@ != skill.name@,
            decreases self.skills.len() - i,
        {
            if str_eq(self.skills[i].name.as_str(), skill.name.as_str()) {
                let ghost idx = i as int;
                self.skills.set(i, skill);
                proof {
                    assert(self.skills@[idx] == skill);
                    assert forall|a: int, b: int| 0 <= a < b < self.skills@.len() implies (#[trigger] self.skills@[a]).name@
                        != (#[trigger] self.skills@[b]).name@ by {
                        if a == idx {
                            assert(old_skills[idx].name@ == skill.name@);
                        }
                        if b == idx {
                            assert(old_skills[idx].name@ == skill.name@);
                        }
                    }
                    assert forall|k: int| 0 <= k < old_skills.len() && (#[trigger] old_skills[k]).name@ != skill.name@ implies self.skills@.contains(old_skills[k]) by {
                        assert(k != idx);
                        assert(self.skills@[k] == old_skills[k]);
                    }
                    assert forall|k: int| 0 <= k < self.skills@.len() implies (#[trigger] self.skills@[k]) == skill
                        || old_skills.contains(self.skills@[k]) by {
                        if k != idx {
                            assert(self.skills@[k] == old_skills[k]);
                        }
                    }
                }
                return;
            }
            i = i + 1;
        }
        self.skills.push(skill);
        proof {
            let n = old_skills.len() as int;
            assert(self.skills@[n] == skill);
            assert(self.spec_skills()[n] == skill);
            assert forall|k: int| 0 <= k < old_skills.len() && (#[trigger] old_skills[k]).name@ != skill.name@ implies self.skills@.contains(old_skills[k]) by {
                assert(self.skills@[k] == old_skills[k]);
            }
            assert forall|k: int| 0 <= k < self.skills@.len() implies (#[trigger] self.skills@[k]) == skill
                || old_skills.contains(self.skills@[k]) by {
                if k < n {
                    assert(self.skills@[k] == old_skills[k]);
                }
            }
        }
    }

    /// The (name, description) pairs of the manifest, in order.
    pub fn list_skills(&self) -> (r: Vec<(String, String)>)
        ensures
            r.len() == self.spec_manifest().len(),
            forall|i: int| 0 <= i < r.len() ==> (#[trigger] r@[i]).0@ == self.spec_manifest()[i].0@
                && r@[i].1@ == self.spec_manifest()[i].1@,
    {
        let mut out: Vec<(String, String)> = Vec::new();
        let mut i: usize = 0;
        while i < self.manifest.len()
            invariant
                i <= self.manifest.len(),
                out.len() == i,
                forall|k: int| 0 <= k < i ==> (#[trigger] out@[k]).0@ == self.manifest@[k].0@ && out@[k].1@
                    == self.manifest@[k].1@,
            decreases self.manifest.len() - i,
        {
            out.push((self.manifest[i].0.clone(), self.manifest[i].1.clone()));
            i = i + 1;
        }
        out
    }

    /// The loaded skill of this name, if any.
    pub fn load_skill(&self, name: &str) -> (r: Option<Skill>)
        ensures
            match r {
                Some(s) => exists|i: int| 0 <= i < self.spec_skills().len() && (#[trigger] self.spec_skills()[i]).name@
                    == name@ && s.name@ == self.spec_skills()[i].name@ && s.description@ == self.spec_skills()[i].description@
                    && string_views(s.trigger_conditions@) == string_views(self.spec_skills()[i].trigger_conditions@) && s.content@
                    == self.spec_skills()[i].content@,
                None => forall|i: int| 0 <= i < self.spec_skills().len() ==> (#[trigger] self.spec_skills()[i]).name@ != name@,
            },
    {
        let mut i: usize = 0;
        while i < self.skills.len()
            invariant
                i <= self.skills.len(),
                forall|k: int| 0 <= k < i ==> (#[trigger] self.skills@[k]).name@ != name@,
            decreases self.skills.len() - i,
        {
            if str_eq(self.skills[i].name.as_str(), name) {
                let c = self.skills[i].copy();
                assert(self.spec_skills()[i as int].name@ == name@);
                return Some(c);
            }
            i = i + 1;
        }
        None
    }

    /// The names of the loaded skills with a trigger that the task context
    /// contains, ignoring case; sorted.
    pub fn match_skills(&self, task_context: &str) -> (r: Vec<String>)
        ensures
            strings_sorted(r@),
            string_views(r@).to_multiset() == matched_names(self.spec_skills(), task_context@).to_multiset(),
    {
        let ctx = to_lowercase(task_context);
        let mut names: Vec<String> = Vec::new();
        let mut i: usize = 0;
        while i < self.skills.len()
            invariant
                i <= self.skills.len(),
                ctx@ == spec_lowercase(task_context@),
                string_views(names@) == matched_names(self.skills@.take(i as int), task_context@),
            decreases self.skills.len() - i,
        {
            let s = &self.skills[i];
            assert(self.skills@.take(i + 1).drop_last() =~= self.skills@.take(i as int));
            assert(self.skills@.take(i + 1).last() == *s);
            let mut hit = false;
            let mut j: usize = 0;
            while j < s.trigger_conditions.len()
                invariant
                    j <= s.trigger_conditions.len(),
                    ctx@ == spec_lowercase(task_context@),
                    hit == (exists|k: int| 0 <= k < j && is_substring(
                        spec_lowercase((#[trigger] s.trigger_conditions@[k])@),
                        spec_lowercase(task_context@),
                    )),
                decreases s.trigger_conditions.len() - j,
            {
                let t = to_lowercase(s.trigger_conditions[j].as_str());
                if contains_str(ctx.as_str(), t.as_str()) {
                    hit = true;
                }
                j = j + 1;
            }
            if hit {
                let ghost before = names@;
                names.push(s.name.clone());
                assert(string_views(names@) =~= string_views(before).push(s.name@));
            }
            i = i + 1;
        }
        assert(self.skills@.take(self.skills.len() as int) =~= self.skills@);
        sort_strings(names)
    }
}

} // verus!
