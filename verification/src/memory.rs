//! The engine's two-tier memory: a working tier held in memory, searched by
//! case-insensitive substring, and a persistent tier that the host keeps in
//! an SQLite full-text index, queried with [`persistent_fts_query`].

use vstd::prelude::*;

use crate::json::Json;
use crate::text::{
    contains_str, is_substring, join_strings, seq_join, spec_lowercase, split_whitespace, str_eq,
    string_views, to_lowercase, ws_words,
};
use crate::types::MemoryTier;

verus! {

/// One memory: its id, tier, text, metadata, and its creation and update
/// times as RFC 3339 text.
#[derive(Debug)]
pub struct MemoryEntry {
    pub id: String,
    pub tier: MemoryTier,
    pub content: String,
    pub metadata: Json,
    pub created_at: String,
    pub updated_at: String,
}

/// The mathematical form of a memory entry.
pub struct MemoryEntryV {
    pub id: Seq<char>,
    pub tier: MemoryTier,
    pub content: Seq<char>,
    pub metadata: crate::json::JsonV,
    pub created_at: Seq<char>,
    pub updated_at: Seq<char>,
}

impl View for MemoryEntry {
    type V = MemoryEntryV;

    open spec fn view(&self) -> MemoryEntryV {
        MemoryEntryV {
            id: self.id@,
            tier: self.tier,
            content: self.content@,
            metadata: self.metadata@,
            created_at: self.created_at@,
            updated_at: self.updated_at@,
        }
    }
}

impl MemoryEntry {
    /// A copy with the same mathematical form.
    pub fn copy(&self) -> (r: MemoryEntry)
        ensures
            r@ == self@,
    {
        MemoryEntry {
            id: self.id.clone(),
            tier: self.tier,
            content: self.content.clone(),
            metadata: self.metadata.deep_clone(),
            created_at: self.created_at.clone(),
            updated_at: self.updated_at.clone(),
        }
    }
}

/// The views of a sequence of entries.
pub open spec fn entries_view(s: Seq<MemoryEntry>) -> Seq<MemoryEntryV> {
    s.map_values(|e: MemoryEntry| e@)
}

/// No two entries share an id.
pub open spec fn ids_distinct(s: Seq<MemoryEntryV>) -> bool {
    forall|i: int, j: int| 0 <= i < j < s.len() ==> (#[trigger] s[i]).id != (#[trigger] s[j]).id
}

/// Whether an entry's text holds the query, ignoring case.
pub open spec fn matches_query(e: MemoryEntryV, query: Seq<char>) -> bool {
    is_substring(spec_lowercase(query), spec_lowercase(e.content))
}

/// The entries whose text holds the query, in order.
pub open spec fn matching(s: Seq<MemoryEntryV>, query: Seq<char>) -> Seq<MemoryEntryV>
    decreases s.len(),
{
    if s.len() == 0 {
        Seq::empty()
    } else if matches_query(s.last(), query) {
        matching(s.drop_last(), query).push(s.last())
    } else {
        matching(s.drop_last(), query)
    }
}

/// The first `n` of a sequence, or all of it.
pub open spec fn first_n<A>(s: Seq<A>, n: nat) -> Seq<A> {
    if s.len() <= n { s } else { s.take(n as int) }
}

/// Entries after writing `e`: it replaces the entry of the same id where
/// there is one, and is appended otherwise.
pub open spec fn put_entry(s: Seq<MemoryEntryV>, e: MemoryEntryV) -> Seq<MemoryEntryV> {
    if exists|i: int| 0 <= i < s.len() && (#[trigger] s[i]).id == e.id {
        let i = choose|i: int| 0 <= i < s.len() && (#[trigger] s[i]).id == e.id;
        s.update(i, e)
    } else {
        s.push(e)
    }
}

/// Writing an entry is read back and replaces only its own id: afterwards
/// the entry is held, it is the only one under its id, every entry of
/// another id is held exactly when it was before, ids stay distinct, and the
/// count grows by one exactly when the id was new.
pub proof fn lemma_put_entry(s: Seq<MemoryEntryV>, e: MemoryEntryV)
    requires
        ids_distinct(s),
    ensures
        ids_distinct(put_entry(s, e)),
        put_entry(s, e).contains(e),
        forall|i: int| 0 <= i < put_entry(s, e).len() && (#[trigger] put_entry(s, e)[i]).id == e.id ==> put_entry(s, e)[i] == e,
        forall|x: MemoryEntryV| x.id != e.id ==> (#[trigger] put_entry(s, e).contains(x) <==> s.contains(x)),
        put_entry(s, e).len() == s.len() + if (exists|i: int| 0 <= i < s.len() && (#[trigger] s[i]).id == e.id) { 0int } else { 1int },
{
    let p = put_entry(s, e);
    if exists|i: int| 0 <= i < s.len() && (#[trigger] s[i]).id == e.id {
        let k = choose|i: int| 0 <= i < s.len() && (#[trigger] s[i]).id == e.id;
        assert(p == s.update(k, e));
        assert(p[k] == e);
        assert forall|i: int| 0 <= i < p.len() && (#[trigger] p[i]).id == e.id implies p[i] == e by {
            if i != k {
                assert(s[i].id == s[k].id);
            }
        }
        assert forall|a: int, b: int| 0 <= a < b < p.len() implies (#[trigger] p[a]).id != (#[trigger] p[b]).id by {
            if a != k && b != k {
                assert(s[a].id != s[b].id);
            } else if a == k {
                assert(s[b].id != s[k].id);
            } else {
                assert(s[a].id != s[k].id);
            }
        }
        assert forall|x: MemoryEntryV| x.id != e.id implies (#[trigger] p.contains(x) <==> s.contains(x)) by {
            if p.contains(x) {
                let j = choose|j: int| 0 <= j < p.len() && p[j] == x;
                assert(j != k);
                assert(s[j] == x);
            }
            if s.contains(x) {
                let j = choose|j: int| 0 <= j < s.len() && s[j] == x;
                assert(j != k);
                assert(p[j] == x);
            }
        }
    } else {
        assert(p == s.push(e));
        assert(p[s.len() as int] == e);
        assert forall|i: int| 0 <= i < p.len() && (#[trigger] p[i]).id == e.id implies p[i] == e by {
            if i < s.len() {
                assert(s[i].id == e.id);
            }
        }
        assert forall|a: int, b: int| 0 <= a < b < p.len() implies (#[trigger] p[a]).id != (#[trigger] p[b]).id by {
            if b < s.len() {
                assert(s[a].id != s[b].id);
            } else {
                assert(p[a] == s[a]);
            }
        }
        assert forall|x: MemoryEntryV| x.id != e.id implies (#[trigger] p.contains(x) <==> s.contains(x)) by {
            if p.contains(x) {
                let j = choose|j: int| 0 <= j < p.len() && p[j] == x;
                assert(j < s.len());
                assert(s[j] == x);
            }
            if s.contains(x) {
                let j = choose|j: int| 0 <= j < s.len() && s[j] == x;
                assert(p[j] == x);
            }
        }
    }
}

/// The working tier: entries in the order they were first written, each id
/// once.
#[derive(Debug)]
pub struct WorkingMemory {
    entries: Vec<MemoryEntry>,
}

impl View for WorkingMemory {
    type V = Seq<MemoryEntryV>;

    closed spec fn view(&self) -> Seq<MemoryEntryV> {
        entries_view(self.entries@)
    }
}

impl WorkingMemory {
    /// The invariant: each id once.
    pub open spec fn wf(&self) -> bool {
        ids_distinct(self@)
    }

    /// An empty working tier.
    pub fn new() -> (r: WorkingMemory)
        ensures
            r.wf(),
            r@ == Seq::<MemoryEntryV>::empty(),
    {
        let r = WorkingMemory { entries: Vec::new() };
        assert(r@ =~= Seq::<MemoryEntryV>::empty());
        r
    }

    /// Stores a copy of `entry`, replacing the entry with the same id.
    pub fn write(&mut self, entry: &MemoryEntry)
        requires
            old(self).wf(),
        ensures
            final(self).wf(),
            final(self)@ == put_entry(old(self)@, entry@),
            final(self)@.contains(entry@),
            forall|x: MemoryEntryV| x.id != entry@.id ==> (#[trigger] final(self)@.contains(x) <==> old(self)@.contains(x)),
    {
        let ghost before = self@;
        let mut i: usize = 0;
        while i < self.entries.len()
            invariant
                i <= self.entries.len(),
                self@ == before,
                before == entries_view(self.entries@),
                before.len() == self.entries.len(),
                ids_distinct(before),
                before == old(self)@,
                forall|k: int| 0 <= k < i ==> (#[trigger] before[k]).id != entry.id@,
            decreases self.entries.len() - i,
        {
            if str_eq(self.entries[i].id.as_str(), entry.id.as_str()) {
                let c = entry.copy();
                self.entries.set(i, c);
                proof {
                    assert(self@ =~= before.update(i as int, entry@));
                    assert(before[i as int].id == entry@.id);
                    let j = choose|j: int| 0 <= j < before.len() && (#[trigger] before[j]).id == entry@.id;
                    assert(j == i as int);
                    lemma_put_entry(before, entry@);
                }
                return;
            }
            i = i + 1;
        }
        let c = entry.copy();
        self.entries.push(c);
        assert(self@ =~= before.push(entry@));
        proof {
            lemma_put_entry(before, entry@);
        }
    }

    /// The entries whose text holds `query` ignoring case, in order, at
    /// most `limit` of them.
    pub fn search(&self, query: &str, limit: usize) -> (r: Vec<MemoryEntry>)
        ensures
            entries_view(r@) == first_n(matching(self@, query@), limit as nat),
    {
        let q = to_lowercase(query);
        let mut out: Vec<MemoryEntry> = Vec::new();
        let mut i: usize = 0;
        while i < self.entries.len()
            invariant
                i <= self.entries.len(),
                q@ == spec_lowercase(query@),
                self@ == entries_view(self.entries@),
                self@.len() == self.entries.len(),
                entries_view(out@) == matching(self@.take(i as int), query@),
            decreases self.entries.len() - i,
        {
            let e = &self.entries[i];
            assert(self@.take(i + 1).drop_last() =~= self@.take(i as int));
            assert(self@.take(i + 1).last() == e@);
            let text = to_lowercase(e.content.as_str());
            if contains_str(text.as_str(), q.as_str()) {
                let ghost before = out@;
                out.push(e.copy());
                assert(entries_view(out@) =~= entries_view(before).push(e@));
            }
            i = i + 1;
        }
        assert(self@.take(self.entries.len() as int) =~= self@);
        if out.len() > limit {
            let ghost whole = out@;
            out.truncate(limit);
            assert(entries_view(out@) =~= entries_view(whole).take(limit as int));
        }
        out
    }

    /// The number of entries.
    pub fn len(&self) -> (r: usize)
        ensures
            r == self@.len(),
    {
        self.entries.len()
    }
}

/// Each word of a query quoted as a phrase.
pub open spec fn quote_words(ws: Seq<Seq<char>>) -> Seq<Seq<char>> {
    ws.map_values(|w: Seq<char>| seq!['"'] + w + seq!['"'])
}

/// The full-text query for the persistent tier: each white-space separated
/// word of the query in double quotes, joined with ` OR `.
pub fn persistent_fts_query(query: &str) -> (r: String)
    ensures
        r@ == seq_join(quote_words(ws_words(query@)), " OR "@),
{
    let words = split_whitespace(query);
    let mut quoted: Vec<String> = Vec::new();
    let mut i: usize = 0;
    while i < words.len()
        invariant
            i <= words.len(),
            string_views(quoted@) == quote_words(string_views(words@).take(i as int)),
        decreases words.len() - i,
    {
        let ghost before = quoted@;
        let w = String::from_str("\"").concat(words[i].as_str()).concat("\"");
        proof {
            reveal_strlit("\"");
        }
        quoted.push(w);
        proof {
            let ws = string_views(words@);
            assert(ws.take(i + 1) =~= ws.take(i as int).push(ws[i as int]));
            assert(ws[i as int] == words@[i as int]@);
            assert(w@ =~= seq!['"'] + words@[i as int]@ + seq!['"']);
            assert(string_views(quoted@) =~= string_views(before).push(w@));
            assert(quote_words(ws.take(i + 1)) =~= quote_words(ws.take(i as int)).push(w@));
        }
        i = i + 1;
    }
    assert(string_views(words@).take(words.len() as int) =~= string_views(words@));
    join_strings(quoted.as_slice(), " OR ")
}

} // verus!
