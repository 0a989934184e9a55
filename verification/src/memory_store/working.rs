//! The working tier: entries held in memory, found by id or by
//! case-insensitive substring of their text, cleared between turns.

use vstd::prelude::*;

use crate::memory_store::types::{MemoryEntry, MemoryEntryV};
use crate::text::{contains_str, is_substring, spec_lowercase, str_eq, to_lowercase};

verus! {

/// The views of a sequence of entries.
pub open spec fn entry_views(s: Seq<MemoryEntry>) -> Seq<MemoryEntryV> {
    s.map_values(|e: MemoryEntry| e@)
}

/// The entry with this id, if any.
pub open spec fn find_entry(s: Seq<MemoryEntryV>, id: Seq<char>) -> Option<MemoryEntryV>
    decreases s.len(),
{
    if s.len() == 0 {
        None
    } else if s.last().id == id {
        Some(s.last())
    } else {
        find_entry(s.drop_last(), id)
    }
}

/// No two entries share an id.
pub open spec fn unique_ids(s: Seq<MemoryEntryV>) -> bool {
    forall|i: int, j: int| 0 <= i < j < s.len() ==> (#[trigger] s[i]).id != (#[trigger] s[j]).id
}

/// Whether an entry's text holds the query, ignoring case.
pub open spec fn text_matches(e: MemoryEntryV, query: Seq<char>) -> bool {
    is_substring(spec_lowercase(query), spec_lowercase(e.content))
}

/// The entries whose text holds the query, in order.
pub open spec fn matching_entries(s: Seq<MemoryEntryV>, query: Seq<char>) -> Seq<MemoryEntryV>
    decreases s.len(),
{
    if s.len() == 0 {
        Seq::empty()
    } else if text_matches(s.last(), query) {
        matching_entries(s.drop_last(), query).push(s.last())
    } else {
        matching_entries(s.drop_last(), query)
    }
}

/// The entries without the one of this id.
pub open spec fn without_id(s: Seq<MemoryEntryV>, id: Seq<char>) -> Seq<MemoryEntryV>
    decreases s.len(),
{
    if s.len() == 0 {
        Seq::empty()
    } else if s.last().id == id {
        without_id(s.drop_last(), id)
    } else {
        without_id(s.drop_last(), id).push(s.last())
    }
}

/// The entries after writing `e`: every entry of its id gives way to it,
/// at the end.
pub open spec fn with_entry(s: Seq<MemoryEntryV>, e: MemoryEntryV) -> Seq<MemoryEntryV> {
    without_id(s, e.id).push(e)
}

/// The working tier.
#[derive(Debug)]
pub struct WorkingTier {
    entries: Vec<MemoryEntry>,
}

impl View for WorkingTier {
    type V = Seq<MemoryEntryV>;

    closed spec fn view(&self) -> Seq<MemoryEntryV> {
        entry_views(self.entries@)
    }
}

impl WorkingTier {
    /// An empty tier.
    pub fn new() -> (r: WorkingTier)
        ensures
            r@ == Seq::<MemoryEntryV>::empty(),
    {
        let r = WorkingTier { entries: Vec::new() };
        assert(r@ =~= Seq::<MemoryEntryV>::empty());
        r
    }

    /// Removes every entry.
    pub fn clear(&mut self)
        ensures
            final(self)@ == Seq::<MemoryEntryV>::empty(),
    {
        self.entries = Vec::new();
        assert(self@ =~= Seq::<MemoryEntryV>::empty());
    }

    /// The entry with this id, if any.
    pub fn read(&self, id: &str) -> (r: Option<MemoryEntry>)
        ensures
            match r {
                Some(e) => find_entry(self@, id@) == Some(e@),
                None => find_entry(self@, id@) is None,
            },
    {
        let mut i: usize = self.entries.len();
        assert(self@.take(self.entries.len() as int) =~= self@);
        while i > 0
            invariant
                i <= self.entries.len(),
                self@ == entry_views(self.entries@),
                self@.len() == self.entries.len(),
                find_entry(self@, id@) == find_entry(self@.take(i as int), id@),
            decreases i,
        {
            let e = &self.entries[i - 1];
            assert(self@.take(i as int).drop_last() =~= self@.take(i - 1));
            assert(self@.take(i as int).last() == e@);
            if str_eq(e.id.as_str(), id) {
                return Some(e.copy());
            }
            i = i - 1;
        }
        None
    }

    /// Removes the entry with this id, if any.
    pub fn delete(&mut self, id: &str)
        ensures
            final(self)@ == without_id(old(self)@, id@),
    {
        let ghost start = self@;
        let mut old_entries: Vec<MemoryEntry> = Vec::new();
        std::mem::swap(&mut old_entries, &mut self.entries);
        let mut kept: Vec<MemoryEntry> = Vec::new();
        let mut i: usize = 0;
        while i < old_entries.len()
            invariant
                i <= old_entries.len(),
                start == entry_views(old_entries@),
                entry_views(kept@) == without_id(start.take(i as int), id@),
            decreases old_entries.len() - i,
        {
            let e = &old_entries[i];
            assert(start.take(i + 1).drop_last() =~= start.take(i as int));
            assert(start.take(i + 1).last() == e@);
            if !str_eq(e.id.as_str(), id) {
                let ghost before = kept@;
                kept.push(e.copy());
                assert(entry_views(kept@) =~= entry_views(before).push(e@));
            }
            i = i + 1;
        }
        assert(start.take(old_entries.len() as int) =~= start);
        self.entries = kept;
    }

    /// Stores a copy of `entry`, replacing the entry with its id.
    pub fn write(&mut self, entry: &MemoryEntry)
        ensures
            final(self)@ == with_entry(old(self)@, entry@),
    {
        self.delete(entry.id.as_str());
        let ghost before = self@;
        self.entries.push(entry.copy());
        assert(self@ =~= before.push(entry@));
    }

    /// The entries whose text holds `query` ignoring case, in order, at
    /// most `limit` of them.
    pub fn search(&self, query: &str, limit: usize) -> (r: Vec<MemoryEntry>)
        ensures
            entry_views(r@) == (if matching_entries(self@, query@).len() <= limit {
                matching_entries(self@, query@)
            } else {
                matching_entries(self@, query@).take(limit as int)
            }),
    {
        let q = to_lowercase(query);
        let mut out: Vec<MemoryEntry> = Vec::new();
        let mut i: usize = 0;
        while i < self.entries.len()
            invariant
                i <= self.entries.len(),
                q@ == spec_lowercase(query@),
                self@ == entry_views(self.entries@),
                self@.len() == self.entries.len(),
                entry_views(out@) == matching_entries(self@.take(i as int), query@),
            decreases self.entries.len() - i,
        {
            let e = &self.entries[i];
            assert(self@.take(i + 1).drop_last() =~= self@.take(i as int));
            assert(self@.take(i + 1).last() == e@);
            let text = to_lowercase(e.content.as_str());
            if contains_str(text.as_str(), q.as_str()) {
                let ghost before = out@;
                out.push(e.copy());
                assert(entry_views(out@) =~= entry_views(before).push(e@));
            }
            i = i + 1;
        }
        assert(self@.take(self.entries.len() as int) =~= self@);
        if out.len() > limit {
            let ghost whole = out@;
            out.truncate(limit);
            assert(entry_views(out@) =~= entry_views(whole).take(limit as int));
        }
        out
    }

    /// The number of entries.
    pub fn len(&self) -> (r: usize)
        ensures
            r == self@.len(),
    {
        self.entries.len()
    }
}

/// Nothing of an id is left once it is removed.
pub proof fn lemma_without_id_gone(s: Seq<MemoryEntryV>, id: Seq<char>)
    ensures
        find_entry(without_id(s, id), id) is None,
        forall|other: Seq<char>| other != id ==> find_entry(without_id(s, id), other) == find_entry(s, other),
    decreases s.len(),
{
    if s.len() > 0 {
        let p = s.drop_last();
        lemma_without_id_gone(p, id);
        let w = without_id(p, id);
        if s.last().id != id {
            assert(w.push(s.last()).drop_last() =~= w);
            assert forall|other: Seq<char>| other != id implies find_entry(without_id(s, id), other) == find_entry(
                s,
                other,
            ) by {
                assert(without_id(s, id) == w.push(s.last()));
                assert(find_entry(w, other) == find_entry(p, other));
                assert(w.push(s.last()).last() == s.last());
            }
        } else {
            assert forall|other: Seq<char>| other != id implies find_entry(without_id(s, id), other) == find_entry(
                s,
                other,
            ) by {
                assert(without_id(s, id) == w);
                assert(find_entry(w, other) == find_entry(p, other));
            }
        }
    }
}

/// Reading an id gives back the last entry written with it; writing an
/// entry leaves what other ids read unchanged.
pub proof fn lemma_read_after_write(s: Seq<MemoryEntryV>, e: MemoryEntryV, other: Seq<char>)
    ensures
        find_entry(with_entry(s, e), e.id) == Some(e),
        other != e.id ==> find_entry(with_entry(s, e), other) == find_entry(s, other),
{
    lemma_without_id_gone(s, e.id);
    assert(with_entry(s, e).drop_last() =~= without_id(s, e.id));
}

/// After a delete, the id reads as absent; other ids read as before.
pub proof fn lemma_read_after_delete(s: Seq<MemoryEntryV>, id: Seq<char>, other: Seq<char>)
    ensures
        find_entry(without_id(s, id), id) is None,
        other != id ==> find_entry(without_id(s, id), other) == find_entry(s, other),
{
    lemma_without_id_gone(s, id);
}

/// After clearing, no id reads and no query matches.
pub proof fn lemma_cleared_is_empty(id: Seq<char>, query: Seq<char>)
    ensures
        find_entry(Seq::<MemoryEntryV>::empty(), id) is None,
        matching_entries(Seq::<MemoryEntryV>::empty(), query).len() == 0,
{
}

/// Each id is held at most once, whatever was written.
pub proof fn lemma_writes_keep_ids_unique(s: Seq<MemoryEntryV>, e: MemoryEntryV)
    requires
        unique_ids(s),
    ensures
        unique_ids(with_entry(s, e)),
{
    lemma_without_id_subset(s, e.id);
    let w = without_id(s, e.id);
    assert forall|i: int, j: int| 0 <= i < j < w.push(e).len() implies (#[trigger] w.push(e)[i]).id
        != (#[trigger] w.push(e)[j]).id by {
        if j == w.len() {
            assert(w[i].id != e.id);
        }
    }
}

/// Removing an id keeps ids unique and leaves no entry of that id.
proof fn lemma_without_id_subset(s: Seq<MemoryEntryV>, id: Seq<char>)
    requires
        unique_ids(s),
    ensures
        unique_ids(without_id(s, id)),
        forall|i: int| 0 <= i < without_id(s, id).len() ==> (#[trigger] without_id(s, id)[i]).id != id,
        forall|i: int| 0 <= i < without_id(s, id).len() ==> s.contains(#[trigger] without_id(s, id)[i]),
    decreases s.len(),
{
    if s.len() > 0 {
        let p = s.drop_last();
        assert(unique_ids(p));
        lemma_without_id_subset(p, id);
        let w = without_id(p, id);
        if s.last().id != id {
            assert forall|i: int| 0 <= i < w.len() implies (#[trigger] w[i]).id != s.last().id by {
                let k = choose|k: int| 0 <= k < p.len() && p[k] == w[i];
                assert(s[k] == p[k]);
            }
            assert forall|i: int| 0 <= i < w.push(s.last()).len() implies s.contains(#[trigger] w.push(s.last())[i]) by {
                if i < w.len() {
                    let k = choose|k: int| 0 <= k < p.len() && p[k] == w[i];
                    assert(s[k] == p[k]);
                } else {
                    assert(s[s.len() - 1] == s.last());
                }
            }
        } else {
            assert forall|i: int| 0 <= i < w.len() implies s.contains(#[trigger] w[i]) by {
                let k = choose|k: int| 0 <= k < p.len() && p[k] == w[i];
                assert(s[k] == p[k]);
            }
        }
    }
}

} // verus!
