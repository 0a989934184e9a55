//! Spawn depth of runs: a cache of known depths, the walk up a run's parent
//! chain that the host drives (it looks each run up), and the spawn check.

use vstd::prelude::*;

use std::collections::HashMap;

use crate::types::RunId;

verus! {

broadcast use vstd::std_specs::hash::group_hash_axioms;

/// The depths already known, by run id.
#[derive(Debug)]
pub struct DepthCache {
    map: HashMap<u128, u32>,
}

impl View for DepthCache {
    type V = Map<u128, u32>;

    closed spec fn view(&self) -> Map<u128, u32> {
        self.map@
    }
}

/// The cached depth of a run, if known.
pub open spec fn cached(m: Map<u128, u32>, id: RunId) -> Option<u32> {
    if m.contains_key(id.0) {
        Some(m[id.0])
    } else {
        None
    }
}

impl DepthCache {
    /// An empty cache.
    pub fn new() -> (r: DepthCache)
        ensures
            r@ == Map::<u128, u32>::empty(),
    {
        DepthCache { map: HashMap::new() }
    }

    /// The depth recorded for a run.
    pub fn get(&self, id: RunId) -> (r: Option<u32>)
        ensures
            r == cached(self@, id),
    {
        match self.map.get(&id.0) {
            Some(d) => Some(*d),
            None => None,
        }
    }

    /// Records the depth of a run.
    pub fn insert(&mut self, id: RunId, depth: u32)
        ensures
            final(self)@ == old(self)@.insert(id.0, depth),
    {
        self.map.insert(id.0, depth);
    }
}

/// A walk up the parent chain of `target`: `current` is the run to look up
/// next and `depth` the number of parents passed so far.
#[derive(Debug, Clone, Copy, PartialEq, Eq, Structural)]
pub struct DepthWalk {
    pub target: RunId,
    pub current: RunId,
    pub depth: u32,
}

/// How a depth computation starts.
#[derive(Debug, Clone, Copy, PartialEq, Eq, Structural)]
pub enum WalkStart {
    /// The depth is cached.
    Cached(u32),
    /// Look the runs up, starting with the walk's `current`.
    Walk(DepthWalk),
}

/// What follows a lookup during a walk.
#[derive(Debug, Clone, Copy, PartialEq, Eq, Structural)]
pub enum WalkNext {
    /// The depth of the walk's target, now cached.
    Done(u32),
    /// Look up the walk's next run.
    Continue(DepthWalk),
}

/// `a + b`, at most `u32::MAX`.
pub open spec fn sat_add(a: int, b: int) -> u32 {
    if a + b > u32::MAX { u32::MAX } else { (a + b) as u32 }
}

impl DepthCache {
    /// Starts computing the depth of `run_id`: from the cache, or by a walk
    /// from the run itself with no parent passed yet.
    pub fn start_walk(&self, run_id: RunId) -> (r: WalkStart)
        ensures
            match cached(self@, run_id) {
                Some(d) => r == WalkStart::Cached(d),
                None => r == WalkStart::Walk(DepthWalk { target: run_id, current: run_id, depth: 0 }),
            },
    {
        match self.get(run_id) {
            Some(d) => WalkStart::Cached(d),
            None => WalkStart::Walk(DepthWalk { target: run_id, current: run_id, depth: 0 }),
        }
    }

    /// One step of a walk, given the parent of the run just looked up: a run
    /// without parent ends the walk; otherwise one more parent is passed,
    /// and a parent whose depth is cached ends the walk with that depth
    /// added. The target's depth is cached when the walk ends. Depths
    /// saturate at `u32::MAX`.
    pub fn step(&mut self, walk: DepthWalk, parent: Option<RunId>) -> (r: WalkNext)
        ensures
            (r, final(self)@) == step_spec(old(self)@, walk, parent),
    {
        match parent {
            None => {
                self.insert(walk.target, walk.depth);
                WalkNext::Done(walk.depth)
            },
            Some(p) => {
                let next = walk.depth.saturating_add(1);
                match self.get(p) {
                    Some(pd) => {
                        let d = next.saturating_add(pd);
                        self.insert(walk.target, d);
                        WalkNext::Done(d)
                    },
                    None => WalkNext::Continue(DepthWalk { target: walk.target, current: p, depth: next }),
                }
            },
        }
    }
}

/// One step of a walk over the cache `m`, given the parent of the run just
/// looked up: what follows, and the cache after it.
pub open spec fn step_spec(m: Map<u128, u32>, walk: DepthWalk, parent: Option<RunId>) -> (WalkNext, Map<u128, u32>) {
    match parent {
        None => (WalkNext::Done(walk.depth), m.insert(walk.target.0, walk.depth)),
        Some(p) => match cached(m, p) {
            Some(pd) => {
                let d = sat_add(sat_add(walk.depth as int, 1) as int, pd as int);
                (WalkNext::Done(d), m.insert(walk.target.0, d))
            },
            None => (
                WalkNext::Continue(DepthWalk { target: walk.target, current: p, depth: sat_add(walk.depth as int, 1) }),
                m,
            ),
        },
    }
}

/// `id` has exactly `d` ancestors under the parent links `parents` (each
/// stored run's id mapped to its parent's id, if any): its chain of parents
/// is stored all the way up and ends after `d` links.
pub open spec fn depth_is(parents: Map<u128, Option<u128>>, id: u128, d: nat) -> bool
    decreases d,
{
    parents.contains_key(id) && match parents[id] {
        None => d == 0,
        Some(p) => d > 0 && depth_is(parents, p, (d - 1) as nat),
    }
}

/// Every cached depth is the number of ancestors of its run.
pub open spec fn cache_sound(parents: Map<u128, Option<u128>>, m: Map<u128, u32>) -> bool {
    forall|id: u128| #[trigger] m.contains_key(id) ==> depth_is(parents, id, m[id] as nat)
}

/// A walk is sound when the target's ancestors number the walk's depth
/// plus those of the run it looks up next.
pub open spec fn walk_sound(parents: Map<u128, Option<u128>>, walk: DepthWalk) -> bool {
    forall|k: nat| #[trigger] depth_is(parents, walk.current.0, k) ==> depth_is(parents, walk.target.0, (walk.depth + k) as nat)
}

/// What the host's lookup of `id` finds: `None` for a run that is not
/// stored, else the run's parent.
pub open spec fn lookup_spec(parents: Map<u128, Option<u128>>, id: RunId) -> Option<Option<RunId>> {
    if parents.contains_key(id.0) {
        match parents[id.0] {
            Some(p) => Some(Some(RunId(p))),
            None => Some(None),
        }
    } else {
        None
    }
}

/// A run has at most one number of ancestors.
pub proof fn lemma_depth_unique(parents: Map<u128, Option<u128>>, id: u128, d1: nat, d2: nat)
    requires
        depth_is(parents, id, d1),
        depth_is(parents, id, d2),
    ensures
        d1 == d2,
    decreases d1,
{
    if let Some(p) = parents[id] {
        lemma_depth_unique(parents, p, (d1 - 1) as nat, (d2 - 1) as nat);
    }
}

/// A walk starts sound: it looks up its own target with no parent passed.
pub proof fn lemma_walk_start(parents: Map<u128, Option<u128>>, run_id: RunId)
    ensures
        walk_sound(parents, DepthWalk { target: run_id, current: run_id, depth: 0 }),
{
}

/// The depth walk computes the number of ancestors: where every cached
/// depth is right and the walk is sound, one step with what the lookup of
/// the walk's current run finds keeps every cached depth right, ends with
/// exactly the target's number of ancestors, or goes on with a sound walk.
/// This holds while the target's number of ancestors fits a `u32`.
pub proof fn lemma_step_counts_ancestors(parents: Map<u128, Option<u128>>, m: Map<u128, u32>, walk: DepthWalk)
    requires
        cache_sound(parents, m),
        walk_sound(parents, walk),
        parents.contains_key(walk.current.0),
        forall|d: nat| #[trigger] depth_is(parents, walk.target.0, d) ==> d <= u32::MAX,
    ensures
        ({
            let (next, m2) = step_spec(m, walk, lookup_spec(parents, walk.current).unwrap());
            &&& cache_sound(parents, m2)
            &&& next matches WalkNext::Done(d) ==> depth_is(parents, walk.target.0, d as nat)
            &&& next matches WalkNext::Continue(w) ==> w.target == walk.target && walk_sound(parents, w)
                && w.current.0 == parents[walk.current.0].unwrap()
        }),
{
    let parent = lookup_spec(parents, walk.current).unwrap();
    match parents[walk.current.0] {
        None => {
            assert(depth_is(parents, walk.current.0, 0));
            assert(depth_is(parents, walk.target.0, walk.depth as nat));
            let m2 = m.insert(walk.target.0, walk.depth);
            assert forall|id: u128| #[trigger] m2.contains_key(id) implies depth_is(parents, id, m2[id] as nat) by {
                if id != walk.target.0 {
                    assert(m.contains_key(id));
                }
            }
        },
        Some(p) => {
            let pr = RunId(p);
            assert(parent == Some(pr));
            if m.contains_key(p) {
                let pd = m[p];
                assert(depth_is(parents, p, pd as nat));
                assert(depth_is(parents, walk.current.0, (pd + 1) as nat));
                let total: nat = (walk.depth + pd + 1) as nat;
                assert(depth_is(parents, walk.target.0, total));
                assert(total <= u32::MAX);
                let d = sat_add(sat_add(walk.depth as int, 1) as int, pd as int);
                assert(d == total);
                let m2 = m.insert(walk.target.0, d);
                assert forall|id: u128| #[trigger] m2.contains_key(id) implies depth_is(parents, id, m2[id] as nat) by {
                    if id != walk.target.0 {
                        assert(m.contains_key(id));
                    }
                }
            } else {
                let w = DepthWalk { target: walk.target, current: pr, depth: sat_add(walk.depth as int, 1) };
                assert forall|k: nat| #[trigger] depth_is(parents, w.current.0, k) implies depth_is(
                    parents,
                    w.target.0,
                    (w.depth + k) as nat,
                ) by {
                    assert(depth_is(parents, walk.current.0, k + 1));
                    assert(depth_is(parents, walk.target.0, (walk.depth + k + 1) as nat));
                    assert(walk.depth + k + 1 <= u32::MAX);
                }
            }
        },
    }
}

/// A cached depth that is right is the number of ancestors of its run.
pub proof fn lemma_cached_counts_ancestors(parents: Map<u128, Option<u128>>, m: Map<u128, u32>, id: RunId)
    requires
        cache_sound(parents, m),
        m.contains_key(id.0),
    ensures
        depth_is(parents, id.0, cached(m, id).unwrap() as nat),
{
}

/// Storing a new run under a parent with `d` ancestors keeps every depth as
/// it was, gives the new run `d + 1` ancestors, and so keeps the cache
/// right once the new run's depth `d + 1` is recorded.
pub proof fn lemma_child_depth(parents: Map<u128, Option<u128>>, m: Map<u128, u32>, parent: u128, d: nat, child: u128)
    requires
        cache_sound(parents, m),
        depth_is(parents, parent, d),
        !parents.contains_key(child),
        d + 1 <= u32::MAX,
    ensures
        depth_is(parents.insert(child, Some(parent)), child, d + 1),
        cache_sound(parents.insert(child, Some(parent)), m.insert(child, (d + 1) as u32)),
{
    let p2 = parents.insert(child, Some(parent));
    lemma_depth_extends(parents, child, parent, parent, d);
    assert(depth_is(p2, child, d + 1));
    let m2 = m.insert(child, (d + 1) as u32);
    assert forall|id: u128| #[trigger] m2.contains_key(id) implies depth_is(p2, id, m2[id] as nat) by {
        if id != child {
            assert(m.contains_key(id));
            lemma_depth_extends(parents, child, parent, id, m[id] as nat);
        }
    }
}

/// Adding a run that was not stored changes no stored run's number of
/// ancestors.
proof fn lemma_depth_extends(parents: Map<u128, Option<u128>>, child: u128, parent: u128, id: u128, d: nat)
    requires
        depth_is(parents, id, d),
        !parents.contains_key(child),
    ensures
        depth_is(parents.insert(child, Some(parent)), id, d),
    decreases d,
{
    if let Some(p) = parents[id] {
        lemma_depth_extends(parents, child, parent, p, (d - 1) as nat);
    }
}

/// The limit that applies to a run: its own spawn depth limit, at most the
/// hard maximum.
pub open spec fn effective_limit_spec(spawn_depth_limit: u32, hard_max_depth: u32) -> u32 {
    if spawn_depth_limit < hard_max_depth { spawn_depth_limit } else { hard_max_depth }
}

/// The limit that applies to a run.
pub fn effective_limit(spawn_depth_limit: u32, hard_max_depth: u32) -> (r: u32)
    ensures
        r == effective_limit_spec(spawn_depth_limit, hard_max_depth),
{
    if spawn_depth_limit < hard_max_depth {
        spawn_depth_limit
    } else {
        hard_max_depth
    }
}

/// The spawn check: a parent at `parent_depth` may spawn only below the
/// effective limit, and its child is one deeper. `Err((current, limit))`
/// otherwise.
pub fn check_spawn_depth(parent_depth: u32, spawn_depth_limit: u32, hard_max_depth: u32) -> (r: Result<u32, (u32, u32)>)
    ensures
        parent_depth >= effective_limit_spec(spawn_depth_limit, hard_max_depth) ==> r == Err::<u32, (u32, u32)>(
            (parent_depth, effective_limit_spec(spawn_depth_limit, hard_max_depth)),
        ),
        parent_depth < effective_limit_spec(spawn_depth_limit, hard_max_depth) ==> r == Ok::<u32, (u32, u32)>(
            (parent_depth + 1) as u32,
        ),
        r matches Ok(child) ==> child <= spawn_depth_limit && child <= hard_max_depth,
{
    let limit = effective_limit(spawn_depth_limit, hard_max_depth);
    if parent_depth >= limit {
        Err((parent_depth, limit))
    } else {
        Ok(parent_depth + 1)
    }
}

/// A recorded depth reads back as recorded, and recording one run's depth
/// leaves every other run's depth as it was.
pub proof fn lemma_recorded_depth(m: Map<u128, u32>, id: RunId, depth: u32, other: RunId)
    ensures
        cached(m.insert(id.0, depth), id) == Some(depth),
        other.0 != id.0 ==> cached(m.insert(id.0, depth), other) == cached(m, other),
{
}

} // verus!
