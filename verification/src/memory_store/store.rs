//! The memory store's decisions: which search strategies run, what a
//! promotion does, and the payloads of the events it emits. The host runs
//! the tiers' storage and the trajectory.

use vstd::prelude::*;

use crate::json::{jobj, jstr, juint, lemma_entries_view, push_entry, Json, JsonV, NumV};
use crate::memory_store::types::{
    promotion_allowed, tier_label, tier_label_text, validate_promotion, MemoryEntry, MemoryEntryV, MemoryError,
    MemoryTier,
};

verus! {

/// How memories are searched.
#[derive(Debug, Clone, Copy, PartialEq, Eq, Structural)]
pub enum SearchStrategy {
    Bm25,
    Vector,
    Hybrid,
}

/// Whether a strategy can serve a request: vector search is not
/// implemented; hybrid search runs as BM25, and the host warns (`Ok(true)`).
pub fn strategy_gate(strategy: SearchStrategy) -> (r: Result<bool, MemoryError>)
    ensures
        strategy == SearchStrategy::Vector <==> (r matches Err(MemoryError::VectorNotImplemented)),
        strategy == SearchStrategy::Hybrid <==> r == Ok::<bool, MemoryError>(true),
        strategy == SearchStrategy::Bm25 <==> r == Ok::<bool, MemoryError>(false),
{
    match strategy {
        SearchStrategy::Vector => Err(MemoryError::VectorNotImplemented),
        SearchStrategy::Hybrid => Ok(true),
        SearchStrategy::Bm25 => Ok(false),
    }
}

/// Where a promoted entry goes.
#[derive(Debug)]
pub enum PromotionAction {
    /// Into the global approval queue.
    Queue(MemoryEntry),
    /// Written to the target tier.
    Write(MemoryEntry),
}

/// The status of a request in the global promotion queue.
#[derive(Debug, Clone, Copy, PartialEq, Eq, Structural)]
pub enum PromotionStatus {
    Pending,
    Approved,
    Rejected,
}

/// The stored name of a status.
pub open spec fn promotion_status_name(s: PromotionStatus) -> Seq<char> {
    match s {
        PromotionStatus::Pending => "pending"@,
        PromotionStatus::Approved => "approved"@,
        PromotionStatus::Rejected => "rejected"@,
    }
}

impl PromotionStatus {
    /// The stored name of the status.
    pub fn to_string(&self) -> (r: String)
        ensures
            r@ == promotion_status_name(*self),
    {
        match self {
            PromotionStatus::Pending => String::from_str("pending"),
            PromotionStatus::Approved => String::from_str("approved"),
            PromotionStatus::Rejected => String::from_str("rejected"),
        }
    }
}

/// A request in the global promotion queue; `requested_at` is RFC 3339 text.
#[derive(Debug)]
pub struct PromotionRequest {
    pub id: String,
    pub entry_id: String,
    pub content: String,
    pub metadata: Json,
    pub requested_at: String,
    pub status: PromotionStatus,
}

/// Whether a promotion to `to` waits in the approval queue: promotions to
/// the global tier do, unless global promotions are approved automatically.
pub open spec fn queued_promotion(to: MemoryTier, auto_approve_global: bool) -> bool {
    to == MemoryTier::Global && !auto_approve_global
}

/// What a promotion does once it passed `validate_promotion` and the entry
/// was looked up in the source tier: `EntryNotFound` (in the source tier)
/// for a missing entry; otherwise the entry, moved to the target tier and
/// updated at `now`, is queued for approval when the target is global (and
/// global promotions are not approved automatically) and written there
/// otherwise.
pub fn plan_promotion(
    entry_id: &str,
    from: MemoryTier,
    to: MemoryTier,
    found: Option<MemoryEntry>,
    now: String,
    auto_approve_global: bool,
) -> (r: Result<PromotionAction, MemoryError>)
    ensures
        found is None ==> (r matches Err(MemoryError::EntryNotFound { tier, id }) && tier == from && id@ == entry_id@),
        found matches Some(e) ==> (r matches Ok(a) && ({
            let moved = MemoryEntryV { tier: to, updated_at: now@, ..e@ };
            match a {
                PromotionAction::Queue(p) => queued_promotion(to, auto_approve_global) && p@ == moved,
                PromotionAction::Write(p) => !queued_promotion(to, auto_approve_global) && p@ == moved,
            }
        })),
{
    match found {
        None => Err(MemoryError::EntryNotFound { tier: from, id: String::from_str(entry_id) }),
        Some(e) => {
            let moved = MemoryEntry {
                id: e.id,
                tier: to,
                content: e.content,
                metadata: e.metadata,
                created_at: e.created_at,
                updated_at: now,
            };
            let global = match to {
                MemoryTier::Global => true,
                _ => false,
            };
            if global && !auto_approve_global {
                Ok(PromotionAction::Queue(moved))
            } else {
                Ok(PromotionAction::Write(moved))
            }
        },
    }
}

/// The payload of a write event.
pub open spec fn write_payload_v(tier: MemoryTier, entry_id: Seq<char>) -> JsonV {
    JsonV::Object(seq![("tier"@, JsonV::Str(tier_label_text(tier))), ("entry_id"@, JsonV::Str(entry_id))])
}

/// The payload of a write event: the tier's label and the entry's id.
pub fn write_payload(tier: MemoryTier, entry_id: &str) -> (r: Json)
    ensures
        r@ == write_payload_v(tier, entry_id@),
{
    let mut e: Vec<(String, Json)> = Vec::new();
    push_entry(&mut e, "tier", jstr(tier_label(tier)));
    push_entry(&mut e, "entry_id", jstr(entry_id));
    let r = jobj(e);
    proof {
        lemma_entries_view(e@);
        assert(crate::json::json_entries_view(e@) =~= seq![
            ("tier"@, JsonV::Str(tier_label_text(tier))),
            ("entry_id"@, JsonV::Str(entry_id@)),
        ]);
    }
    r
}

/// The payload of a search event.
pub open spec fn search_payload_v(tier: MemoryTier, query: Seq<char>, count: usize) -> JsonV {
    JsonV::Object(
        seq![
            ("tier"@, JsonV::Str(tier_label_text(tier))),
            ("query"@, JsonV::Str(query)),
            ("results_count"@, JsonV::Number(NumV::PosInt(count as u64))),
        ],
    )
}

/// The payload of a search event: the tier's label, the query and the
/// number of results.
pub fn search_payload(tier: MemoryTier, query: &str, results_count: usize) -> (r: Json)
    ensures
        r@ == search_payload_v(tier, query@, results_count),
{
    let mut e: Vec<(String, Json)> = Vec::new();
    push_entry(&mut e, "tier", jstr(tier_label(tier)));
    push_entry(&mut e, "query", jstr(query));
    push_entry(&mut e, "results_count", juint(results_count as u64));
    let r = jobj(e);
    proof {
        lemma_entries_view(e@);
        assert(crate::json::json_entries_view(e@) =~= seq![
            ("tier"@, JsonV::Str(tier_label_text(tier))),
            ("query"@, JsonV::Str(query@)),
            ("results_count"@, JsonV::Number(NumV::PosInt(results_count as u64))),
        ]);
    }
    r
}

/// The payload of a promotion event.
pub open spec fn promote_payload_v(entry_id: Seq<char>, from: MemoryTier, to: MemoryTier, queued: bool) -> JsonV {
    JsonV::Object(
        seq![
            ("entry_id"@, JsonV::Str(entry_id)),
            ("from"@, JsonV::Str(tier_label_text(from))),
            ("to"@, JsonV::Str(tier_label_text(to))),
            ("queued"@, JsonV::Bool(queued)),
        ],
    )
}

/// The payload of a promotion event: the entry, both tiers, and whether it
/// went to the approval queue.
pub fn promote_payload(entry_id: &str, from: MemoryTier, to: MemoryTier, auto_approve_global: bool) -> (r: Json)
    ensures
        r@ == promote_payload_v(entry_id@, from, to, queued_promotion(to, auto_approve_global)),
{
    let global = match to {
        MemoryTier::Global => true,
        _ => false,
    };
    let queued = global && !auto_approve_global;
    let mut e: Vec<(String, Json)> = Vec::new();
    push_entry(&mut e, "entry_id", jstr(entry_id));
    push_entry(&mut e, "from", jstr(tier_label(from)));
    push_entry(&mut e, "to", jstr(tier_label(to)));
    push_entry(&mut e, "queued", Json::Bool(queued));
    let r = jobj(e);
    proof {
        lemma_entries_view(e@);
        assert(crate::json::json_entries_view(e@) =~= seq![
            ("entry_id"@, JsonV::Str(entry_id@)),
            ("from"@, JsonV::Str(tier_label_text(from))),
            ("to"@, JsonV::Str(tier_label_text(to))),
            ("queued"@, JsonV::Bool(queued)),
        ]);
    }
    r
}

/// The stored status with this name.
pub open spec fn promotion_status_named(name: Seq<char>) -> Option<PromotionStatus> {
    if name == "pending"@ {
        Some(PromotionStatus::Pending)
    } else if name == "approved"@ {
        Some(PromotionStatus::Approved)
    } else if name == "rejected"@ {
        Some(PromotionStatus::Rejected)
    } else {
        None
    }
}

/// Reads a stored status name.
pub fn parse_promotion_status(name: &str) -> (r: Option<PromotionStatus>)
    ensures
        r == promotion_status_named(name@),
{
    if crate::text::str_eq(name, "pending") {
        Some(PromotionStatus::Pending)
    } else if crate::text::str_eq(name, "approved") {
        Some(PromotionStatus::Approved)
    } else if crate::text::str_eq(name, "rejected") {
        Some(PromotionStatus::Rejected)
    } else {
        None
    }
}

/// The status a decision leaves: a pending request becomes approved or
/// rejected; no other request can be decided.
pub open spec fn decided(current: Option<PromotionStatus>, approve: bool) -> Option<PromotionStatus> {
    if current == Some(PromotionStatus::Pending) {
        Some(if approve { PromotionStatus::Approved } else { PromotionStatus::Rejected })
    } else {
        None
    }
}

/// The decision on approving (or rejecting) queued request `queue_id`
/// whose stored status is `current` (none where there is no such request):
/// the new status of a pending request; `EntryNotFound` in the global tier
/// for any other.
pub fn decide_promotion(queue_id: &str, current: Option<PromotionStatus>, approve: bool) -> (r: Result<PromotionStatus, MemoryError>)
    ensures
        decided(current, approve) matches Some(s) ==> r == Ok::<PromotionStatus, MemoryError>(s),
        decided(current, approve) is None ==> (r matches Err(MemoryError::EntryNotFound { tier, id })
            && tier == MemoryTier::Global && id@ == queue_id@),
{
    match current {
        Some(PromotionStatus::Pending) => {
            if approve {
                Ok(PromotionStatus::Approved)
            } else {
                Ok(PromotionStatus::Rejected)
            }
        },
        _ => Err(MemoryError::EntryNotFound { tier: MemoryTier::Global, id: String::from_str(queue_id) }),
    }
}

/// A queued request is decided at most once: once approved or rejected, a
/// second approval or rejection of it fails.
pub proof fn lemma_decided_once(current: Option<PromotionStatus>, first: bool, second: bool)
    ensures
        decided(current, first) matches Some(s) ==> decided(Some(s), second) is None,
{
}

} // verus!
