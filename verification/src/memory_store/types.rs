//! The hierarchy's tiers, entries and errors, and the promotion rule.

use vstd::prelude::*;

use crate::json::{Json, JsonV};

verus! {

/// The four memory tiers, from the most transient to the most shared.
#[derive(Debug, Clone, Copy, PartialEq, Eq, Structural)]
pub enum MemoryTier {
    Working,
    Episodic,
    Project,
    Global,
}

/// The `{:?}` name of a tier.
pub open spec fn tier_debug_name(t: MemoryTier) -> Seq<char> {
    match t {
        MemoryTier::Working => "Working"@,
        MemoryTier::Episodic => "Episodic"@,
        MemoryTier::Project => "Project"@,
        MemoryTier::Global => "Global"@,
    }
}

/// The `{:?}` name of a tier.
pub fn tier_debug(t: MemoryTier) -> (r: &'static str)
    ensures
        r@ == tier_debug_name(t),
{
    match t {
        MemoryTier::Working => "Working",
        MemoryTier::Episodic => "Episodic",
        MemoryTier::Project => "Project",
        MemoryTier::Global => "Global",
    }
}

/// The rank of a tier: working 0, episodic 1, project 2, global 3.
pub open spec fn tier_rank(t: MemoryTier) -> u8 {
    match t {
        MemoryTier::Working => 0,
        MemoryTier::Episodic => 1,
        MemoryTier::Project => 2,
        MemoryTier::Global => 3,
    }
}

/// The rank of a tier, used to check promotions.
pub fn tier_order(tier: MemoryTier) -> (r: u8)
    ensures
        r == tier_rank(tier),
{
    match tier {
        MemoryTier::Working => 0,
        MemoryTier::Episodic => 1,
        MemoryTier::Project => 2,
        MemoryTier::Global => 3,
    }
}

/// The lower-case name of a tier, used in event payloads.
pub open spec fn tier_label_text(t: MemoryTier) -> Seq<char> {
    match t {
        MemoryTier::Working => "working"@,
        MemoryTier::Episodic => "episodic"@,
        MemoryTier::Project => "project"@,
        MemoryTier::Global => "global"@,
    }
}

/// The lower-case name of a tier.
pub fn tier_label(tier: MemoryTier) -> (r: &'static str)
    ensures
        r@ == tier_label_text(tier),
{
    match tier {
        MemoryTier::Working => "working",
        MemoryTier::Episodic => "episodic",
        MemoryTier::Project => "project",
        MemoryTier::Global => "global",
    }
}

/// One memory of the hierarchy: its id, tier, text, metadata, and its
/// creation and update times as RFC 3339 text.
#[derive(Debug)]
pub struct MemoryEntry {
    pub id: String,
    pub tier: MemoryTier,
    pub content: String,
    pub metadata: Json,
    pub created_at: String,
    pub updated_at: String,
}

/// The mathematical form of an entry.
pub struct MemoryEntryV {
    pub id: Seq<char>,
    pub tier: MemoryTier,
    pub content: Seq<char>,
    pub metadata: JsonV,
    pub created_at: Seq<char>,
    pub updated_at: Seq<char>,
}

impl View for MemoryEntry {
    type V = MemoryEntryV;

    open spec fn view(&self) -> MemoryEntryV {
        MemoryEntryV {
            id: self.id@,
            tier: self.tier,
            content: self.content@,
            metadata: self.metadata@,
            created_at: self.created_at@,
            updated_at: self.updated_at@,
        }
    }
}

impl MemoryEntry {
    /// A copy with the same mathematical form.
    pub fn copy(&self) -> (r: MemoryEntry)
        ensures
            r@ == self@,
    {
        MemoryEntry {
            id: self.id.clone(),
            tier: self.tier,
            content: self.content.clone(),
            metadata: self.metadata.deep_clone(),
            created_at: self.created_at.clone(),
            updated_at: self.updated_at.clone(),
        }
    }
}

/// What can go wrong in the memory hierarchy. Errors of storage, files,
/// serialization and tasks arrive as their message text.
#[derive(Debug)]
pub enum MemoryError {
    EntryNotFound { tier: MemoryTier, id: String },
    InvalidPromotion(String),
    Sqlite(String),
    Io(String),
    Serialization(String),
    Yaml(String),
    Trajectory(String),
    Join(String),
    VectorNotImplemented,
}

/// The text of an error.
pub open spec fn memory_error_text(e: MemoryError) -> Seq<char> {
    match e {
        MemoryError::EntryNotFound { tier, id } => "entry not found in "@ + tier_debug_name(tier) + ": "@ + id@,
        MemoryError::InvalidPromotion(m) => "invalid promotion: "@ + m@,
        MemoryError::Sqlite(m) => "SQLite error: "@ + m@,
        MemoryError::Io(m) => "IO error: "@ + m@,
        MemoryError::Serialization(m) => "serialization error: "@ + m@,
        MemoryError::Yaml(m) => "YAML parse error: "@ + m@,
        MemoryError::Trajectory(m) => "trajectory error: "@ + m@,
        MemoryError::Join(m) => "task join error: "@ + m@,
        MemoryError::VectorNotImplemented => "vector search not implemented — use Bm25 strategy"@,
    }
}

impl MemoryError {
    /// The text of the error.
    pub fn to_string(&self) -> (r: String)
        ensures
            r@ == memory_error_text(*self),
    {
        match self {
            MemoryError::EntryNotFound { tier, id } => String::from_str("entry not found in ").concat(
                tier_debug(*tier),
            ).concat(": ").concat(id.as_str()),
            MemoryError::InvalidPromotion(m) => String::from_str("invalid promotion: ").concat(m.as_str()),
            MemoryError::Sqlite(m) => String::from_str("SQLite error: ").concat(m.as_str()),
            MemoryError::Io(m) => String::from_str("IO error: ").concat(m.as_str()),
            MemoryError::Serialization(m) => String::from_str("serialization error: ").concat(m.as_str()),
            MemoryError::Yaml(m) => String::from_str("YAML parse error: ").concat(m.as_str()),
            MemoryError::Trajectory(m) => String::from_str("trajectory error: ").concat(m.as_str()),
            MemoryError::Join(m) => String::from_str("task join error: ").concat(m.as_str()),
            MemoryError::VectorNotImplemented => String::from_str(
                "vector search not implemented — use Bm25 strategy",
            ),
        }
    }
}

/// A promotion is allowed only one tier forward.
pub open spec fn promotion_allowed(from: MemoryTier, to: MemoryTier) -> bool {
    tier_rank(to) == tier_rank(from) + 1
}

/// The message of a backward (or same-tier) promotion.
pub open spec fn backward_message(from: MemoryTier, to: MemoryTier) -> Seq<char> {
    "cannot promote from "@ + tier_debug_name(from) + " to "@ + tier_debug_name(to) + ": must promote forward"@
}

/// The message of a promotion that skips a tier.
pub open spec fn skip_message(from: MemoryTier, to: MemoryTier) -> Seq<char> {
    "cannot promote from "@ + tier_debug_name(from) + " to "@ + tier_debug_name(to) + ": cannot skip tiers"@
}

/// Checks a promotion: `InvalidPromotion` unless `to` is the tier right
/// after `from`, saying whether it goes backward or skips a tier.
pub fn validate_promotion(from: MemoryTier, to: MemoryTier) -> (r: Result<(), MemoryError>)
    ensures
        r is Ok <==> promotion_allowed(from, to),
        tier_rank(to) <= tier_rank(from) ==> (r matches Err(MemoryError::InvalidPromotion(m)) && m@
            == backward_message(from, to)),
        tier_rank(to) > tier_rank(from) + 1 ==> (r matches Err(MemoryError::InvalidPromotion(m)) && m@
            == skip_message(from, to)),
{
    let from_ord = tier_order(from);
    let to_ord = tier_order(to);
    if to_ord <= from_ord {
        let m = String::from_str("cannot promote from ").concat(tier_debug(from)).concat(" to ").concat(
            tier_debug(to),
        ).concat(": must promote forward");
        return Err(MemoryError::InvalidPromotion(m));
    }
    if to_ord - from_ord > 1 {
        let m = String::from_str("cannot promote from ").concat(tier_debug(from)).concat(" to ").concat(
            tier_debug(to),
        ).concat(": cannot skip tiers");
        return Err(MemoryError::InvalidPromotion(m));
    }
    Ok(())
}

/// Promotions chain: from working, three allowed promotions reach global,
/// and no tier can be promoted to from two different tiers.
pub proof fn lemma_promotion_path(from: MemoryTier, to: MemoryTier, other: MemoryTier)
    ensures
        promotion_allowed(MemoryTier::Working, MemoryTier::Episodic),
        promotion_allowed(MemoryTier::Episodic, MemoryTier::Project),
        promotion_allowed(MemoryTier::Project, MemoryTier::Global),
        !promotion_allowed(MemoryTier::Global, to),
        promotion_allowed(from, to) && promotion_allowed(other, to) ==> from == other,
        promotion_allowed(from, to) ==> !promotion_allowed(to, from),
{
}

} // verus!
