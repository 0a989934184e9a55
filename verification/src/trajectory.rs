//! The trajectory: the events of runs, as the host stores them in the
//! `trajectory_events` table. This module names the event kinds and builds
//! the query that reads events back.

use vstd::prelude::*;

use crate::json::Json;
use crate::text::{decimal, is_substring, str_eq, u64_to_text};
use crate::types::{run_id_text, uuid_text, RunId};

verus! {

/// What an event records.
#[derive(Debug, Clone, Copy, PartialEq, Eq, Structural)]
pub enum EventType {
    RunCreated,
    RunStarted,
    ToolCalled,
    MemoryWritten,
    MemorySearched,
    MemoryPromoted,
    SubagentSpawned,
    SubagentCompleted,
    SubagentFailed,
    JanitorRunStarted,
}

/// The stored name of an event kind.
pub open spec fn event_type_name(e: EventType) -> Seq<char> {
    match e {
        EventType::RunCreated => "RunCreated"@,
        EventType::RunStarted => "RunStarted"@,
        EventType::ToolCalled => "ToolCalled"@,
        EventType::MemoryWritten => "MemoryWritten"@,
        EventType::MemorySearched => "MemorySearched"@,
        EventType::MemoryPromoted => "MemoryPromoted"@,
        EventType::SubagentSpawned => "SubagentSpawned"@,
        EventType::SubagentCompleted => "SubagentCompleted"@,
        EventType::SubagentFailed => "SubagentFailed"@,
        EventType::JanitorRunStarted => "JanitorRunStarted"@,
    }
}

impl EventType {
    /// The stored name of the event kind.
    pub fn as_str(&self) -> (r: &'static str)
        ensures
            r@ == event_type_name(*self),
    {
        match self {
            EventType::RunCreated => "RunCreated",
            EventType::RunStarted => "RunStarted",
            EventType::ToolCalled => "ToolCalled",
            EventType::MemoryWritten => "MemoryWritten",
            EventType::MemorySearched => "MemorySearched",
            EventType::MemoryPromoted => "MemoryPromoted",
            EventType::SubagentSpawned => "SubagentSpawned",
            EventType::SubagentCompleted => "SubagentCompleted",
            EventType::SubagentFailed => "SubagentFailed",
            EventType::JanitorRunStarted => "JanitorRunStarted",
        }
    }
}

/// The event kind with this stored name.
pub open spec fn event_type_named(name: Seq<char>) -> Option<EventType> {
    if name == "RunCreated"@ {
        Some(EventType::RunCreated)
    } else if name == "RunStarted"@ {
        Some(EventType::RunStarted)
    } else if name == "ToolCalled"@ {
        Some(EventType::ToolCalled)
    } else if name == "MemoryWritten"@ {
        Some(EventType::MemoryWritten)
    } else if name == "MemorySearched"@ {
        Some(EventType::MemorySearched)
    } else if name == "MemoryPromoted"@ {
        Some(EventType::MemoryPromoted)
    } else if name == "SubagentSpawned"@ {
        Some(EventType::SubagentSpawned)
    } else if name == "SubagentCompleted"@ {
        Some(EventType::SubagentCompleted)
    } else if name == "SubagentFailed"@ {
        Some(EventType::SubagentFailed)
    } else if name == "JanitorRunStarted"@ {
        Some(EventType::JanitorRunStarted)
    } else {
        None
    }
}

/// Reads a stored event kind name.
pub fn parse_event_type(name: &str) -> (r: Option<EventType>)
    ensures
        r == event_type_named(name@),
{
    if str_eq(name, "RunCreated") {
        Some(EventType::RunCreated)
    } else if str_eq(name, "RunStarted") {
        Some(EventType::RunStarted)
    } else if str_eq(name, "ToolCalled") {
        Some(EventType::ToolCalled)
    } else if str_eq(name, "MemoryWritten") {
        Some(EventType::MemoryWritten)
    } else if str_eq(name, "MemorySearched") {
        Some(EventType::MemorySearched)
    } else if str_eq(name, "MemoryPromoted") {
        Some(EventType::MemoryPromoted)
    } else if str_eq(name, "SubagentSpawned") {
        Some(EventType::SubagentSpawned)
    } else if str_eq(name, "SubagentCompleted") {
        Some(EventType::SubagentCompleted)
    } else if str_eq(name, "SubagentFailed") {
        Some(EventType::SubagentFailed)
    } else if str_eq(name, "JanitorRunStarted") {
        Some(EventType::JanitorRunStarted)
    } else {
        None
    }
}

/// The layer of the harness that emitted an event.
#[derive(Debug, Clone, Copy, PartialEq, Eq, Structural)]
pub enum StratumLayer {
    Trajectory,
    MemoryHierarchy,
    SubAgentOrchestrator,
}

/// The stored name of a layer.
pub open spec fn layer_name(l: StratumLayer) -> Seq<char> {
    match l {
        StratumLayer::Trajectory => "Trajectory"@,
        StratumLayer::MemoryHierarchy => "MemoryHierarchy"@,
        StratumLayer::SubAgentOrchestrator => "SubAgentOrchestrator"@,
    }
}

impl StratumLayer {
    /// The stored name of the layer.
    pub fn as_str(&self) -> (r: &'static str)
        ensures
            r@ == layer_name(*self),
    {
        match self {
            StratumLayer::Trajectory => "Trajectory",
            StratumLayer::MemoryHierarchy => "MemoryHierarchy",
            StratumLayer::SubAgentOrchestrator => "SubAgentOrchestrator",
        }
    }
}

/// The layer with this stored name.
pub open spec fn layer_named(name: Seq<char>) -> Option<StratumLayer> {
    if name == "Trajectory"@ {
        Some(StratumLayer::Trajectory)
    } else if name == "MemoryHierarchy"@ {
        Some(StratumLayer::MemoryHierarchy)
    } else if name == "SubAgentOrchestrator"@ {
        Some(StratumLayer::SubAgentOrchestrator)
    } else {
        None
    }
}

/// Reads a stored layer name.
pub fn parse_layer(name: &str) -> (r: Option<StratumLayer>)
    ensures
        r == layer_named(name@),
{
    if str_eq(name, "Trajectory") {
        Some(StratumLayer::Trajectory)
    } else if str_eq(name, "MemoryHierarchy") {
        Some(StratumLayer::MemoryHierarchy)
    } else if str_eq(name, "SubAgentOrchestrator") {
        Some(StratumLayer::SubAgentOrchestrator)
    } else {
        None
    }
}

/// Stored names read back as what they name.
pub proof fn lemma_names_roundtrip(e: EventType, l: StratumLayer)
    ensures
        event_type_named(event_type_name(e)) == Some(e),
        layer_named(layer_name(l)) == Some(l),
{
    reveal_strlit("RunCreated");
    reveal_strlit("RunStarted");
    reveal_strlit("ToolCalled");
    reveal_strlit("MemoryWritten");
    reveal_strlit("MemorySearched");
    reveal_strlit("MemoryPromoted");
    reveal_strlit("SubagentSpawned");
    reveal_strlit("SubagentCompleted");
    reveal_strlit("SubagentFailed");
    reveal_strlit("JanitorRunStarted");
    reveal_strlit("Trajectory");
    reveal_strlit("MemoryHierarchy");
    reveal_strlit("SubAgentOrchestrator");
    assert("RunCreated"@.len() == 10 && "RunStarted"@.len() == 10 && "ToolCalled"@.len() == 10);
    assert("RunCreated"@[3] == 'C' && "RunStarted"@[3] == 'S' && "ToolCalled"@[0] == 'T' && "RunCreated"@[0] == 'R');
    assert("MemoryWritten"@.len() == 13 && "MemorySearched"@.len() == 14 && "MemoryPromoted"@.len() == 14);
    assert("SubagentFailed"@.len() == 14 && "SubagentSpawned"@.len() == 15 && "SubagentCompleted"@.len() == 17);
    assert("JanitorRunStarted"@.len() == 17);
    assert("MemorySearched"@[6] == 'S' && "MemoryPromoted"@[6] == 'P' && "SubagentFailed"@[0] == 'S'
        && "MemorySearched"@[0] == 'M');
    assert("SubagentCompleted"@[0] == 'S' && "JanitorRunStarted"@[0] == 'J');
    assert("Trajectory"@.len() == 10 && "MemoryHierarchy"@.len() == 15 && "SubAgentOrchestrator"@.len() == 20);
}

/// One event; its time is RFC 3339 text.
#[derive(Debug)]
pub struct TrajectoryEvent {
    pub event_id: RunId,
    pub run_id: RunId,
    pub parent_run_id: Option<RunId>,
    pub timestamp: String,
    pub event_type: EventType,
    pub stratum_layer: StratumLayer,
    pub payload: Json,
}

/// A value bound to a query placeholder.
#[derive(Debug, Clone, PartialEq, Eq)]
pub enum SqlParam {
    Text(String),
    Int(i64),
}

/// The columns read back for an event.
pub open spec fn select_events() -> Seq<char> {
    "SELECT event_id, run_id, parent_run_id, timestamp, event_type, stratum_layer, payload FROM trajectory_events"@
}

/// The text of the event query: the selection, a `WHERE` with the run
/// filter (`run_id = ?1`) and then the kind filter (numbered after it),
/// joined by `AND`, ordered by time, and a `LIMIT` placeholder last.
pub open spec fn query_text(by_run: bool, by_type: bool, limited: bool) -> Seq<char> {
    let where_part = if by_run && by_type {
        " WHERE run_id = ?1 AND event_type = ?2"@
    } else if by_run {
        " WHERE run_id = ?1"@
    } else if by_type {
        " WHERE event_type = ?1"@
    } else {
        Seq::empty()
    };
    let n: nat = (if by_run { 1nat } else { 0nat }) + (if by_type { 1nat } else { 0nat });
    let limit_part = if limited { " LIMIT ?"@ + decimal(n + 1) } else { Seq::empty() };
    select_events() + where_part + " ORDER BY timestamp ASC"@ + limit_part
}

/// Whatever filters are given, events come back oldest first: the query
/// orders by time ascending, right after the selection and its filters, and
/// nothing but the `LIMIT` placeholder follows the ordering.
pub proof fn lemma_events_oldest_first(by_run: bool, by_type: bool, limited: bool)
    ensures
        ({
            let q = query_text(by_run, by_type, limited);
            let order = " ORDER BY timestamp ASC"@;
            exists|k: int| {
                &&& 0 <= k && k + order.len() <= q.len()
                &&& #[trigger] q.subrange(k, k + order.len()) == order
                &&& q.subrange(0, select_events().len() as int) == select_events()
                &&& (!limited ==> k + order.len() == q.len())
                &&& (limited ==> q.subrange(k + order.len(), k + order.len() + 8) == " LIMIT ?"@)
            }
        }),
        is_substring(" ORDER BY timestamp ASC"@, query_text(by_run, by_type, limited)),
{
    reveal_strlit(" ORDER BY timestamp ASC");
    reveal_strlit(" LIMIT ?");
    let q = query_text(by_run, by_type, limited);
    let order = " ORDER BY timestamp ASC"@;
    let where_part = if by_run && by_type {
        " WHERE run_id = ?1 AND event_type = ?2"@
    } else if by_run {
        " WHERE run_id = ?1"@
    } else if by_type {
        " WHERE event_type = ?1"@
    } else {
        Seq::empty()
    };
    let n: nat = (if by_run { 1nat } else { 0nat }) + (if by_type { 1nat } else { 0nat });
    let limit_part = if limited { " LIMIT ?"@ + decimal(n + 1) } else { Seq::empty() };
    let head = select_events() + where_part;
    assert(q == head + order + limit_part);
    let k = head.len() as int;
    assert(q.subrange(k, k + order.len()) =~= order);
    assert(q.subrange(0, select_events().len() as int) =~= select_events());
    if limited {
        assert(q.subrange(k + order.len(), k + order.len() + 8) =~= " LIMIT ?"@);
    }
    assert(is_substring(order, q));
}

/// The query for events of a run and/or a kind, oldest first, at most
/// `limit` of them: its text and the values for its placeholders, in order
/// (the run's id as text, the kind's name, the limit as a signed integer).
pub fn events_query(run_id: Option<RunId>, event_type: Option<EventType>, limit: Option<usize>) -> (r: (String, Vec<SqlParam>))
    ensures
        r.0@ == query_text(run_id is Some, event_type is Some, limit is Some),
        r.1.len() == (if run_id is Some { 1int } else { 0 }) + (if event_type is Some { 1int } else { 0 }) + (if limit is Some { 1int } else { 0 }),
        run_id matches Some(id) ==> (r.1@[0] matches SqlParam::Text(t) && t@ == uuid_text(id.0)),
        event_type matches Some(e) ==> (r.1@[if run_id is Some { 1int } else { 0 }] matches SqlParam::Text(t) && t@
            == event_type_name(e)),
        limit matches Some(n) ==> r.1@[r.1.len() - 1] == SqlParam::Int(n as i64),
{
    let mut params: Vec<SqlParam> = Vec::new();
    let mut sql = String::from_str(
        "SELECT event_id, run_id, parent_run_id, timestamp, event_type, stratum_layer, payload FROM trajectory_events",
    );
    match (run_id, event_type) {
        (Some(id), Some(e)) => {
            sql = sql.concat(" WHERE run_id = ?1 AND event_type = ?2");
            params.push(SqlParam::Text(run_id_text(&id)));
            params.push(SqlParam::Text(String::from_str(e.as_str())));
        },
        (Some(id), None) => {
            sql = sql.concat(" WHERE run_id = ?1");
            params.push(SqlParam::Text(run_id_text(&id)));
        },
        (None, Some(e)) => {
            sql = sql.concat(" WHERE event_type = ?1");
            params.push(SqlParam::Text(String::from_str(e.as_str())));
        },
        (None, None) => {},
    }
    sql = sql.concat(" ORDER BY timestamp ASC");
    match limit {
        Some(n) => {
            let idx = params.len() as u64 + 1;
            let t = u64_to_text(idx);
            sql = sql.concat(" LIMIT ?").concat(t.as_str());
            params.push(SqlParam::Int(n as i64));
        },
        None => {},
    }
    (sql, params)
}

} // verus!
