//! The engine's sub-agent orchestrator: depth enforcement for spawns and
//! the reading of a sub-agent's outcome. The host looks runs up, creates
//! them and polls; the orchestrator decides.

use vstd::prelude::*;

use std::time::Duration;

use crate::context::ContextBudget;
use crate::depth::{
    cached, check_spawn_depth, effective_limit_spec, DepthCache, DepthWalk, step_spec, WalkNext, WalkStart,
};
use crate::error::EngineError;
use crate::session::RunState;
use crate::time::{duration_from_millis, duration_from_secs, duration_millis};
use crate::types::{run_id_text, uuid_text, RunId};

verus! {

/// How a sub-agent relates to its parent.
#[derive(Debug, Clone, Copy, PartialEq, Eq, Structural)]
pub enum SpawnPattern {
    Delegate,
    Pipeline,
    Parallel,
    Janitor,
}

/// How far a run is trusted to act on its own.
#[derive(Debug, Clone, Copy, PartialEq, Eq, Structural)]
pub enum TrustLevel {
    Sandboxed,
    Supervised,
    Autonomous,
}

/// The stored name of a trust level.
pub open spec fn trust_level_name(t: TrustLevel) -> Seq<char> {
    match t {
        TrustLevel::Sandboxed => "Sandboxed"@,
        TrustLevel::Supervised => "Supervised"@,
        TrustLevel::Autonomous => "Autonomous"@,
    }
}

/// The trust level with this stored name.
pub open spec fn trust_level_named(name: Seq<char>) -> Option<TrustLevel> {
    if name == "Sandboxed"@ {
        Some(TrustLevel::Sandboxed)
    } else if name == "Supervised"@ {
        Some(TrustLevel::Supervised)
    } else if name == "Autonomous"@ {
        Some(TrustLevel::Autonomous)
    } else {
        None
    }
}

impl TrustLevel {
    /// The stored name.
    pub fn as_str(&self) -> (r: &'static str)
        ensures
            r@ == trust_level_name(*self),
    {
        match self {
            TrustLevel::Sandboxed => "Sandboxed",
            TrustLevel::Supervised => "Supervised",
            TrustLevel::Autonomous => "Autonomous",
        }
    }
}

/// The trust level stored under `name`, if any.
pub fn parse_trust_level(name: &str) -> (r: Option<TrustLevel>)
    ensures
        r == trust_level_named(name@),
{
    if crate::text::str_eq(name, "Sandboxed") {
        Some(TrustLevel::Sandboxed)
    } else if crate::text::str_eq(name, "Supervised") {
        Some(TrustLevel::Supervised)
    } else if crate::text::str_eq(name, "Autonomous") {
        Some(TrustLevel::Autonomous)
    } else {
        None
    }
}

/// What a parent asks of a new sub-agent.
#[derive(Debug, Clone)]
pub struct SpawnConfig {
    pub pattern: SpawnPattern,
    pub model_ref: String,
    pub trust_level: TrustLevel,
    pub tool_manifest: Vec<String>,
    pub task_goal: String,
    pub shared_filesystem_scope: Option<String>,
}

/// A run as the engine stores it; `created_at` is RFC 3339 text.
#[derive(Debug, Clone)]
pub struct StratumRun {
    pub id: RunId,
    pub parent_run_id: Option<RunId>,
    pub model_ref: String,
    pub trust_level: TrustLevel,
    pub tool_manifest: Vec<String>,
    pub context_budget: ContextBudget,
    pub spawn_depth_limit: u32,
    pub state: RunState,
    pub created_at: String,
}

/// How a sub-agent ended.
#[derive(Debug, Clone)]
pub struct SubAgentResult {
    pub run_id: RunId,
    pub status: RunState,
    pub summary: String,
    pub artefacts: Vec<String>,
}

/// The orchestrator's settings.
#[derive(Debug, Clone)]
pub struct OrchestratorConfig {
    pub hard_max_depth: u32,
    pub poll_interval: Duration,
    pub await_timeout: Duration,
}

impl OrchestratorConfig {
    /// Depth at most 5, polling every half second for at most five minutes.
    pub fn default() -> (r: OrchestratorConfig)
        ensures
            r.hard_max_depth == 5,
            duration_millis(r.poll_interval) == 500,
            duration_millis(r.await_timeout) == 300_000,
    {
        OrchestratorConfig {
            hard_max_depth: 5,
            poll_interval: duration_from_millis(500),
            await_timeout: duration_from_secs(300),
        }
    }
}

/// The message of a run that is not stored.
pub open spec fn missing_run_message(id: RunId) -> Seq<char> {
    "run "@ + uuid_text(id.0)
}

/// `NotFound` for a run that is not stored.
pub fn missing_run(id: RunId) -> (r: EngineError)
    ensures
        r matches EngineError::NotFound(m) && m@ == missing_run_message(id),
{
    EngineError::NotFound(String::from_str("run ").concat(run_id_text(&id).as_str()))
}

/// The summary of a finished sub-agent, or none while it runs.
pub open spec fn outcome_summary(state: RunState) -> Option<Seq<char>> {
    match state {
        RunState::Completed => Some("Sub-agent completed successfully."@),
        RunState::Failed => Some("Sub-agent failed."@),
        RunState::Aborted => Some("Sub-agent aborted."@),
        _ => None,
    }
}

/// What a poll of a sub-agent's run shows: its result once it has ended
/// (with the summary for its end state and no artefacts), none while it is
/// still going.
pub fn poll_result(run_id: RunId, state: RunState) -> (r: Option<SubAgentResult>)
    ensures
        match outcome_summary(state) {
            None => r is None,
            Some(s) => (r matches Some(res) && res.run_id == run_id && res.status == state && res.summary@ == s
                && res.artefacts@.len() == 0),
        },
{
    let summary = match state {
        RunState::Completed => "Sub-agent completed successfully.",
        RunState::Failed => "Sub-agent failed.",
        RunState::Aborted => "Sub-agent aborted.",
        _ => {
            return None;
        },
    };
    Some(SubAgentResult { run_id, status: state, summary: String::from_str(summary), artefacts: Vec::new() })
}

/// The orchestrator: its settings and the depths it knows.
#[derive(Debug)]
pub struct DefaultOrchestrator {
    config: OrchestratorConfig,
    depths: DepthCache,
}

impl DefaultOrchestrator {
    pub closed spec fn spec_config(&self) -> OrchestratorConfig {
        self.config
    }

    pub closed spec fn spec_depths(&self) -> Map<u128, u32> {
        self.depths@
    }

    /// An orchestrator that knows no depths yet.
    pub fn new(config: OrchestratorConfig) -> (r: DefaultOrchestrator)
        ensures
            r.spec_config() == config,
            r.spec_depths() == Map::<u128, u32>::empty(),
    {
        DefaultOrchestrator { config, depths: DepthCache::new() }
    }

    /// The settings.
    pub fn config(&self) -> (r: &OrchestratorConfig)
        ensures
            *r == self.spec_config(),
    {
        &self.config
    }

    /// The limit for a run with this spawn depth limit.
    pub fn effective_limit(&self, spawn_depth_limit: u32) -> (r: u32)
        ensures
            r == effective_limit_spec(spawn_depth_limit, self.spec_config().hard_max_depth),
    {
        crate::depth::effective_limit(spawn_depth_limit, self.config.hard_max_depth)
    }

    /// Starts computing a run's depth.
    pub fn start_depth(&self, run_id: RunId) -> (r: WalkStart)
        ensures
            match cached(self.spec_depths(), run_id) {
                Some(d) => r == WalkStart::Cached(d),
                None => r == WalkStart::Walk(DepthWalk { target: run_id, current: run_id, depth: 0 }),
            },
    {
        self.depths.start_walk(run_id)
    }

    /// One step of a depth walk, given what the lookup of `walk.current`
    /// found: `NotFound` where the run is not stored; otherwise its parent
    /// decides, as `DepthCache::step` says.
    pub fn depth_step(&mut self, walk: DepthWalk, found: Option<Option<RunId>>) -> (r: Result<WalkNext, EngineError>)
        ensures
            final(self).spec_config() == old(self).spec_config(),
            found is None ==> (r matches Err(EngineError::NotFound(m)) && m@ == missing_run_message(walk.current))
                && final(self).spec_depths() == old(self).spec_depths(),
            found matches Some(parent) ==> r == Ok::<WalkNext, EngineError>(step_spec(old(self).spec_depths(), walk, parent).0)
                && final(self).spec_depths() == step_spec(old(self).spec_depths(), walk, parent).1,
    {
        match found {
            None => Err(missing_run(walk.current)),
            Some(parent) => Ok(self.depths.step(walk, parent)),
        }
    }

    /// The spawn check for a parent at `parent_depth` whose own limit is
    /// `parent_spawn_depth_limit`: `DepthLimitExceeded` once the parent is
    /// at the effective limit; otherwise the child's depth, one more.
    pub fn check_spawn(&self, parent_depth: u32, parent_spawn_depth_limit: u32) -> (r: Result<u32, EngineError>)
        ensures
            ({
                let limit = effective_limit_spec(parent_spawn_depth_limit, self.spec_config().hard_max_depth);
                &&& parent_depth >= limit ==> (r matches Err(EngineError::DepthLimitExceeded { current, limit: l })
                    && current == parent_depth && l == limit)
                &&& parent_depth < limit ==> r == Ok::<u32, EngineError>((parent_depth + 1) as u32)
            }),
            r matches Ok(child) ==> child <= self.spec_config().hard_max_depth && child <= parent_spawn_depth_limit,
    {
        match check_spawn_depth(parent_depth, parent_spawn_depth_limit, self.config.hard_max_depth) {
            Ok(child) => Ok(child),
            Err((current, limit)) => Err(EngineError::DepthLimitExceeded { current, limit }),
        }
    }

    /// The run created for a sub-agent: the parent's id and depth limit,
    /// the requested model, trust level and tools, the default budget, running, created
    /// at `created_at`.
    pub fn child_run(parent: &StratumRun, child_id: RunId, config: SpawnConfig, created_at: String) -> (r: StratumRun)
        ensures
            r.id == child_id,
            r.parent_run_id == Some(parent.id),
            r.model_ref@ == config.model_ref@,
            r.trust_level == config.trust_level,
            r.tool_manifest == config.tool_manifest,
            r.context_budget == (ContextBudget { max_tokens: 128_000, max_history_messages: 50 }),
            r.spawn_depth_limit == parent.spawn_depth_limit,
            r.state == RunState::Running,
            r.created_at@ == created_at@,
    {
        StratumRun {
            id: child_id,
            parent_run_id: Some(parent.id),
            model_ref: config.model_ref,
            trust_level: config.trust_level,
            tool_manifest: config.tool_manifest,
            context_budget: ContextBudget::default(),
            spawn_depth_limit: parent.spawn_depth_limit,
            state: RunState::Running,
            created_at,
        }
    }

    /// Records the depth of a spawned child.
    pub fn record_child(&mut self, child_id: RunId, depth: u32)
        ensures
            final(self).spec_config() == old(self).spec_config(),
            final(self).spec_depths() == old(self).spec_depths().insert(child_id.0, depth),
    {
        self.depths.insert(child_id, depth);
    }

    /// The known depth of a run; zero where none is known.
    pub fn current_depth(&self, run_id: RunId) -> (r: u32)
        ensures
            r == match cached(self.spec_depths(), run_id) {
                Some(d) => d,
                None => 0,
            },
    {
        match self.depths.get(run_id) {
            Some(d) => d,
            None => 0,
        }
    }
}

/// A spawned child is never deeper than its parent's limit nor the hard
/// maximum, and is exactly one deeper than its parent.
pub proof fn lemma_spawn_depth_bounded(parent_depth: u32, spawn_depth_limit: u32, hard_max_depth: u32)
    ensures
        parent_depth < effective_limit_spec(spawn_depth_limit, hard_max_depth) ==> parent_depth + 1
            <= spawn_depth_limit && parent_depth + 1 <= hard_max_depth,
        parent_depth >= hard_max_depth ==> parent_depth >= effective_limit_spec(spawn_depth_limit, hard_max_depth),
{
}

} // verus!
