//! The sub-agent orchestrator of the harness: depth enforcement with a
//! queue-backed configuration, and the events it emits for spawns and
//! finished sub-agents. The host looks runs up, creates them, polls and
//! stores the events.

use vstd::prelude::*;

use std::time::Duration;

use crate::depth::{cached, check_spawn_depth, effective_limit_spec, DepthCache, DepthWalk, step_spec, WalkNext, WalkStart};
use crate::json::{jobj, jstr, juint, lemma_entries_view, push_entry, Json, JsonV, NumV};
use crate::context::ContextBudget;
use crate::orchestrator::{poll_result, outcome_summary, SpawnConfig, SpawnPattern, StratumRun, SubAgentResult};
use crate::session::{state_name, RunState};
use crate::text::decimal;
use crate::time::{duration_from_secs, duration_millis};
use crate::trajectory::EventType;
use crate::types::{run_id_text, uuid_text, RunId};

verus! {

/// The orchestrator's settings.
#[derive(Debug, Clone)]
pub struct OrchestratorConfig {
    pub queue_root: String,
    pub default_depth_limit: u32,
    pub hard_max_depth: u32,
    pub max_pending_per_queue: i64,
    pub await_timeout: Duration,
    pub poll_interval: Duration,
}

impl OrchestratorConfig {
    /// Queues under `.stratum/queues`, depth limit 2 (at most 5), 1000
    /// pending messages per queue, an hour's wait polled every second.
    pub fn default() -> (r: OrchestratorConfig)
        ensures
            r.queue_root@ == ".stratum/queues"@,
            r.default_depth_limit == 2,
            r.hard_max_depth == 5,
            r.max_pending_per_queue == 1000,
            duration_millis(r.await_timeout) == 3_600_000,
            duration_millis(r.poll_interval) == 1000,
    {
        OrchestratorConfig {
            queue_root: String::from_str(".stratum/queues"),
            default_depth_limit: 2,
            hard_max_depth: 5,
            max_pending_per_queue: 1000,
            await_timeout: duration_from_secs(3600),
            poll_interval: duration_from_secs(1),
        }
    }
}

/// What can go wrong in the orchestrator.
#[derive(Debug)]
pub enum OrchestratorError {
    DepthLimitExceeded { current: u32, limit: u32 },
    RunNotFound(RunId),
    SubAgentFailed { run_id: RunId, reason: String },
    Dispatch(String),
    Session(String),
    Trajectory(String),
    Timeout(RunId),
    Serialization(String),
}

/// The text of an error.
pub open spec fn orchestrator_error_text(e: OrchestratorError) -> Seq<char> {
    match e {
        OrchestratorError::DepthLimitExceeded { current, limit } => "depth limit exceeded: current depth "@
            + decimal(current as nat) + ", limit "@ + decimal(limit as nat),
        OrchestratorError::RunNotFound(id) => "run not found: "@ + uuid_text(id.0),
        OrchestratorError::SubAgentFailed { run_id, reason } => "sub-agent failed: run "@ + uuid_text(run_id.0)
            + ": "@ + reason@,
        OrchestratorError::Dispatch(m) => "dispatch error: "@ + m@,
        OrchestratorError::Session(m) => "session error: "@ + m@,
        OrchestratorError::Trajectory(m) => "trajectory error: "@ + m@,
        OrchestratorError::Timeout(id) => "timeout awaiting result for run "@ + uuid_text(id.0),
        OrchestratorError::Serialization(m) => "serialization error: "@ + m@,
    }
}

impl OrchestratorError {
    /// The text of the error.
    pub fn to_string(&self) -> (r: String)
        ensures
            r@ == orchestrator_error_text(*self),
    {
        match self {
            OrchestratorError::DepthLimitExceeded { current, limit } => {
                let c = crate::text::u64_to_text(*current as u64);
                let l = crate::text::u64_to_text(*limit as u64);
                String::from_str("depth limit exceeded: current depth ").concat(c.as_str()).concat(", limit ").concat(
                    l.as_str(),
                )
            },
            OrchestratorError::RunNotFound(id) => String::from_str("run not found: ").concat(
                run_id_text(id).as_str(),
            ),
            OrchestratorError::SubAgentFailed { run_id, reason } => String::from_str("sub-agent failed: run ").concat(
                run_id_text(run_id).as_str(),
            ).concat(": ").concat(reason.as_str()),
            OrchestratorError::Dispatch(m) => String::from_str("dispatch error: ").concat(m.as_str()),
            OrchestratorError::Session(m) => String::from_str("session error: ").concat(m.as_str()),
            OrchestratorError::Trajectory(m) => String::from_str("trajectory error: ").concat(m.as_str()),
            OrchestratorError::Timeout(id) => String::from_str("timeout awaiting result for run ").concat(
                run_id_text(id).as_str(),
            ),
            OrchestratorError::Serialization(m) => String::from_str("serialization error: ").concat(m.as_str()),
        }
    }
}

/// The `{:?}` name of a spawn pattern.
pub open spec fn pattern_name(p: SpawnPattern) -> Seq<char> {
    match p {
        SpawnPattern::Delegate => "Delegate"@,
        SpawnPattern::Pipeline => "Pipeline"@,
        SpawnPattern::Parallel => "Parallel"@,
        SpawnPattern::Janitor => "Janitor"@,
    }
}

fn pattern_str(p: SpawnPattern) -> (r: &'static str)
    ensures
        r@ == pattern_name(p),
{
    match p {
        SpawnPattern::Delegate => "Delegate",
        SpawnPattern::Pipeline => "Pipeline",
        SpawnPattern::Parallel => "Parallel",
        SpawnPattern::Janitor => "Janitor",
    }
}

/// The event kind of a spawn: janitor runs have their own.
pub open spec fn spawn_event_kind(p: SpawnPattern) -> EventType {
    if p == SpawnPattern::Janitor {
        EventType::JanitorRunStarted
    } else {
        EventType::SubagentSpawned
    }
}

/// The payload of a spawn event.
pub open spec fn spawn_payload_v(pattern: SpawnPattern, parent: RunId, child: RunId, task_goal: Seq<char>, depth: u32) -> JsonV {
    JsonV::Object(
        seq![
            ("pattern"@, JsonV::Str(pattern_name(pattern))),
            ("parent_id"@, JsonV::Str(uuid_text(parent.0))),
            ("child_id"@, JsonV::Str(uuid_text(child.0))),
            ("task_goal"@, JsonV::Str(task_goal)),
            ("depth"@, JsonV::Number(NumV::PosInt(depth as u64))),
        ],
    )
}

/// The event for a spawned sub-agent: its kind and payload.
pub fn spawn_event(pattern: SpawnPattern, parent: RunId, child: RunId, task_goal: &str, depth: u32) -> (r: (EventType, Json))
    ensures
        r.0 == spawn_event_kind(pattern),
        r.1@ == spawn_payload_v(pattern, parent, child, task_goal@, depth),
{
    let kind = match pattern {
        SpawnPattern::Janitor => EventType::JanitorRunStarted,
        _ => EventType::SubagentSpawned,
    };
    let mut entries: Vec<(String, Json)> = Vec::new();
    push_entry(&mut entries, "pattern", jstr(pattern_str(pattern)));
    push_entry(&mut entries, "parent_id", Json::Str(run_id_text(&parent)));
    push_entry(&mut entries, "child_id", Json::Str(run_id_text(&child)));
    push_entry(&mut entries, "task_goal", jstr(task_goal));
    push_entry(&mut entries, "depth", juint(depth as u64));
    let r = jobj(entries);
    proof {
        lemma_entries_view(entries@);
        assert(crate::json::json_entries_view(entries@) =~= seq![
            ("pattern"@, JsonV::Str(pattern_name(pattern))),
            ("parent_id"@, JsonV::Str(uuid_text(parent.0))),
            ("child_id"@, JsonV::Str(uuid_text(child.0))),
            ("task_goal"@, JsonV::Str(task_goal@)),
            ("depth"@, JsonV::Number(NumV::PosInt(depth as u64))),
        ]);
    }
    (kind, r)
}

/// The event kind of a finished sub-agent.
pub open spec fn finish_event_kind(state: RunState) -> EventType {
    if state == RunState::Completed {
        EventType::SubagentCompleted
    } else {
        EventType::SubagentFailed
    }
}

/// What a poll of a sub-agent's run shows: none while it is going; once it
/// has ended, its result and the event to emit (`SubagentCompleted` or
/// `SubagentFailed`, with the run's id and end state).
pub fn poll_outcome(run_id: RunId, state: RunState) -> (r: Option<(SubAgentResult, EventType, Json)>)
    ensures
        match outcome_summary(state) {
            None => r is None,
            Some(s) => (r matches Some((res, kind, payload)) && res.run_id == run_id && res.status == state
                && res.summary@ == s && res.artefacts@.len() == 0 && kind == finish_event_kind(state) && payload@
                == JsonV::Object(
                seq![("run_id"@, JsonV::Str(uuid_text(run_id.0))), ("status"@, JsonV::Str(state_name(state)))],
            )),
        },
{
    match poll_result(run_id, state) {
        None => None,
        Some(res) => {
            let kind = match state {
                RunState::Completed => EventType::SubagentCompleted,
                _ => EventType::SubagentFailed,
            };
            let mut entries: Vec<(String, Json)> = Vec::new();
            push_entry(&mut entries, "run_id", Json::Str(run_id_text(&run_id)));
            push_entry(&mut entries, "status", jstr(state.as_str()));
            let payload = jobj(entries);
            proof {
                lemma_entries_view(entries@);
                assert(crate::json::json_entries_view(entries@) =~= seq![
                    ("run_id"@, JsonV::Str(uuid_text(run_id.0))),
                    ("status"@, JsonV::Str(state_name(state))),
                ]);
            }
            Some((res, kind, payload))
        },
    }
}

/// What an allowed spawn does: the child run to store, its depth to record,
/// and the event to emit.
#[derive(Debug)]
pub struct SpawnPlan {
    pub run: StratumRun,
    pub depth: u32,
    pub kind: EventType,
    pub payload: Json,
}

/// The orchestrator: its settings and the depths it knows.
#[derive(Debug)]
pub struct DefaultOrchestrator {
    config: OrchestratorConfig,
    depths: DepthCache,
}

impl DefaultOrchestrator {
    pub closed spec fn spec_config(&self) -> OrchestratorConfig {
        self.config
    }

    pub closed spec fn spec_depths(&self) -> Map<u128, u32> {
        self.depths@
    }

    /// An orchestrator that knows no depths yet.
    pub fn new(config: OrchestratorConfig) -> (r: DefaultOrchestrator)
        ensures
            r.spec_config() == config,
            r.spec_depths() == Map::<u128, u32>::empty(),
    {
        DefaultOrchestrator { config, depths: DepthCache::new() }
    }

    /// The settings.
    pub fn config(&self) -> (r: &OrchestratorConfig)
        ensures
            *r == self.spec_config(),
    {
        &self.config
    }

    /// Starts computing a run's depth.
    pub fn start_depth(&self, run_id: RunId) -> (r: WalkStart)
        ensures
            match cached(self.spec_depths(), run_id) {
                Some(d) => r == WalkStart::Cached(d),
                None => r == WalkStart::Walk(DepthWalk { target: run_id, current: run_id, depth: 0 }),
            },
    {
        self.depths.start_walk(run_id)
    }

    /// One step of a depth walk, given what the lookup of `walk.current`
    /// found: `RunNotFound` where the run is not stored; otherwise its
    /// parent decides, as `DepthCache::step` says.
    pub fn depth_step(&mut self, walk: DepthWalk, found: Option<Option<RunId>>) -> (r: Result<WalkNext, OrchestratorError>)
        ensures
            final(self).spec_config() == old(self).spec_config(),
            found is None ==> (r matches Err(OrchestratorError::RunNotFound(id)) && id == walk.current)
                && final(self).spec_depths() == old(self).spec_depths(),
            found matches Some(parent) ==> r == Ok::<WalkNext, OrchestratorError>(step_spec(old(self).spec_depths(), walk, parent).0)
                && final(self).spec_depths() == step_spec(old(self).spec_depths(), walk, parent).1,
    {
        match found {
            None => Err(OrchestratorError::RunNotFound(walk.current)),
            Some(parent) => Ok(self.depths.step(walk, parent)),
        }
    }

    /// The spawn check: `DepthLimitExceeded` once the parent is at the
    /// effective limit; otherwise the child's depth, one more.
    pub fn check_spawn(&self, parent_depth: u32, parent_spawn_depth_limit: u32) -> (r: Result<u32, OrchestratorError>)
        ensures
            ({
                let limit = effective_limit_spec(parent_spawn_depth_limit, self.spec_config().hard_max_depth);
                &&& parent_depth >= limit ==> (r matches Err(OrchestratorError::DepthLimitExceeded { current, limit: l })
                    && current == parent_depth && l == limit)
                &&& parent_depth < limit ==> r == Ok::<u32, OrchestratorError>((parent_depth + 1) as u32)
            }),
            r matches Ok(child) ==> child <= self.spec_config().hard_max_depth && child <= parent_spawn_depth_limit,
    {
        match check_spawn_depth(parent_depth, parent_spawn_depth_limit, self.config.hard_max_depth) {
            Ok(child) => Ok(child),
            Err((current, limit)) => Err(OrchestratorError::DepthLimitExceeded { current, limit }),
        }
    }

    /// The run created for a sub-agent: the parent's id and depth limit,
    /// the requested model, trust level and tools, the default budget,
    /// initialising, created at `created_at`.
    pub fn child_run(parent: &StratumRun, child_id: RunId, config: SpawnConfig, created_at: String) -> (r: StratumRun)
        ensures
            r.id == child_id,
            r.parent_run_id == Some(parent.id),
            r.model_ref@ == config.model_ref@,
            r.trust_level == config.trust_level,
            r.tool_manifest == config.tool_manifest,
            r.context_budget == (ContextBudget { max_tokens: 128_000, max_history_messages: 50 }),
            r.spawn_depth_limit == parent.spawn_depth_limit,
            r.state == RunState::Initialising,
            r.created_at@ == created_at@,
    {
        StratumRun {
            id: child_id,
            parent_run_id: Some(parent.id),
            model_ref: config.model_ref,
            trust_level: config.trust_level,
            tool_manifest: config.tool_manifest,
            context_budget: ContextBudget::default(),
            spawn_depth_limit: parent.spawn_depth_limit,
            state: RunState::Initialising,
            created_at,
        }
    }

    /// Decides a spawn under `parent`, whose depth is `parent_depth`:
    /// `DepthLimitExceeded` once the parent is at the effective limit, and
    /// then nothing to store or emit; otherwise the child run `child_id`,
    /// its depth (one more than the parent's) and its spawn event.
    pub fn plan_spawn(
        &self,
        parent: &StratumRun,
        parent_depth: u32,
        child_id: RunId,
        config: SpawnConfig,
        created_at: String,
    ) -> (r: Result<SpawnPlan, OrchestratorError>)
        ensures
            ({
                let limit = effective_limit_spec(parent.spawn_depth_limit, self.spec_config().hard_max_depth);
                &&& parent_depth >= limit ==> (r matches Err(OrchestratorError::DepthLimitExceeded { current, limit: l })
                    && current == parent_depth && l == limit)
                &&& parent_depth < limit ==> (r matches Ok(plan) && plan.depth == parent_depth + 1
                    && plan.run.id == child_id && plan.run.parent_run_id == Some(parent.id)
                    && plan.run.model_ref@ == config.model_ref@ && plan.run.trust_level == config.trust_level
                    && plan.run.tool_manifest == config.tool_manifest
                    && plan.run.context_budget == (ContextBudget { max_tokens: 128_000, max_history_messages: 50 })
                    && plan.run.spawn_depth_limit == parent.spawn_depth_limit
                    && plan.run.state == RunState::Initialising && plan.run.created_at@ == created_at@
                    && plan.kind == spawn_event_kind(config.pattern)
                    && plan.payload@ == spawn_payload_v(config.pattern, parent.id, child_id, config.task_goal@, (parent_depth + 1) as u32))
            }),
    {
        let depth = self.check_spawn(parent_depth, parent.spawn_depth_limit)?;
        let pattern = config.pattern;
        let (kind, payload) = spawn_event(pattern, parent.id, child_id, config.task_goal.as_str(), depth);
        let run = Self::child_run(parent, child_id, config, created_at);
        Ok(SpawnPlan { run, depth, kind, payload })
    }

    /// Records the depth of a spawned child.
    pub fn record_child(&mut self, child_id: RunId, depth: u32)
        ensures
            final(self).spec_config() == old(self).spec_config(),
            final(self).spec_depths() == old(self).spec_depths().insert(child_id.0, depth),
    {
        self.depths.insert(child_id, depth);
    }

    /// The known depth of a run; zero where none is known.
    pub fn current_depth(&self, run_id: RunId) -> (r: u32)
        ensures
            r == match cached(self.spec_depths(), run_id) {
                Some(d) => d,
                None => 0,
            },
    {
        match self.depths.get(run_id) {
            Some(d) => d,
            None => 0,
        }
    }

    /// Whether a run may spawn, judged by its known depth against the hard
    /// maximum.
    pub fn can_spawn(&self, parent_run_id: RunId) -> (r: bool)
        ensures
            r == (match cached(self.spec_depths(), parent_run_id) {
                Some(d) => d,
                None => 0u32,
            } < self.spec_config().hard_max_depth),
    {
        self.current_depth(parent_run_id) < self.config.hard_max_depth
    }
}

} // verus!
