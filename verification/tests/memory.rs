use stratum::depth::{check_spawn_depth, DepthCache, WalkNext, WalkStart};
use stratum::json::Json;
use stratum::memory::{persistent_fts_query, MemoryEntry as EngineEntry, WorkingMemory};
use stratum::memory_store::search::build_fts5_query;
use stratum::memory_store::skill::{split_frontmatter, FilesystemSkillLoader, Skill};
use stratum::memory_store::store::{decide_promotion, parse_promotion_status, plan_promotion, promote_payload, strategy_gate, PromotionAction, PromotionStatus, SearchStrategy};
use stratum::memory_store::types::{tier_label, tier_order, validate_promotion, MemoryEntry, MemoryError, MemoryTier};
use stratum::memory_store::working::WorkingTier;
use stratum::context::ContextBudget;
use stratum::orchestrator::{parse_trust_level, poll_result, DefaultOrchestrator, OrchestratorConfig, SpawnConfig, SpawnPattern, StratumRun, TrustLevel};
use stratum::session::RunState;
use stratum::sub_agents;
use stratum::trajectory::{events_query, EventType, SqlParam};
use stratum::types::{parse_run_id, parse_run_id_field, run_id_text, MemoryTier as EngineTier, RunId};
use stratum::util::parse_utc;

fn make_entry(id: &str, content: &str) -> MemoryEntry {
    MemoryEntry {
        id: id.to_string(),
        tier: MemoryTier::Working,
        content: content.to_string(),
        metadata: Json::Object(vec![]),
        created_at: "2024-01-01T00:00:00+00:00".to_string(),
        updated_at: "2024-01-01T00:00:00+00:00".to_string(),
    }
}

fn engine_entry(id: &str, content: &str) -> EngineEntry {
    EngineEntry {
        id: id.to_string(),
        tier: EngineTier::Working,
        content: content.to_string(),
        metadata: Json::Object(vec![]),
        created_at: "2024-01-01T00:00:00+00:00".to_string(),
        updated_at: "2024-01-01T00:00:00+00:00".to_string(),
    }
}

// ---- full-text queries ----

#[test]
fn test_build_fts5_query_simple() {
    let q = build_fts5_query("hello world");
    assert!(q.contains("\"hello\""));
    assert!(q.contains("\"world\""));
    assert!(q.contains(" OR "));
}

#[test]
fn test_build_fts5_query_special_chars() {
    let q = build_fts5_query("hello* (world)");
    assert!(q.contains("\"hello\""));
    assert!(q.contains("\"world\""));
    assert!(!q.contains('*'));
    assert!(!q.contains('('));
}

#[test]
fn test_build_fts5_query_empty() {
    let q = build_fts5_query("");
    assert!(!q.is_empty());
}

#[test]
fn fts5_query_exact_forms() {
    assert_eq!(build_fts5_query("hello world"), "\"hello\" OR \"world\"");
    assert_eq!(build_fts5_query("*** !!"), "\" \"");
    assert_eq!(build_fts5_query(""), "\"\"");
    assert_eq!(build_fts5_query("snake_case x-y"), "\"snake_case\" OR \"xy\"");
}

#[test]
fn persistent_query_quotes_each_word() {
    assert_eq!(persistent_fts_query("database  tuning"), "\"database\" OR \"tuning\"");
    assert_eq!(persistent_fts_query("   "), "");
}

// ---- tiers and promotion ----

#[test]
fn test_tier_order() {
    assert_eq!(tier_order(MemoryTier::Working), 0);
    assert_eq!(tier_order(MemoryTier::Episodic), 1);
    assert_eq!(tier_order(MemoryTier::Project), 2);
    assert_eq!(tier_order(MemoryTier::Global), 3);
}

#[test]
fn test_validate_promotion_valid() {
    assert!(tier_order(MemoryTier::Episodic) - tier_order(MemoryTier::Working) == 1);
    assert!(tier_order(MemoryTier::Project) - tier_order(MemoryTier::Episodic) == 1);
    assert!(tier_order(MemoryTier::Global) - tier_order(MemoryTier::Project) == 1);
    assert!(validate_promotion(MemoryTier::Working, MemoryTier::Episodic).is_ok());
    assert!(validate_promotion(MemoryTier::Project, MemoryTier::Global).is_ok());
}

#[test]
fn test_validate_promotion_backward() {
    assert!(tier_order(MemoryTier::Working) < tier_order(MemoryTier::Episodic));
    assert!(tier_order(MemoryTier::Working) <= tier_order(MemoryTier::Working));
    let e = validate_promotion(MemoryTier::Episodic, MemoryTier::Working).unwrap_err();
    assert_eq!(
        e.to_string(),
        "invalid promotion: cannot promote from Episodic to Working: must promote forward"
    );
}

#[test]
fn test_validate_promotion_skip() {
    assert!(tier_order(MemoryTier::Project) - tier_order(MemoryTier::Working) > 1);
    assert!(tier_order(MemoryTier::Global) - tier_order(MemoryTier::Episodic) > 1);
    let e = validate_promotion(MemoryTier::Working, MemoryTier::Project).unwrap_err();
    assert_eq!(e.to_string(), "invalid promotion: cannot promote from Working to Project: cannot skip tiers");
}

#[test]
fn test_tier_label() {
    assert_eq!(tier_label(MemoryTier::Working), "working");
    assert_eq!(tier_label(MemoryTier::Episodic), "episodic");
    assert_eq!(tier_label(MemoryTier::Project), "project");
    assert_eq!(tier_label(MemoryTier::Global), "global");
}

#[test]
fn promotion_plans() {
    let e = plan_promotion("x", MemoryTier::Working, MemoryTier::Episodic, None, "now".to_string(), false).unwrap_err();
    assert_eq!(e.to_string(), "entry not found in Working: x");
    match plan_promotion("a", MemoryTier::Project, MemoryTier::Global, Some(make_entry("a", "c")), "t".to_string(), false) {
        Ok(PromotionAction::Queue(p)) => {
            assert_eq!(p.tier, MemoryTier::Global);
            assert_eq!(p.updated_at, "t");
        }
        _ => panic!("expected the approval queue"),
    }
    match plan_promotion("a", MemoryTier::Working, MemoryTier::Episodic, Some(make_entry("a", "c")), "t".to_string(), false) {
        Ok(PromotionAction::Write(p)) => assert_eq!(p.tier, MemoryTier::Episodic),
        _ => panic!("expected a write"),
    }
    match plan_promotion("a", MemoryTier::Project, MemoryTier::Global, Some(make_entry("a", "c")), "t".to_string(), true) {
        Ok(PromotionAction::Write(p)) => assert_eq!(p.tier, MemoryTier::Global),
        _ => panic!("expected a write"),
    }
    assert!(matches!(strategy_gate(SearchStrategy::Vector), Err(MemoryError::VectorNotImplemented)));
    assert_eq!(strategy_gate(SearchStrategy::Hybrid).unwrap(), true);
    assert_eq!(PromotionStatus::Pending.to_string(), "pending");
    assert_eq!(decide_promotion("q", Some(PromotionStatus::Pending), true).unwrap(), PromotionStatus::Approved);
    assert_eq!(decide_promotion("q", Some(PromotionStatus::Pending), false).unwrap(), PromotionStatus::Rejected);
    let e = decide_promotion("q", Some(PromotionStatus::Approved), false).unwrap_err();
    assert_eq!(e.to_string(), "entry not found in Global: q");
    assert!(decide_promotion("q", None, true).is_err());
    assert_eq!(parse_promotion_status("rejected"), Some(PromotionStatus::Rejected));
    let p = promote_payload("a", MemoryTier::Project, MemoryTier::Global, false);
    assert_eq!(p.get("queued"), Some(&Json::Bool(true)));
    let p = promote_payload("a", MemoryTier::Project, MemoryTier::Global, true);
    assert_eq!(p.get("queued"), Some(&Json::Bool(false)));
}

// ---- working tier ----

#[test]
fn test_working_crud() {
    let mut tier = WorkingTier::new();
    let entry = make_entry("w1", "hello world");
    tier.write(&entry);
    let read = tier.read("w1").unwrap();
    assert_eq!(read.content, "hello world");
    tier.delete("w1");
    assert!(tier.read("w1").is_none());
}

#[test]
fn working_test_working_search() {
    let mut tier = WorkingTier::new();
    tier.write(&make_entry("w1", "rust programming"));
    tier.write(&make_entry("w2", "python scripting"));
    tier.write(&make_entry("w3", "Rust is great"));
    let results = tier.search("rust", 10);
    assert_eq!(results.len(), 2);
}

#[test]
fn test_working_clear() {
    let mut tier = WorkingTier::new();
    tier.write(&make_entry("w1", "data"));
    tier.write(&make_entry("w2", "data"));
    tier.clear();
    assert!(tier.read("w1").is_none());
    assert!(tier.read("w2").is_none());
}

#[test]
fn test_working_overwrite() {
    let mut tier = WorkingTier::new();
    tier.write(&make_entry("w1", "original"));
    tier.write(&make_entry("w1", "updated"));
    let read = tier.read("w1").unwrap();
    assert_eq!(read.content, "updated");
    assert_eq!(tier.len(), 1);
}

#[test]
fn test_working_search_limit() {
    let mut tier = WorkingTier::new();
    for i in 0..10 {
        tier.write(&make_entry(&format!("w{i}"), "same content"));
    }
    let results = tier.search("same", 3);
    assert_eq!(results.len(), 3);
}

#[test]
fn engine_working_memory_search() {
    let mut m = WorkingMemory::new();
    m.write(&engine_entry("e1", "rust programming"));
    m.write(&engine_entry("e2", "python scripting"));
    let results = m.search("rust", 10);
    assert_eq!(results.len(), 1);
    assert_eq!(results[0].id, "e1");
    m.write(&engine_entry("e3", "Rust Programming"));
    assert_eq!(m.search("RUST", 10).len(), 2);
    assert!(m.search("nothing", 10).is_empty());
    m.write(&engine_entry("e1", "replaced"));
    assert_eq!(m.len(), 3);
}

// ---- skills ----

#[test]
fn frontmatter_is_split() {
    let content = "---\nname: test-skill\ndescription: A test skill\n---\n# Test Skill\n\nBody.\n";
    let (yaml, body) = split_frontmatter(content).unwrap();
    assert_eq!(yaml, "\nname: test-skill\ndescription: A test skill\n");
    assert_eq!(body, "# Test Skill\n\nBody.");
}

#[test]
fn frontmatter_errors() {
    match split_frontmatter("# Just markdown\n\nNo frontmatter here.") {
        Err(MemoryError::Yaml(m)) => assert_eq!(m, "skill file must start with YAML frontmatter (---)"),
        _ => panic!("expected a YAML error"),
    }
    match split_frontmatter("---\nname: broken\n") {
        Err(MemoryError::Yaml(m)) => assert_eq!(m, "missing closing --- for YAML frontmatter"),
        _ => panic!("expected a YAML error"),
    }
}

fn skill(name: &str, triggers: &[&str]) -> Skill {
    Skill {
        name: name.to_string(),
        description: format!("{name} description"),
        trigger_conditions: triggers.iter().map(|t| t.to_string()).collect(),
        content: "body".to_string(),
    }
}

#[test]
fn skills_match_by_trigger() {
    let mut loader = FilesystemSkillLoader::new("/tmp/skills".to_string());
    loader.add_skill(skill("rust-skill", &["rust", "cargo"]));
    loader.add_skill(skill("python-skill", &["python", "pip"]));
    loader.add_skill(skill("build-skill", &["BUILD"]));
    assert_eq!(loader.match_skills("I need to build with Rust"), vec!["build-skill", "rust-skill"]);
    assert_eq!(loader.match_skills("use pip to install"), vec!["python-skill"]);
    assert!(loader.match_skills("something unrelated").is_empty());
    assert_eq!(loader.list_skills().len(), 3);
    assert_eq!(loader.load_skill("rust-skill").unwrap().trigger_conditions, vec!["rust", "cargo"]);
    assert!(loader.load_skill("nope").is_none());
}

// ---- orchestration ----

#[test]
fn spawn_depth_checks() {
    assert_eq!(check_spawn_depth(0, 2, 5), Ok(1));
    assert_eq!(check_spawn_depth(2, 2, 5), Err((2, 2)));
    assert_eq!(check_spawn_depth(5, 9, 5), Err((5, 5)));
    let orch = DefaultOrchestrator::new(OrchestratorConfig::default());
    let e = orch.check_spawn(1, 1).unwrap_err();
    assert_eq!(e.to_string(), "Depth limit exceeded: current 1, limit 1");
}

#[test]
fn depth_walk_counts_parents() {
    let mut cache = DepthCache::new();
    let (root, mid, leaf) = (RunId(1), RunId(2), RunId(3));
    let walk = match cache.start_walk(leaf) {
        WalkStart::Walk(w) => w,
        WalkStart::Cached(_) => panic!("nothing is cached yet"),
    };
    let walk = match cache.step(walk, Some(mid)) {
        WalkNext::Continue(w) => w,
        WalkNext::Done(_) => panic!("mid has no known depth"),
    };
    let walk = match cache.step(walk, Some(root)) {
        WalkNext::Continue(w) => w,
        WalkNext::Done(_) => panic!("root has no known depth"),
    };
    assert_eq!(cache.step(walk, None), WalkNext::Done(2));
    assert_eq!(cache.get(leaf), Some(2));
    cache.insert(mid, 1);
    let w = match cache.start_walk(RunId(4)) {
        WalkStart::Walk(w) => w,
        WalkStart::Cached(_) => panic!("not cached"),
    };
    assert_eq!(cache.step(w, Some(mid)), WalkNext::Done(2));
}

#[test]
fn sub_agent_outcomes() {
    assert!(poll_result(RunId(9), RunState::Running).is_none());
    let r = poll_result(RunId(9), RunState::Completed).unwrap();
    assert_eq!(r.summary, "Sub-agent completed successfully.");
    let (res, kind, payload) = sub_agents::poll_outcome(RunId(9), RunState::Aborted).unwrap();
    assert_eq!(res.summary, "Sub-agent aborted.");
    assert_eq!(kind, EventType::SubagentFailed);
    assert_eq!(payload.get("status"), Some(&Json::Str("Aborted".to_string())));
    let (kind, payload) = sub_agents::spawn_event(SpawnPattern::Janitor, RunId(1), RunId(2), "clean", 1);
    assert_eq!(kind, EventType::JanitorRunStarted);
    assert_eq!(payload.get("pattern"), Some(&Json::Str("Janitor".to_string())));
    let orch = sub_agents::DefaultOrchestrator::new(sub_agents::OrchestratorConfig::default());
    assert!(orch.can_spawn(RunId(5)));
    assert_eq!(orch.current_depth(RunId(5)), 0);
}

#[test]
fn event_queries() {
    let (sql, params) = events_query(Some(RunId(1)), Some(EventType::ToolCalled), Some(5));
    assert!(sql.ends_with(" WHERE run_id = ?1 AND event_type = ?2 ORDER BY timestamp ASC LIMIT ?3"));
    assert_eq!(params.len(), 3);
    assert_eq!(params[1], SqlParam::Text("ToolCalled".to_string()));
    assert_eq!(params[2], SqlParam::Int(5));
    let (sql, params) = events_query(None, None, None);
    assert!(sql.ends_with("FROM trajectory_events ORDER BY timestamp ASC"));
    assert!(params.is_empty());
}

fn root_run(limit: u32) -> StratumRun {
    StratumRun {
        id: RunId(0x10),
        parent_run_id: None,
        model_ref: "test-model".to_string(),
        trust_level: TrustLevel::Supervised,
        tool_manifest: vec![],
        context_budget: ContextBudget::default(),
        spawn_depth_limit: limit,
        state: RunState::Running,
        created_at: "2024-01-01T00:00:00+00:00".to_string(),
    }
}

fn child_config(pattern: SpawnPattern) -> SpawnConfig {
    SpawnConfig {
        pattern,
        model_ref: "child-model".to_string(),
        trust_level: TrustLevel::Sandboxed,
        tool_manifest: vec!["read_file".to_string()],
        task_goal: "Do the thing".to_string(),
        shared_filesystem_scope: None,
    }
}

#[test]
fn plan_spawn_builds_child_and_event() {
    let orch = sub_agents::DefaultOrchestrator::new(sub_agents::OrchestratorConfig::default());
    let parent = root_run(3);
    let plan = orch
        .plan_spawn(&parent, 0, RunId(0x20), child_config(SpawnPattern::Delegate), "2024-01-02T00:00:00+00:00".to_string())
        .unwrap();
    assert_eq!(plan.depth, 1);
    assert_eq!(plan.run.id, RunId(0x20));
    assert_eq!(plan.run.parent_run_id, Some(parent.id));
    assert_eq!(plan.run.model_ref, "child-model");
    assert_eq!(plan.run.trust_level, TrustLevel::Sandboxed);
    assert_eq!(plan.run.tool_manifest, vec!["read_file".to_string()]);
    assert_eq!(plan.run.spawn_depth_limit, 3);
    assert_eq!(plan.run.state, RunState::Initialising);
    assert_eq!(plan.kind, EventType::SubagentSpawned);
    assert_eq!(plan.payload.get("depth"), Some(&Json::Number(stratum::json::JsonNumber::PosInt(1))));
    assert_eq!(plan.payload.get("task_goal"), Some(&Json::Str("Do the thing".to_string())));
}

#[test]
fn plan_spawn_refuses_at_limit() {
    let orch = sub_agents::DefaultOrchestrator::new(sub_agents::OrchestratorConfig::default());
    let parent = root_run(2);
    let err = orch
        .plan_spawn(&parent, 2, RunId(0x21), child_config(SpawnPattern::Janitor), "2024-01-02T00:00:00+00:00".to_string())
        .unwrap_err();
    assert_eq!(err.to_string(), "depth limit exceeded: current depth 2, limit 2");
    let deep = root_run(9);
    let err = orch
        .plan_spawn(&deep, 5, RunId(0x22), child_config(SpawnPattern::Delegate), "2024-01-02T00:00:00+00:00".to_string())
        .unwrap_err();
    assert_eq!(err.to_string(), "depth limit exceeded: current depth 5, limit 5");
}

#[test]
fn sub_agent_depth_step_follows_parents() {
    let mut orch = sub_agents::DefaultOrchestrator::new(sub_agents::OrchestratorConfig::default());
    let walk = match orch.start_depth(RunId(3)) {
        WalkStart::Walk(w) => w,
        WalkStart::Cached(_) => panic!("nothing is cached yet"),
    };
    let walk = match orch.depth_step(walk, Some(Some(RunId(2)))).unwrap() {
        WalkNext::Continue(w) => w,
        WalkNext::Done(_) => panic!("run 2 has a parent to look up"),
    };
    assert_eq!(walk.current, RunId(2));
    assert_eq!(walk.depth, 1);
    assert_eq!(orch.depth_step(walk, Some(None)).unwrap(), WalkNext::Done(1));
    assert_eq!(orch.current_depth(RunId(3)), 1);
    assert!(orch.depth_step(walk, None).is_err());
}

#[test]
fn trust_levels_round_trip() {
    for t in [TrustLevel::Sandboxed, TrustLevel::Supervised, TrustLevel::Autonomous] {
        assert_eq!(parse_trust_level(t.as_str()), Some(t));
    }
    assert_eq!(parse_trust_level("sandboxed"), None);
}

#[test]
fn run_ids_parse_back() {
    let id = RunId(0x0123_4567_89ab_cdef_0123_4567_89ab_cdef);
    assert_eq!(parse_run_id(&run_id_text(&id)), Some(id));
    assert_eq!(parse_run_id("not-a-uuid"), None);
    let err = parse_run_id_field("xyz", "run_id").unwrap_err();
    assert!(err.to_string().starts_with("Invalid state: run_id: "));
}

#[test]
fn timestamps_read_as_utc() {
    assert_eq!(parse_utc("2024-03-01T12:00:00+02:00").unwrap(), "2024-03-01T10:00:00+00:00");
    let err = parse_utc("yesterday").unwrap_err();
    assert!(err.to_string().starts_with("Invalid state: invalid timestamp: "));
}
