# stratum

The verified core of Stratum, an autonomous agent harness: session
lifecycle, context assembly, a two-tier engine memory and a four-tier
memory hierarchy, tool execution with schema validation and retry,
sub-agent orchestration with depth limits, and the trajectory of events.

`src/` is the library, written in Verus: every function carries a
contract and is proved against it. It decides; it does not wait or do
input and output. Where the harness must talk to the outside world (run a
process, read a file, query SQLite, call a model over HTTP) the library
offers the decision before and after the step, and `app/` performs it.

Layout:

- `src/json.rs`, `src/json_text.rs`, `src/text.rs` — JSON values and their
  compact text, string helpers with their mathematical meaning.
- `src/tools/` — the built-in tools' parameters, definitions and results.
- `src/subprocess.rs`, `src/process.rs` — how registered tools are run.
- `src/registry.rs`, `src/gateway.rs` — the tool registry (each name once,
  schemas checked with `jsonschema`) and the intercept/validate/execute
  pipeline with bounded retries.
- `src/llm.rs`, `src/openai.rs`, `src/http.rs`, `src/util.rs` — model API
  requests and replies, retry decisions, exponential backoff with jitter.
- `src/session.rs`, `src/context.rs`, `src/memory.rs`, `src/trajectory.rs`
  — run states, context windows, engine memory, event queries.
- `src/depth.rs`, `src/orchestrator.rs`, `src/sub_agents.rs` — spawn
  depth and sub-agent outcomes.
- `src/memory_store/` — the memory hierarchy: tiers, promotion, full-text
  queries, the working tier and skills.
- `tests/` — tests of the library on concrete values.
- `app/` — the asynchronous runtime: SQLite stores, HTTP clients, process
  and file tools, and the drivers that follow the library's decisions.
