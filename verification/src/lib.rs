//! Stratum: the verified core of an autonomous agent harness.

pub mod text;
pub mod json;
pub mod json_text;
pub mod types;
pub mod prompt;
pub mod executor;
pub mod process;
pub mod time;
pub mod subprocess;
pub mod tools;
pub mod util;
pub mod error;
pub mod http;
pub mod llm;
pub mod openai;
pub mod registry;
pub mod gateway;
pub mod session;
pub mod context;
pub mod memory;
pub mod memory_store;
pub mod depth;
pub mod orchestrator;
pub mod trajectory;
pub mod sub_agents;
