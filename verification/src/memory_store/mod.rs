//! The four-tier memory hierarchy: working, episodic, project and global
//! memory, with promotion one tier forward at a time.

pub mod search;
pub mod types;
pub mod working;
pub mod skill;
pub mod store;
