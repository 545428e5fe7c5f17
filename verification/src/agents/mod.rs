//! Per-conversation agent routing and the tools that hand a conversation over.

pub mod active_agent_store;
pub mod handoff;
