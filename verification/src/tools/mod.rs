//! Tool outcomes and the request state that tools read.

pub mod account_summary_tool;
pub mod approval_tool;
pub mod banking_tools;
pub mod check_auth;
pub mod handoff;
pub mod hooks;
pub mod knowledge_tool;
pub mod result;
