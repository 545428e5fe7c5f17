//! Verified core of the Lauren banking assistant: the ledger, the approval
//! workflow, agent routing and handoffs, guardrails, knowledge search, the
//! signing schemes of request bodies and WebSocket tokens, and the
//! chat-completions protocol spoken with the LLM service.

pub mod agents;
pub mod approval;
pub mod banking;
pub mod chat;
pub mod config;
pub mod crypto;
pub mod error;
pub mod guardrails;
pub mod keyed;
pub mod knowledge;
pub mod llm;
pub mod metrics;
pub mod text;
pub mod tools;
pub mod ws;
