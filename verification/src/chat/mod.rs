//! Chat: request schemas, the multi-agent turn loop and the event stream format.

pub mod orchestration;
pub mod routes;
pub mod schemas;
pub mod session;
pub mod sse;
