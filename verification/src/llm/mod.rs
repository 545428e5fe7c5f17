//! The OpenAI-compatible chat-completions protocol spoken with OpenRouter: the
//! server-sent event framing of its streams and the mapping between its wire
//! messages and the agent runtime's messages.

pub mod event_stream;
pub mod openrouter;
