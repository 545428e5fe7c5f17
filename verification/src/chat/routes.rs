//! The decisions of the chat endpoints that do not depend on the agents: who
//! the caller is, which conversation a request continues, and what to report
//! when no agent is recorded.

use vstd::prelude::*;

use crate::banking::db::{is_uuid_v4_text, new_uuid_v4};
use crate::error::AppError;

verus! {

/// The user id an authenticated chat request must carry; without one the
/// request is refused with "user_id required".
pub fn require_user_id(user_id: Option<String>) -> (r: Result<String, AppError>)
    ensures
        match user_id {
            Some(u) => r == Ok::<String, AppError>(u),
            None => r matches Err(AppError::Unauthorized(m)) && m@ == "user_id required"@,
        },
{
    match user_id {
        Some(u) => Ok(u),
        None => Err(AppError::Unauthorized("user_id required".to_owned())),
    }
}

/// The conversation a request continues: the one it names, or a new one with
/// a fresh random version-4 UUID.
pub fn conversation_id_or_new(conversation_id: Option<String>) -> (r: String)
    ensures
        conversation_id matches Some(c) ==> r == c,
        conversation_id is None ==> is_uuid_v4_text(r@),
{
    match conversation_id {
        Some(c) => c,
        None => new_uuid_v4(),
    }
}

/// The agent name reported for a conversation: the active one, or "unknown".
pub fn agent_name_or_unknown(active: Option<String>) -> (r: String)
    ensures
        match active {
            Some(a) => r == a,
            None => r@ == "unknown"@,
        },
{
    match active {
        Some(a) => a,
        None => "unknown".to_owned(),
    }
}

} // verus!
