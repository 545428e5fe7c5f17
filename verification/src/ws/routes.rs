//! Request and response shapes of the WebSocket token endpoints.

use vstd::prelude::*;

use crate::ws::token_service::TOKEN_TTL_SECS;

verus! {

/// WS token request (authenticated).
pub struct WsTokenRequest {
    /// The user ID for the token.
    pub user_id: String,
}

/// WS token response.
pub struct WsTokenResponse {
    /// The generated token.
    pub token: String,
    /// Token TTL in seconds.
    pub ttl_seconds: i64,
}

impl WsTokenResponse {
    /// The response that hands out `token` with the standard lifetime.
    pub fn for_token(token: String) -> (r: Self)
        ensures
            r.token == token,
            r.ttl_seconds == TOKEN_TTL_SECS,
    {
        WsTokenResponse { token, ttl_seconds: 120 }
    }
}

/// The subject a token request asks for: the given user id when there is a
/// non-empty one, else nothing (the request is refused).
pub fn requested_subject(user_id: Option<String>) -> (r: Option<String>)
    ensures
        match user_id {
            Some(u) => if u@.len() > 0 { r == Some(u) } else { r is None },
            None => r is None,
        },
{
    match user_id {
        Some(u) => {
            if u.as_str().unicode_len() > 0 {
                Some(u)
            } else {
                None
            }
        },
        None => None,
    }
}

} // verus!
