//! The outcome of a tool call and the per-request state tools see.

use vstd::prelude::*;

use crate::error::UserIdExtension;

verus! {

/// The text a tool hands back to the model, flagged when it reports an error.
#[derive(Debug)]
pub struct ToolResult {
    pub content: String,
    pub is_error: bool,
}

impl ToolResult {
    /// A successful result.
    pub fn ok(content: String) -> (r: Self)
        ensures
            r.content == content,
            !r.is_error,
    {
        ToolResult { content, is_error: false }
    }

    /// An error result.
    pub fn error(content: String) -> (r: Self)
        ensures
            r.content == content,
            r.is_error,
    {
        ToolResult { content, is_error: true }
    }
}

/// The text of `o`, or `d` when it is absent.
pub open spec fn text_or(o: Option<String>, d: Seq<char>) -> Seq<char> {
    match o {
        Some(s) => s@,
        None => d,
    }
}

/// What a tool call knows of its request: the user identity the HTTP layer
/// attached (the request's user extension), and the string entries of the
/// request state, the user and the conversation, when present.
#[derive(Debug)]
pub struct ToolState {
    pub identity: Option<UserIdExtension>,
    pub user_id: Option<String>,
    pub conversation_id: Option<String>,
}

impl ToolState {
    /// The authenticated user id: the attached identity when it is not empty,
    /// which is authoritative; otherwise the state's user entry; "" for none.
    pub open spec fn auth_uid(&self) -> Seq<char> {
        match self.identity {
            Some(e) => if e.0@.len() > 0 {
                e.0@
            } else {
                text_or(self.user_id, ""@)
            },
            None => text_or(self.user_id, ""@),
        }
    }

    /// The authenticated user id, or "" when there is none.
    pub fn auth_uid_str(&self) -> (r: &str)
        ensures
            r@ == self.auth_uid(),
    {
        if let Some(e) = &self.identity {
            if !e.0.as_str().is_empty() {
                return e.0.as_str();
            }
        }
        match &self.user_id {
            Some(u) => u.as_str(),
            None => "",
        }
    }

    /// The conversation id, or `default` when there is none.
    pub fn conversation_or<'a>(&'a self, default: &'a str) -> (r: &'a str)
        ensures
            r@ == text_or(self.conversation_id, default@),
    {
        match &self.conversation_id {
            Some(c) => c.as_str(),
            None => default,
        }
    }
}

} // verus!
