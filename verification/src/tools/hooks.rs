//! Hooks that run around tool calls: authentication, protection against acting
//! on another user's data, and the audit events of each call.

use vstd::prelude::*;

use crate::error::UserIdExtension;
use crate::text::{push_str, str_eq};
use crate::tools::result::ToolResult;

verus! {

/// What a before-hook decides: let the call proceed, or answer in its place.
#[derive(Debug)]
pub enum BeforeHookDecision {
    Proceed,
    ReturnEarly(ToolResult),
}

/// What an after-hook decides: hand the result on unchanged.
#[derive(Debug)]
pub enum AfterHookDecision {
    Return,
}

/// The authenticated user: the identity of the request when it is not empty.
pub open spec fn auth_identity(identity: Option<&UserIdExtension>) -> Option<Seq<char>> {
    match identity {
        Some(e) => if e.0@.len() > 0 { Some(e.0@) } else { None },
        None => None,
    }
}

fn auth_uid<'a>(identity: Option<&'a UserIdExtension>) -> (r: Option<&'a str>)
    ensures
        match r {
            Some(u) => auth_identity(identity) == Some(u@),
            None => auth_identity(identity) is None,
        },
{
    match identity {
        Some(e) => if e.0.as_str().is_empty() { None } else { Some(e.0.as_str()) },
        None => None,
    }
}

/// Rejects any tool call that has no authenticated user.
pub struct AuthRequiredHook;

impl AuthRequiredHook {
    pub fn before(&self, identity: Option<&UserIdExtension>) -> (d: BeforeHookDecision)
        ensures
            auth_identity(identity) is None ==> (d matches BeforeHookDecision::ReturnEarly(t) && t.is_error
                && t.content@ == "User not authenticated"@),
            auth_identity(identity) is Some ==> d is Proceed,
    {
        if auth_uid(identity).is_none() {
            return BeforeHookDecision::ReturnEarly(ToolResult::error("User not authenticated".to_owned()));
        }
        BeforeHookDecision::Proceed
    }

    pub fn after(&self) -> (d: AfterHookDecision)
        ensures
            d is Return,
    {
        AfterHookDecision::Return
    }
}

/// The refusal when the model asks for another user's data.
pub open spec fn idor_message(auth: Seq<char>, claimed: Seq<char>) -> Seq<char> {
    "Unauthorized: authenticated as '"@ + auth + "', cannot access '"@ + claimed + "'"@
}

/// Rejects a tool call whose claimed user id (the input field named by
/// `user_id_field`) differs from the authenticated user.
pub struct IdorGuardHook {
    pub user_id_field: &'static str,
}

impl IdorGuardHook {
    /// `claimed` is the string in the tool input under `user_id_field`, if any.
    pub fn before(&self, identity: Option<&UserIdExtension>, claimed: Option<&str>) -> (d: BeforeHookDecision)
        ensures
            ({
                let c = match claimed { Some(c) => c@, None => ""@ };
                match auth_identity(identity) {
                    None => d matches BeforeHookDecision::ReturnEarly(t) && t.is_error
                        && t.content@ == "User not authenticated"@,
                    Some(a) => if c.len() > 0 && c != a {
                        d matches BeforeHookDecision::ReturnEarly(t) && t.is_error && t.content@ == idor_message(a, c)
                    } else {
                        d is Proceed
                    },
                }
            }),
    {
        let auth = match auth_uid(identity) {
            Some(a) => a,
            None => {
                return BeforeHookDecision::ReturnEarly(ToolResult::error("User not authenticated".to_owned()));
            },
        };
        let input_uid: &str = match claimed {
            Some(c) => c,
            None => "",
        };
        if !input_uid.is_empty() && !str_eq(input_uid, auth) {
            let mut msg = String::new();
            push_str(&mut msg, "Unauthorized: authenticated as '");
            push_str(&mut msg, auth);
            push_str(&mut msg, "', cannot access '");
            push_str(&mut msg, input_uid);
            push_str(&mut msg, "'");
            assert(msg@ =~= idor_message(auth@, input_uid@));
            return BeforeHookDecision::ReturnEarly(ToolResult::error(msg));
        }
        BeforeHookDecision::Proceed
    }

    pub fn after(&self) -> (d: AfterHookDecision)
        ensures
            d is Return,
    {
        AfterHookDecision::Return
    }
}

/// The audit events of one tool call.
#[derive(Debug)]
pub enum ToolAuditEvent {
    Started { tool_name: String, tool_use_id: String, conversation_id: String },
    Complete {
        tool_name: String,
        tool_use_id: String,
        duration_ms: u64,
        success: bool,
        error: Option<String>,
        conversation_id: String,
    },
}

/// How a tool call ended.
#[derive(Debug)]
pub enum ToolExecutionStatus {
    Success,
    Error(String),
}

/// Emits the start and completion events of every tool call.
pub struct AuditLogHook;

impl AuditLogHook {
    /// The event announcing a call; a missing conversation id is reported as "".
    pub fn before(&self, tool_name: &str, tool_use_id: &str, conversation_id: Option<&str>) -> (e: ToolAuditEvent)
        ensures
            e matches ToolAuditEvent::Started { tool_name: n, tool_use_id: u, conversation_id: c } && n@ == tool_name@
                && u@ == tool_use_id@ && c@ == (match conversation_id { Some(c) => c@, None => ""@ }),
    {
        let conv: &str = match conversation_id {
            Some(c) => c,
            None => "",
        };
        ToolAuditEvent::Started {
            tool_name: tool_name.to_owned(),
            tool_use_id: tool_use_id.to_owned(),
            conversation_id: conv.to_owned(),
        }
    }

    /// The event reporting how a call ended and how long it took.
    pub fn after(
        &self,
        tool_name: &str,
        tool_use_id: &str,
        conversation_id: Option<&str>,
        duration_ms: u64,
        status: &ToolExecutionStatus,
    ) -> (e: ToolAuditEvent)
        ensures
            e matches ToolAuditEvent::Complete { tool_name: n, tool_use_id: u, duration_ms: d, success, error, conversation_id: c }
                && n@ == tool_name@ && u@ == tool_use_id@ && d == duration_ms
                && c@ == (match conversation_id { Some(c) => c@, None => ""@ })
                && match status {
                    ToolExecutionStatus::Success => success && error is None,
                    ToolExecutionStatus::Error(m) => !success && (error matches Some(x) && x@ == m@),
                },
    {
        let conv: &str = match conversation_id {
            Some(c) => c,
            None => "",
        };
        let (success, error) = match status {
            ToolExecutionStatus::Success => (true, None),
            ToolExecutionStatus::Error(m) => (false, Some(m.clone())),
        };
        ToolAuditEvent::Complete {
            tool_name: tool_name.to_owned(),
            tool_use_id: tool_use_id.to_owned(),
            duration_ms,
            success,
            error,
            conversation_id: conv.to_owned(),
        }
    }
}

} // verus!
