//! Handoff tools of the banking agents: each names the agent that takes over the
//! conversation and leaves the reason as the handoff summary.

use vstd::prelude::*;

use crate::agents::active_agent_store::ActiveAgentStore;
use crate::agents::handoff::{hand_off, handed_off, reason_or_default};
use crate::error::UserIdExtension;
use crate::tools::result::{text_or, ToolResult, ToolState};

verus! {

/// The authenticated CRM agent's name.
pub open spec fn crm_agent() -> Seq<char> {
    "Banking CRM Agent (Authenticated)"@
}

/// Tool to hand off to the Authenticated CRM agent.
pub struct HandoffToCrmTool;

impl HandoffToCrmTool {
    pub fn name(&self) -> (r: &'static str)
        ensures
            r@ == "handoff_to_crm"@,
    {
        "handoff_to_crm"
    }

    pub fn description(&self) -> (r: &'static str)
        ensures
            r@ == "Hand off the conversation to the Authenticated CRM agent"@,
    {
        "Hand off the conversation to the Authenticated CRM agent"
    }

    pub fn call(&self, store: &mut ActiveAgentStore, state: &ToolState, reason: Option<&str>) -> (r: ToolResult)
        ensures
            handed_off(old(store)@, final(store)@, text_or(state.conversation_id, "default"@), crm_agent(), reason_or_default(reason)),
            !r.is_error,
            r.content@ == "Handed off to "@ + crm_agent() + ": "@ + reason_or_default(reason),
    {
        hand_off(store, state, reason, "Banking CRM Agent (Authenticated)", "Banking CRM Agent (Authenticated)")
    }
}

/// Tool to hand off to the Bank Transfer agent.
pub struct HandoffToTransferTool;

impl HandoffToTransferTool {
    pub fn name(&self) -> (r: &'static str)
        ensures
            r@ == "handoff_to_transfer"@,
    {
        "handoff_to_transfer"
    }

    pub fn description(&self) -> (r: &'static str)
        ensures
            r@ == "Hand off the conversation to the Bank Transfer agent"@,
    {
        "Hand off the conversation to the Bank Transfer agent"
    }

    pub fn call(&self, store: &mut ActiveAgentStore, state: &ToolState, reason: Option<&str>) -> (r: ToolResult)
        ensures
            handed_off(old(store)@, final(store)@, text_or(state.conversation_id, "default"@), "Banking Transfer Agent"@, reason_or_default(reason)),
            !r.is_error,
            r.content@ == "Handed off to "@ + "Banking Transfer Agent"@ + ": "@ + reason_or_default(reason),
    {
        hand_off(store, state, reason, "Banking Transfer Agent", "Banking Transfer Agent")
    }
}

/// Tool to hand off to the Disputes agent.
pub struct HandoffToDisputesTool;

impl HandoffToDisputesTool {
    pub fn name(&self) -> (r: &'static str)
        ensures
            r@ == "handoff_to_disputes"@,
    {
        "handoff_to_disputes"
    }

    pub fn description(&self) -> (r: &'static str)
        ensures
            r@ == "Hand off the conversation to the Disputes agent"@,
    {
        "Hand off the conversation to the Disputes agent"
    }

    pub fn call(&self, store: &mut ActiveAgentStore, state: &ToolState, reason: Option<&str>) -> (r: ToolResult)
        ensures
            handed_off(old(store)@, final(store)@, text_or(state.conversation_id, "default"@), "Banking Disputes Agent"@, reason_or_default(reason)),
            !r.is_error,
            r.content@ == "Handed off to "@ + "Banking Disputes Agent"@ + ": "@ + reason_or_default(reason),
    {
        hand_off(store, state, reason, "Banking Disputes Agent", "Banking Disputes Agent")
    }
}

/// Tool to hand off to the Authenticated CRM agent (requires authentication).
pub struct HandoffToAuthenticatedCrmTool;

impl HandoffToAuthenticatedCrmTool {
    pub fn name(&self) -> (r: &'static str)
        ensures
            r@ == "handoff_to_authenticated_crm"@,
    {
        "handoff_to_authenticated_crm"
    }

    pub fn description(&self) -> (r: &'static str)
        ensures
            r@ == "Hand off to the Authenticated CRM agent (requires authentication)"@,
    {
        "Hand off to the Authenticated CRM agent (requires authentication)"
    }

    /// The request identity decides: without a non-empty one nothing changes and
    /// the user is asked to log in.
    pub fn call(
        &self,
        store: &mut ActiveAgentStore,
        identity: Option<&UserIdExtension>,
        state: &ToolState,
        reason: Option<&str>,
    ) -> (r: ToolResult)
        ensures
            !r.is_error,
            ({
                let authed = match identity { Some(e) => e.0@.len() > 0, None => false };
                &&& !authed ==> final(store)@ == old(store)@
                    && r.content@ == "Cannot hand off to authenticated CRM: user is not authenticated. Ask the user to log in first."@
                &&& authed ==> handed_off(old(store)@, final(store)@, text_or(state.conversation_id, "default"@), crm_agent(), reason_or_default(reason))
                    && r.content@ == "Handed off to "@ + crm_agent() + ": "@ + reason_or_default(reason)
            }),
    {
        let is_authenticated = match identity {
            Some(e) => !e.0.as_str().is_empty(),
            None => false,
        };
        if !is_authenticated {
            return ToolResult::ok(
                "Cannot hand off to authenticated CRM: user is not authenticated. Ask the user to log in first.".to_owned(),
            );
        }
        hand_off(store, state, reason, "Banking CRM Agent (Authenticated)", "Banking CRM Agent (Authenticated)")
    }
}

} // verus!
