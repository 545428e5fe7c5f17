//! Tools that hand the conversation to another agent by recording it in the
//! active-agent store together with the reason given.

use vstd::prelude::*;

use crate::agents::active_agent_store::{ActiveAgentStore, AgentStoreView};
use crate::text::push_str;
use crate::tools::result::{text_or, ToolResult, ToolState};

verus! {

/// The store after a handoff of conversation `conv` to `agent` for `reason`.
pub open spec fn handed_off(old: AgentStoreView, new: AgentStoreView, conv: Seq<char>, agent: Seq<char>, reason: Seq<char>) -> bool {
    &&& new.agents == old.agents.insert(conv, agent)
    &&& new.summaries == old.summaries.insert(conv, reason)
}

/// The reason given, or "Agent handoff".
pub open spec fn reason_or_default(reason: Option<&str>) -> Seq<char> {
    match reason {
        Some(r) => r@,
        None => "Agent handoff"@,
    }
}

pub(crate) fn hand_off(
    store: &mut ActiveAgentStore,
    state: &ToolState,
    reason: Option<&str>,
    agent: &str,
    label: &str,
) -> (r: ToolResult)
    ensures
        handed_off(old(store)@, final(store)@, text_or(state.conversation_id, "default"@), agent@, reason_or_default(reason)),
        !r.is_error,
        r.content@ == "Handed off to "@ + label@ + ": "@ + reason_or_default(reason),
{
    let reason_text: &str = match reason {
        Some(r) => r,
        None => "Agent handoff",
    };
    let conv_id = state.conversation_or("default");
    store.set_active_agent(conv_id, agent);
    store.set_pending_summary(conv_id, reason_text);
    let mut content = String::new();
    push_str(&mut content, "Handed off to ");
    push_str(&mut content, label);
    push_str(&mut content, ": ");
    push_str(&mut content, reason_text);
    assert(content@ =~= "Handed off to "@ + label@ + ": "@ + reason_or_default(reason));
    ToolResult::ok(content)
}

/// Tool to hand off to the Authenticated CRM agent.
pub struct HandoffToCrmTool;

impl HandoffToCrmTool {
    pub fn name(&self) -> (r: &'static str)
        ensures
            r@ == "handoff_to_crm"@,
    {
        "handoff_to_crm"
    }

    pub fn description(&self) -> (r: &'static str)
        ensures
            r@ == "Hand off the conversation to the Authenticated CRM agent"@,
    {
        "Hand off the conversation to the Authenticated CRM agent"
    }

    /// Make "AuthenticatedCRM" the active agent of the conversation ("default"
    /// when the state names none) and leave the reason as the handoff summary.
    pub fn call(&self, store: &mut ActiveAgentStore, state: &ToolState, reason: Option<&str>) -> (r: ToolResult)
        ensures
            handed_off(old(store)@, final(store)@, text_or(state.conversation_id, "default"@), "AuthenticatedCRM"@, reason_or_default(reason)),
            !r.is_error,
            r.content@ == "Handed off to Authenticated CRM: "@ + reason_or_default(reason),
    {
        let r = hand_off(store, state, reason, "AuthenticatedCRM", "Authenticated CRM");
        proof { reveal_strlit("Handed off to "); reveal_strlit("Authenticated CRM"); reveal_strlit(": "); reveal_strlit("Handed off to Authenticated CRM: "); }
        assert("Handed off to "@ + "Authenticated CRM"@ + ": "@ =~= "Handed off to Authenticated CRM: "@);
        r
    }
}

/// Tool to hand off to the Bank Transfer agent.
pub struct HandoffToTransferTool;

impl HandoffToTransferTool {
    pub fn name(&self) -> (r: &'static str)
        ensures
            r@ == "handoff_to_transfer"@,
    {
        "handoff_to_transfer"
    }

    pub fn description(&self) -> (r: &'static str)
        ensures
            r@ == "Hand off the conversation to the Bank Transfer agent"@,
    {
        "Hand off the conversation to the Bank Transfer agent"
    }

    /// Make "BankTransfer" the active agent of the conversation and leave the
    /// reason as the handoff summary.
    pub fn call(&self, store: &mut ActiveAgentStore, state: &ToolState, reason: Option<&str>) -> (r: ToolResult)
        ensures
            handed_off(old(store)@, final(store)@, text_or(state.conversation_id, "default"@), "BankTransfer"@, reason_or_default(reason)),
            !r.is_error,
            r.content@ == "Handed off to Bank Transfer: "@ + reason_or_default(reason),
    {
        let r = hand_off(store, state, reason, "BankTransfer", "Bank Transfer");
        proof { reveal_strlit("Handed off to "); reveal_strlit("Bank Transfer"); reveal_strlit(": "); reveal_strlit("Handed off to Bank Transfer: "); }
        assert("Handed off to "@ + "Bank Transfer"@ + ": "@ =~= "Handed off to Bank Transfer: "@);
        r
    }
}

/// Tool to hand off to the Disputes agent.
pub struct HandoffToDisputesTool;

impl HandoffToDisputesTool {
    pub fn name(&self) -> (r: &'static str)
        ensures
            r@ == "handoff_to_disputes"@,
    {
        "handoff_to_disputes"
    }

    pub fn description(&self) -> (r: &'static str)
        ensures
            r@ == "Hand off the conversation to the Disputes agent"@,
    {
        "Hand off the conversation to the Disputes agent"
    }

    /// Make "Disputes" the active agent of the conversation and leave the reason
    /// as the handoff summary.
    pub fn call(&self, store: &mut ActiveAgentStore, state: &ToolState, reason: Option<&str>) -> (r: ToolResult)
        ensures
            handed_off(old(store)@, final(store)@, text_or(state.conversation_id, "default"@), "Disputes"@, reason_or_default(reason)),
            !r.is_error,
            r.content@ == "Handed off to Disputes: "@ + reason_or_default(reason),
    {
        let r = hand_off(store, state, reason, "Disputes", "Disputes");
        proof { reveal_strlit("Handed off to "); reveal_strlit("Disputes"); reveal_strlit(": "); reveal_strlit("Handed off to Disputes: "); }
        assert("Handed off to "@ + "Disputes"@ + ": "@ =~= "Handed off to Disputes: "@);
        r
    }
}

/// Tool to hand off to the Authenticated CRM agent (requires authentication).
pub struct HandoffToAuthenticatedCrmTool;

impl HandoffToAuthenticatedCrmTool {
    pub fn name(&self) -> (r: &'static str)
        ensures
            r@ == "handoff_to_authenticated_crm"@,
    {
        "handoff_to_authenticated_crm"
    }

    pub fn description(&self) -> (r: &'static str)
        ensures
            r@ == "Hand off to the Authenticated CRM agent (requires authentication)"@,
    {
        "Hand off to the Authenticated CRM agent (requires authentication)"
    }

    /// Without an authenticated user nothing changes and the result asks the user
    /// to log in; otherwise "AuthenticatedCRM" becomes the active agent.
    pub fn call(&self, store: &mut ActiveAgentStore, state: &ToolState, reason: Option<&str>) -> (r: ToolResult)
        ensures
            !r.is_error,
            state.auth_uid().len() == 0 ==> final(store)@ == old(store)@
                && r.content@ == "Cannot hand off to authenticated CRM: user is not authenticated. Ask the user to log in first."@,
            state.auth_uid().len() != 0 ==> handed_off(old(store)@, final(store)@, text_or(state.conversation_id, "default"@), "AuthenticatedCRM"@, reason_or_default(reason))
                && r.content@ == "Handed off to Authenticated CRM: "@ + reason_or_default(reason),
    {
        let uid = state.auth_uid_str();
        if uid.is_empty() {
            return ToolResult::ok(
                "Cannot hand off to authenticated CRM: user is not authenticated. Ask the user to log in first.".to_owned(),
            );
        }
        let r = hand_off(store, state, reason, "AuthenticatedCRM", "Authenticated CRM");
        proof { reveal_strlit("Handed off to "); reveal_strlit("Authenticated CRM"); reveal_strlit(": "); reveal_strlit("Handed off to Authenticated CRM: "); }
        assert("Handed off to "@ + "Authenticated CRM"@ + ": "@ =~= "Handed off to Authenticated CRM: "@);
        r
    }
}

} // verus!
