//! Tool that asks the user to approve an action and records the answer.
//!
//! The request is opened here, the user's answer (or its absence) is awaited by
//! the caller, and the outcome is concluded here.

use vstd::prelude::*;

use crate::approval::service::{ApprovalService, ApprovalView};
use crate::tools::result::{text_or, ToolResult, ToolState};

verus! {

/// The fields of an approval request after defaults are applied.
#[derive(Debug)]
pub struct ApprovalRequestInfo {
    pub conversation_id: String,
    pub from_user: String,
    pub action_type: String,
    pub to_user: String,
    pub description: String,
}

/// How waiting for the user's answer ended.
#[derive(Debug)]
pub enum ApprovalOutcome {
    /// The user approved.
    Approved,
    /// The user rejected.
    Denied,
    /// The request was dropped before an answer came.
    Cancelled,
    /// No answer within the waiting time.
    TimedOut,
}

/// The reply to the model for each outcome.
pub open spec fn outcome_message(o: ApprovalOutcome) -> Seq<char> {
    match o {
        ApprovalOutcome::Approved => "Approval granted. You may proceed with the action."@,
        ApprovalOutcome::Denied => "Approval denied by the user. Do not proceed."@,
        ApprovalOutcome::Cancelled => "Approval request was cancelled."@,
        ApprovalOutcome::TimedOut => "Approval request timed out after 30 seconds."@,
    }
}

/// The outcome of the wait: `None` when no answer came in time, `Some(None)` when
/// the request was dropped unanswered, `Some(Some(answer))` when the user answered.
pub open spec fn answer_outcome(answer: Option<Option<bool>>) -> ApprovalOutcome {
    match answer {
        None => ApprovalOutcome::TimedOut,
        Some(None) => ApprovalOutcome::Cancelled,
        Some(Some(true)) => ApprovalOutcome::Approved,
        Some(Some(false)) => ApprovalOutcome::Denied,
    }
}

/// Name the outcome of waiting for the user's answer, as `answer_outcome` says.
pub fn outcome_of(answer: Option<Option<bool>>) -> (o: ApprovalOutcome)
    ensures
        o == answer_outcome(answer),
{
    match answer {
        None => ApprovalOutcome::TimedOut,
        Some(None) => ApprovalOutcome::Cancelled,
        Some(Some(true)) => ApprovalOutcome::Approved,
        Some(Some(false)) => ApprovalOutcome::Denied,
    }
}

/// Seconds to wait for the user's answer.
pub const APPROVAL_WAIT_SECS: u64 = 30;

/// Tool to request human approval for a pending action.
pub struct ApprovalTool;

impl ApprovalTool {
    pub fn name(&self) -> (r: &'static str)
        ensures
            r@ == "request_approval"@,
    {
        "request_approval"
    }

    pub fn description(&self) -> (r: &'static str)
        ensures
            r@ == "Request user approval for a pending action (e.g., fund transfer)"@,
    {
        "Request user approval for a pending action (e.g., fund transfer)"
    }

    /// Apply the defaults: conversation "default", requester "" (unauthenticated),
    /// action "unknown", recipient "", and the action type as description.
    pub fn prepare(
        &self,
        state: &ToolState,
        action_type: Option<&str>,
        to_user: Option<&str>,
        description: Option<&str>,
    ) -> (info: ApprovalRequestInfo)
        ensures
            info.conversation_id@ == text_or(state.conversation_id, "default"@),
            info.from_user@ == state.auth_uid(),
            info.action_type@ == (match action_type { Some(a) => a@, None => "unknown"@ }),
            info.to_user@ == (match to_user { Some(t) => t@, None => ""@ }),
            info.description@ == (match description { Some(d) => d@, None => info.action_type@ }),
    {
        let action: &str = match action_type {
            Some(a) => a,
            None => "unknown",
        };
        let to: &str = match to_user {
            Some(t) => t,
            None => "",
        };
        let desc: &str = match description {
            Some(d) => d,
            None => action,
        };
        ApprovalRequestInfo {
            conversation_id: state.conversation_or("default").to_owned(),
            from_user: state.auth_uid_str().to_owned(),
            action_type: action.to_owned(),
            to_user: to.to_owned(),
            description: desc.to_owned(),
        }
    }

    /// Register the pending approval under the request's conversation.
    pub fn open_request(
        &self,
        approvals: &mut ApprovalService,
        info: &ApprovalRequestInfo,
        details: serde_json::Value,
        responder: tokio::sync::oneshot::Sender<bool>,
    )
        ensures
            final(approvals)@.pending.contains_key(info.conversation_id@),
            final(approvals)@.pending[info.conversation_id@].user_id@ == info.from_user@,
            final(approvals)@.pending[info.conversation_id@].action_type@ == info.action_type@,
            final(approvals)@.pending[info.conversation_id@].details == details,
            final(approvals)@.pending[info.conversation_id@].responder == responder,
            final(approvals)@.pending.remove(info.conversation_id@) == old(approvals)@.pending.remove(info.conversation_id@),
            final(approvals)@.approved == old(approvals)@.approved,
    {
        approvals.create_pending_approval(
            info.conversation_id.as_str(),
            info.from_user.as_str(),
            info.action_type.as_str(),
            details,
            responder,
        );
    }

    /// Record the outcome: an approval leaves a one-shot token for a transfer of
    /// `amount` cents to `to_user`; a timeout withdraws the pending request.
    pub fn conclude(
        &self,
        approvals: &mut ApprovalService,
        conversation_id: &str,
        to_user: &str,
        amount: u64,
        outcome: ApprovalOutcome,
    ) -> (r: ToolResult)
        ensures
            !r.is_error,
            r.content@ == outcome_message(outcome),
            outcome is Approved ==> final(approvals)@.approved.contains_key(conversation_id@)
                && final(approvals)@.approved[conversation_id@].to_user@ == to_user@
                && final(approvals)@.approved[conversation_id@].amount == amount
                && final(approvals)@.approved.remove(conversation_id@) == old(approvals)@.approved.remove(conversation_id@)
                && final(approvals)@.pending == old(approvals)@.pending,
            outcome is TimedOut ==> final(approvals)@.pending == old(approvals)@.pending.remove(conversation_id@)
                && final(approvals)@.approved == old(approvals)@.approved,
            (outcome is Denied || outcome is Cancelled) ==> final(approvals)@ == old(approvals)@,
    {
        match outcome {
            ApprovalOutcome::Approved => {
                approvals.mark_approved(conversation_id, to_user, amount);
                ToolResult::ok("Approval granted. You may proceed with the action.".to_owned())
            },
            ApprovalOutcome::Denied => ToolResult::ok("Approval denied by the user. Do not proceed.".to_owned()),
            ApprovalOutcome::Cancelled => ToolResult::ok("Approval request was cancelled.".to_owned()),
            ApprovalOutcome::TimedOut => {
                approvals.cancel_approval(conversation_id);
                ToolResult::ok("Approval request timed out after 30 seconds.".to_owned())
            },
        }
    }
}

/// A request that times out leaves nothing behind: after the request was
/// registered (`open_request`, from `before` to `opened`) and then concluded as
/// timed out (`conclude`, from `opened` to `after`), the conversation has no
/// pending request, no token was stored, and the other conversations' pending
/// requests are as they were before.
pub proof fn lemma_timed_out_request_leaves_nothing(before: ApprovalView, opened: ApprovalView, after: ApprovalView, conv: Seq<char>)
    requires
        opened.pending.contains_key(conv),
        opened.pending.remove(conv) == before.pending.remove(conv),
        opened.approved == before.approved,
        after.pending == opened.pending.remove(conv),
        after.approved == opened.approved,
    ensures
        !after.pending.contains_key(conv),
        after.pending == before.pending.remove(conv),
        after.approved == before.approved,
{
}

/// The user's answer decides the waiting tool's outcome: when `respond` offered
/// `approved` for the conversation (from `before` to `after`) and the waiting
/// tool received the value offered, a yes is concluded as granted and a no as
/// denied, and the reply to the model says so.
pub proof fn lemma_answer_reaches_tool(before: ApprovalView, after: ApprovalView, conv: Seq<char>, approved: bool, received: bool)
    requires
        after.offered == before.offered.insert(conv, approved),
        received == after.offered[conv],
    ensures
        approved ==> answer_outcome(Some(Some(received))) is Approved,
        !approved ==> answer_outcome(Some(Some(received))) is Denied,
        approved ==> outcome_message(answer_outcome(Some(Some(received))))
            == "Approval granted. You may proceed with the action."@,
        !approved ==> outcome_message(answer_outcome(Some(Some(received))))
            == "Approval denied by the user. Do not proceed."@,
{
}

} // verus!
