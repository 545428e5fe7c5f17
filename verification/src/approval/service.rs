//! Human-in-the-loop approvals: pending requests waiting for the user's answer,
//! and one-shot approval tokens for transfers the user accepted.

use vstd::prelude::*;

use crate::keyed::StringMap;

verus! {

#[verifier::external_type_specification]
#[verifier::external_body]
pub struct ExInstant(std::time::Instant);

#[verifier::external_type_specification]
#[verifier::external_body]
#[verifier::reject_recursive_types(T)]
pub struct ExOneshotSender<T>(tokio::sync::oneshot::Sender<T>);

#[verifier::external_type_specification]
#[verifier::external_body]
pub struct ExJsonValue(serde_json::Value);

/// Calls `std::time::Instant::now`. The value depends on the clock: nothing is
/// claimed of it.
#[verifier::external_body]
fn instant_now() -> std::time::Instant {
    std::time::Instant::now()
}

/// Calls `Instant::elapsed` and reports whole seconds. The value depends on the
/// clock: nothing is claimed of it.
#[verifier::external_body]
fn elapsed_secs(at: &std::time::Instant) -> u64 {
    at.elapsed().as_secs()
}

/// Calls `tokio::sync::oneshot::Sender::send` with `approved` and reports whether
/// the value was handed over; that depends on whether the receiver is still
/// alive, so nothing is claimed of the flag. The ghost half of the result is the
/// value that was offered, which is the argument itself.
#[verifier::external_body]
fn send_decision(responder: tokio::sync::oneshot::Sender<bool>, approved: bool) -> (r: (bool, Ghost<bool>))
    ensures
        r.1@ == approved,
{
    (responder.send(approved).is_ok(), Ghost(approved))
}

/// Seconds after which a pending approval can no longer be answered.
pub const APPROVAL_TTL_SECS: u64 = 60;

/// A pending approval entry with a oneshot channel for response.
pub struct PendingApproval {
    /// The user who needs to approve.
    pub user_id: String,
    /// The type of action requiring approval.
    pub action_type: String,
    /// Details of the action.
    pub details: serde_json::Value,
    /// When the approval was created.
    pub created_at: std::time::Instant,
    /// Sender to respond with approval decision.
    pub responder: tokio::sync::oneshot::Sender<bool>,
}

/// An approved transfer, kept until the transfer tool consumes it; `amount` is in cents.
#[derive(Debug)]
pub struct ApprovedTransfer {
    pub to_user: String,
    pub amount: u64,
    pub consumed: bool,
}

/// The abstract state of the service: pending approvals, approval tokens, and
/// the last decision offered to the waiting side of each conversation, all keyed
/// by conversation id.
pub struct ApprovalView {
    pub pending: Map<Seq<char>, PendingApproval>,
    pub approved: Map<Seq<char>, ApprovedTransfer>,
    pub offered: Map<Seq<char>, bool>,
}

/// The answer to a response for a request that cannot be found.
pub open spec fn no_pending_message() -> Seq<char> {
    "No pending approval found"@
}

/// The answer to a response that came after the time limit.
pub open spec fn expired_message() -> Seq<char> {
    "Approval request expired"@
}

/// The answer when the waiting side is gone.
pub open spec fn send_failed_message() -> Seq<char> {
    "Failed to send approval response"@
}

/// How a response to a pending request `elapsed_secs` whole seconds old goes:
/// refused as expired past sixty seconds, else the decision to hand to the
/// waiting side, which is the user's answer.
pub fn response_decision(elapsed_secs: u64, approved: bool) -> (r: Result<bool, String>)
    ensures
        elapsed_secs > APPROVAL_TTL_SECS <==> r is Err,
        r matches Err(e) ==> e@ == expired_message(),
        r matches Ok(v) ==> v == approved,
{
    if elapsed_secs > APPROVAL_TTL_SECS {
        Err("Approval request expired".to_owned())
    } else {
        Ok(approved)
    }
}

/// The answer once the decision was offered: `Ok` when the waiting side took it,
/// else the send-failure error.
pub fn delivery_result(delivered: bool) -> (r: Result<(), String>)
    ensures
        delivered <==> r is Ok,
        r matches Err(e) ==> e@ == send_failed_message(),
{
    if delivered {
        Ok(())
    } else {
        Err("Failed to send approval response".to_owned())
    }
}

/// Service managing human-in-the-loop approvals.
pub struct ApprovalService {
    pending: StringMap<PendingApproval>,
    approved_transfers: StringMap<ApprovedTransfer>,
    offered: Ghost<Map<Seq<char>, bool>>,
}

impl View for ApprovalService {
    type V = ApprovalView;

    closed spec fn view(&self) -> ApprovalView {
        ApprovalView {
            pending: self.pending@,
            approved: self.approved_transfers@,
            offered: self.offered@,
        }
    }
}

impl ApprovalService {
    /// Create a new ApprovalService with nothing pending and nothing approved.
    pub fn new() -> (s: Self)
        ensures
            s@.pending == Map::<Seq<char>, PendingApproval>::empty(),
            s@.approved == Map::<Seq<char>, ApprovedTransfer>::empty(),
            s@.offered == Map::<Seq<char>, bool>::empty(),
    {
        ApprovalService {
            pending: StringMap::new(),
            approved_transfers: StringMap::new(),
            offered: Ghost(Map::empty()),
        }
    }

    /// Create a pending approval entry for a conversation, replacing any earlier one.
    pub fn create_pending_approval(
        &mut self,
        conversation_id: &str,
        user_id: &str,
        action_type: &str,
        details: serde_json::Value,
        responder: tokio::sync::oneshot::Sender<bool>,
    )
        ensures
            final(self)@.pending.contains_key(conversation_id@),
            final(self)@.pending[conversation_id@].user_id@ == user_id@,
            final(self)@.pending[conversation_id@].action_type@ == action_type@,
            final(self)@.pending[conversation_id@].details == details,
            final(self)@.pending[conversation_id@].responder == responder,
            final(self)@.pending.remove(conversation_id@) == old(self)@.pending.remove(conversation_id@),
            final(self)@.approved == old(self)@.approved,
            final(self)@.offered == old(self)@.offered,
    {
        let entry = PendingApproval {
            user_id: user_id.to_owned(),
            action_type: action_type.to_owned(),
            details,
            created_at: instant_now(),
            responder,
        };
        self.pending.insert(conversation_id, entry);
        assert(self@.pending.remove(conversation_id@) =~= old(self)@.pending.remove(conversation_id@));
    }

    /// Respond to a pending approval (accept or reject). The entry is removed
    /// whatever happens. How the answer goes is `response_decision` on the
    /// request's age in whole seconds: past sixty seconds it is refused as
    /// expired and nothing is offered; otherwise `approved` is offered to the
    /// waiting side (and recorded in `offered`), and `delivery_result` on whether
    /// that side took it is the answer.
    pub fn respond(&mut self, conversation_id: &str, approved: bool) -> (r: Result<(), String>)
        ensures
            final(self)@.pending == old(self)@.pending.remove(conversation_id@),
            final(self)@.approved == old(self)@.approved,
            !old(self)@.pending.contains_key(conversation_id@) ==> (r matches Err(e) && e@
                == no_pending_message()),
            old(self)@.pending.contains_key(conversation_id@) ==> (r is Ok || (r matches Err(e) && (
            e@ == expired_message() || e@ == send_failed_message()))),
            (!old(self)@.pending.contains_key(conversation_id@) || (r matches Err(e) && e@
                == expired_message())) ==> final(self)@.offered == old(self)@.offered,
            (old(self)@.pending.contains_key(conversation_id@) && !(r matches Err(e) && e@
                == expired_message())) ==> final(self)@.offered == old(self)@.offered.insert(
                conversation_id@,
                approved,
            ),
    {
        match self.pending.remove(conversation_id) {
            None => Err("No pending approval found".to_owned()),
            Some(entry) => {
                let PendingApproval { created_at, responder, .. } = entry;
                let elapsed = elapsed_secs(&created_at);
                match response_decision(elapsed, approved) {
                    Err(e) => Err(e),
                    Ok(decision) => {
                        let (delivered, Ghost(sent)) = send_decision(responder, decision);
                        proof {
                            self.offered@ = self.offered@.insert(conversation_id@, sent);
                            reveal_strlit("Approval request expired");
                            reveal_strlit("Failed to send approval response");
                            assert(send_failed_message().len() != expired_message().len());
                        }
                        delivery_result(delivered)
                    },
                }
            },
        }
    }

    /// Cancel a pending approval.
    pub fn cancel_approval(&mut self, conversation_id: &str)
        ensures
            final(self)@.pending == old(self)@.pending.remove(conversation_id@),
            final(self)@.approved == old(self)@.approved,
            final(self)@.offered == old(self)@.offered,
    {
        let _ = self.pending.remove(conversation_id);
    }

    /// Check if there's a pending approval for a conversation.
    pub fn has_pending(&self, conversation_id: &str) -> (r: bool)
        ensures
            r == self@.pending.contains_key(conversation_id@),
    {
        self.pending.contains_key(conversation_id)
    }

    /// Mark a transfer of `amount` cents to `to_user` as approved for a
    /// conversation; it can be consumed once.
    pub fn mark_approved(&mut self, conversation_id: &str, to_user: &str, amount: u64)
        ensures
            final(self)@.approved.contains_key(conversation_id@),
            final(self)@.approved[conversation_id@].to_user@ == to_user@,
            final(self)@.approved[conversation_id@].amount == amount,
            !final(self)@.approved[conversation_id@].consumed,
            final(self)@.approved.remove(conversation_id@) == old(self)@.approved.remove(conversation_id@),
            final(self)@.pending == old(self)@.pending,
            final(self)@.offered == old(self)@.offered,
    {
        let token = ApprovedTransfer { to_user: to_user.to_owned(), amount, consumed: false };
        self.approved_transfers.insert(conversation_id, token);
        assert(self@.approved.remove(conversation_id@) =~= old(self)@.approved.remove(conversation_id@));
    }

    /// Get and consume an approved transfer token.
    pub fn get_approved_transfer(&mut self, conversation_id: &str) -> (r: Option<ApprovedTransfer>)
        ensures
            final(self)@.approved == old(self)@.approved.remove(conversation_id@),
            final(self)@.pending == old(self)@.pending,
            final(self)@.offered == old(self)@.offered,
            r matches Some(t) ==> old(self)@.approved.contains_key(conversation_id@) && t
                == old(self)@.approved[conversation_id@],
            r is None <==> !old(self)@.approved.contains_key(conversation_id@),
    {
        self.approved_transfers.remove(conversation_id)
    }
}

/// An approval token is good for one use: once taken for a conversation, it is
/// gone until a new approval is recorded, and taking it touches no other
/// conversation.
pub proof fn lemma_token_single_use(v: ApprovalView, c: Seq<char>, d: Seq<char>)
    ensures
        !v.approved.remove(c).contains_key(c),
        d != c ==> v.approved.remove(c).contains_key(d) == v.approved.contains_key(d),
        d != c ==> (v.approved.contains_key(d) ==> v.approved.remove(c)[d] == v.approved[d]),
{
}

/// The approval token of conversation `conv` authorizes a transfer of `amount`
/// cents to `to_user`.
pub open spec fn token_authorizes(approved: Map<Seq<char>, ApprovedTransfer>, conv: Seq<char>, to_user: Seq<char>, amount: int) -> bool {
    &&& approved.contains_key(conv)
    &&& approved[conv].to_user@ == to_user
    &&& approved[conv].amount == amount
}

/// An approval recorded for a conversation authorizes exactly the transfer it was
/// recorded for: that recipient and that amount, no other.
pub proof fn lemma_approval_authorizes_exactly(v: ApprovalView, conv: Seq<char>, to_user: Seq<char>, amount: u64, other_to: Seq<char>, other_amount: int)
    requires
        v.approved.contains_key(conv),
        v.approved[conv].to_user@ == to_user,
        v.approved[conv].amount == amount,
    ensures
        token_authorizes(v.approved, conv, to_user, amount as int),
        token_authorizes(v.approved, conv, other_to, other_amount) ==> other_to == to_user && other_amount == amount,
{
}

/// Once a transfer request has taken a conversation's token, nothing is authorized
/// for that conversation until a new approval is recorded, and the tokens of the
/// other conversations are as they were.
pub proof fn lemma_approval_authorizes_once(v: ApprovalView, conv: Seq<char>, to_user: Seq<char>, amount: int, other: Seq<char>)
    ensures
        !token_authorizes(v.approved.remove(conv), conv, to_user, amount),
        other != conv ==> token_authorizes(v.approved.remove(conv), other, to_user, amount) == token_authorizes(v.approved, other, to_user, amount),
{
}

/// A pending approval is answered at most once: after a response (of any
/// outcome) or a cancellation it is no longer pending.
pub proof fn lemma_response_closes_request(v: ApprovalView, c: Seq<char>)
    ensures
        !v.pending.remove(c).contains_key(c),
{
}

} // verus!
