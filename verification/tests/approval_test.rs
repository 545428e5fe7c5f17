use lauren_chatbot::approval::service::{delivery_result, response_decision, ApprovalService};
use lauren_chatbot::tools::approval_tool::{outcome_of, ApprovalOutcome, ApprovalTool};
use lauren_chatbot::tools::result::ToolState;
use tokio::sync::oneshot;

fn empty_details() -> serde_json::Value {
    serde_json::Value::Object(serde_json::Map::new())
}

#[test]
fn test_create_and_respond_approved() {
    let mut service = ApprovalService::new();
    let (tx, mut rx) = oneshot::channel();
    service.create_pending_approval("conv1", "alice", "transfer", empty_details(), tx);
    assert!(service.has_pending("conv1"));
    service.respond("conv1", true).unwrap();
    assert!(rx.try_recv().unwrap());
}

#[test]
fn test_create_and_respond_denied() {
    let mut service = ApprovalService::new();
    let (tx, mut rx) = oneshot::channel();
    service.create_pending_approval("conv1", "alice", "transfer", empty_details(), tx);
    service.respond("conv1", false).unwrap();
    assert!(!rx.try_recv().unwrap());
}

#[test]
fn test_respond_nonexistent() {
    let mut service = ApprovalService::new();
    let result = service.respond("nonexistent", true);
    assert!(result.is_err());
    assert!(result.unwrap_err().contains("No pending"));
}

#[test]
fn test_cancel_approval() {
    let mut service = ApprovalService::new();
    let (tx, _rx) = oneshot::channel();
    service.create_pending_approval("conv1", "alice", "transfer", empty_details(), tx);
    service.cancel_approval("conv1");
    assert!(!service.has_pending("conv1"));
}

#[test]
fn test_mark_approved_transfer() {
    let mut service = ApprovalService::new();
    service.mark_approved("conv1", "bob", 10000);
    let transfer = service.get_approved_transfer("conv1").unwrap();
    assert_eq!(transfer.to_user, "bob");
    assert_eq!(transfer.amount as f64 / 100.0, 100.0);
    assert!(!transfer.consumed);
}

#[test]
fn test_get_approved_transfer_consumed() {
    let mut service = ApprovalService::new();
    service.mark_approved("conv1", "bob", 10000);
    let _ = service.get_approved_transfer("conv1");
    assert!(service.get_approved_transfer("conv1").is_none());
}

#[test]
fn responding_twice_finds_nothing_the_second_time() {
    let mut service = ApprovalService::new();
    let (tx, _rx) = oneshot::channel();
    service.create_pending_approval("conv1", "alice", "transfer", empty_details(), tx);
    assert!(service.respond("conv1", true).is_ok());
    assert_eq!(service.respond("conv1", true), Err("No pending approval found".to_string()));
}

#[test]
fn respond_reports_a_vanished_waiter() {
    let mut service = ApprovalService::new();
    let (tx, rx) = oneshot::channel::<bool>();
    drop(rx);
    service.create_pending_approval("conv1", "alice", "transfer", empty_details(), tx);
    assert_eq!(service.respond("conv1", true), Err("Failed to send approval response".to_string()));
    assert!(!service.has_pending("conv1"));
}

#[test]
fn approval_tokens_are_per_conversation() {
    let mut service = ApprovalService::new();
    service.mark_approved("conv1", "bob", 100);
    service.mark_approved("conv2", "charlie", 200);
    assert!(service.get_approved_transfer("conv1").is_some());
    let other = service.get_approved_transfer("conv2").unwrap();
    assert_eq!(other.to_user, "charlie");
    assert_eq!(other.amount, 200);
}

#[test]
fn test_approval_tool_name_and_schema() {
    let tool = ApprovalTool;
    assert_eq!(tool.name(), "request_approval");
    assert!(tool.description().contains("approval"));
}

#[test]
fn test_approval_tool_creates_pending() {
    let tool = ApprovalTool;
    let mut approvals = ApprovalService::new();
    let state = ToolState { identity: None, user_id: Some("alice".into()), conversation_id: Some("conv1".into()) };
    let info = tool.prepare(&state, Some("transfer"), Some("bob"), None);
    assert_eq!(info.conversation_id, "conv1");
    assert_eq!(info.from_user, "alice");
    assert_eq!(info.action_type, "transfer");
    assert_eq!(info.to_user, "bob");
    assert_eq!(info.description, "transfer");
    let (tx, _rx) = oneshot::channel();
    tool.open_request(&mut approvals, &info, empty_details(), tx);
    assert!(approvals.has_pending("conv1"));
    let result = tool.conclude(&mut approvals, "conv1", "bob", 10000, ApprovalOutcome::Approved);
    assert!(!result.is_error);
    assert_eq!(result.content, "Approval granted. You may proceed with the action.");
    let token = approvals.get_approved_transfer("conv1").unwrap();
    assert_eq!(token.to_user, "bob");
    assert_eq!(token.amount, 10000);
}

#[test]
fn approval_tool_defaults_and_outcomes() {
    let tool = ApprovalTool;
    let mut approvals = ApprovalService::new();
    let info = tool.prepare(&ToolState { identity: None, user_id: None, conversation_id: None }, None, None, None);
    assert_eq!(info.conversation_id, "default");
    assert_eq!(info.from_user, "");
    assert_eq!(info.action_type, "unknown");
    assert_eq!(info.to_user, "");
    assert_eq!(info.description, "unknown");
    let (tx, _rx) = oneshot::channel();
    tool.open_request(&mut approvals, &info, empty_details(), tx);
    let timed_out = tool.conclude(&mut approvals, "default", "", 0, ApprovalOutcome::TimedOut);
    assert_eq!(timed_out.content, "Approval request timed out after 30 seconds.");
    assert!(!approvals.has_pending("default"));
    let denied = tool.conclude(&mut approvals, "default", "", 0, ApprovalOutcome::Denied);
    assert_eq!(denied.content, "Approval denied by the user. Do not proceed.");
    let cancelled = tool.conclude(&mut approvals, "default", "", 0, ApprovalOutcome::Cancelled);
    assert_eq!(cancelled.content, "Approval request was cancelled.");
    assert!(approvals.get_approved_transfer("default").is_none());
}

#[test]
fn response_decision_expires_after_sixty_seconds() {
    assert_eq!(response_decision(0, true), Ok(true));
    assert_eq!(response_decision(60, false), Ok(false));
    assert_eq!(response_decision(61, true), Err("Approval request expired".to_string()));
}

#[test]
fn delivery_result_reports_a_lost_answer() {
    assert_eq!(delivery_result(true), Ok(()));
    assert_eq!(delivery_result(false), Err("Failed to send approval response".to_string()));
}

#[test]
fn a_yes_sent_by_respond_is_granted_by_the_tool() {
    let tool = ApprovalTool;
    let mut approvals = ApprovalService::new();
    let (tx, mut rx) = oneshot::channel();
    approvals.create_pending_approval("conv7", "alice", "transfer", empty_details(), tx);
    approvals.respond("conv7", true).unwrap();
    let outcome = outcome_of(Some(rx.try_recv().ok()));
    assert!(matches!(outcome, ApprovalOutcome::Approved));
    let result = tool.conclude(&mut approvals, "conv7", "bob", 2500, outcome);
    assert_eq!(result.content, "Approval granted. You may proceed with the action.");
    assert_eq!(approvals.get_approved_transfer("conv7").unwrap().amount, 2500);
}

#[test]
fn waiting_outcomes_follow_the_answer() {
    assert!(matches!(outcome_of(None), ApprovalOutcome::TimedOut));
    assert!(matches!(outcome_of(Some(None)), ApprovalOutcome::Cancelled));
    assert!(matches!(outcome_of(Some(Some(false))), ApprovalOutcome::Denied));
    assert!(matches!(outcome_of(Some(Some(true))), ApprovalOutcome::Approved));
}
