use lauren_chatbot::agents::active_agent_store::ActiveAgentStore;
use lauren_chatbot::approval::service::ApprovalService;
use lauren_chatbot::chat::orchestration::{get_agent, AgentKind, OrchestratorRun, RunStep};
use lauren_chatbot::chat::routes::{agent_name_or_unknown, conversation_id_or_new, require_user_id};
use lauren_chatbot::chat::schemas::{ChatMessage, ChatRequest};
use lauren_chatbot::chat::session::{ChatSession, TurnEnd};
use lauren_chatbot::chat::sse::{stream_event_to_sse, StreamEvent};
use lauren_chatbot::error::AppError;
use lauren_chatbot::metrics::{newest_first, TRACE_LIMIT};

fn msg(role: &str, content: &str) -> ChatMessage {
    ChatMessage { role: role.into(), content: content.into() }
}

#[test]
fn test_get_agent() {
    assert!(get_agent("unauthenticated_crm").is_some());
    assert!(get_agent("authenticated_crm").is_some());
    assert!(get_agent("bank_transfer").is_some());
    assert!(get_agent("disputes").is_some());
    assert!(get_agent("unknown").is_none());
    assert!(matches!(get_agent("disputes"), Some(AgentKind::Disputes)));
}

#[test]
fn test_text_delta_maps_to_token() {
    let event = StreamEvent::TextDelta { delta: "Hello".into() };
    let frame = stream_event_to_sse(&event).unwrap();
    assert_eq!(frame.event, "token");
    assert_eq!(frame.data, "Hello");
}

#[test]
fn test_tool_execution_maps_to_tool_use() {
    let event = StreamEvent::ToolExecution { tool_name: "get_balance".into(), tool_use_id: "tu-1".into() };
    let frame = stream_event_to_sse(&event).unwrap();
    assert_eq!(frame.event, "tool_use");
    assert_eq!(frame.data, "get_balance");
}

#[test]
fn test_done_suppressed() {
    let event = StreamEvent::Done { content: "Done!".into() };
    assert!(stream_event_to_sse(&event).is_none());
}

#[test]
fn test_error_forwarded() {
    let event = StreamEvent::Error { message: "Oops".into() };
    let frame = stream_event_to_sse(&event).unwrap();
    assert_eq!(frame.event, "error");
    assert_eq!(frame.data, "Oops");
}

#[test]
fn test_tool_result_suppressed() {
    let event = StreamEvent::ToolResult { tool_use_id: "tu-1".into(), content: "ok".into(), is_error: false };
    assert!(stream_event_to_sse(&event).is_none());
}

#[test]
fn test_thinking_delta_suppressed() {
    let event = StreamEvent::ThinkingDelta { delta: "thinking...".into() };
    assert!(stream_event_to_sse(&event).is_none());
}

#[test]
fn test_last_user_message_picks_last() {
    let req = ChatRequest {
        messages: vec![msg("user", "first"), msg("assistant", "reply"), msg("user", "second")],
        model: None,
        conversation_id: None,
        user_id: None,
    };
    assert_eq!(req.last_user_message(), "second");
}

#[test]
fn last_user_message_is_empty_without_user_messages() {
    let req = ChatRequest { messages: vec![msg("assistant", "hi")], model: None, conversation_id: None, user_id: None };
    assert_eq!(req.last_user_message(), "");
}

#[test]
fn test_chat_request_validation() {
    let req = ChatRequest {
        messages: vec![msg("user", "Hello")],
        model: None,
        conversation_id: Some("conv-1".into()),
        user_id: Some("user-123".into()),
    };
    assert_eq!(req.last_user_message(), "Hello");
    assert_eq!(require_user_id(req.user_id.clone()).ok(), Some("user-123".to_string()));
    assert_eq!(conversation_id_or_new(req.conversation_id.clone()), "conv-1");
}

#[test]
fn missing_user_id_is_refused() {
    match require_user_id(None) {
        Err(e) => {
            assert_eq!(e.status_code(), 401);
            assert_eq!(e.message(), "user_id required");
            assert!(matches!(e, AppError::Unauthorized(_)));
        }
        Ok(_) => panic!("expected a refusal"),
    }
}

#[test]
fn new_conversations_get_distinct_ids() {
    let a = conversation_id_or_new(None);
    let b = conversation_id_or_new(None);
    assert_eq!(a.len(), 36);
    assert_ne!(a, b);
    assert_eq!(agent_name_or_unknown(None), "unknown");
    assert_eq!(agent_name_or_unknown(Some("Disputes".into())), "Disputes");
}

#[test]
fn session_hands_over_with_the_summary_as_next_input() {
    let mut store = ActiveAgentStore::new();
    let mut session = ChatSession::start(&store, "c1", true);
    assert_eq!(session.current_agent(), "Banking CRM Agent (Authenticated)");
    assert_eq!(session.next_input(true, "move money"), Some("move money".to_string()));
    store.set_active_agent("c1", "Banking Transfer Agent");
    store.set_pending_summary("c1", "wants a transfer");
    match session.finish_turn(&mut store, "c1", true) {
        TurnEnd::HandedOff { from_agent, to_agent, summary } => {
            assert_eq!(from_agent, "Banking CRM Agent (Authenticated)");
            assert_eq!(to_agent, "Banking Transfer Agent");
            assert_eq!(summary, "wants a transfer");
        }
        _ => panic!("expected a handoff"),
    }
    assert_eq!(session.current_agent(), "Banking Transfer Agent");
    assert_eq!(session.next_input(true, "move money"), Some("wants a transfer".to_string()));
    assert!(matches!(session.finish_turn(&mut store, "c1", true), TurnEnd::Finished));
    assert_eq!(session.next_input(true, "again"), None);
}

#[test]
fn public_session_starts_with_public_agent_and_stops_on_unknown_agent() {
    let store = ActiveAgentStore::new();
    let mut session = ChatSession::start(&store, "c2", false);
    assert_eq!(session.current_agent(), "Banking CRM Agent (Public)");
    assert_eq!(session.next_input(false, "hi"), None);
}

#[test]
fn test_sse_event_stream_event_maps_correctly() {
    assert!(stream_event_to_sse(&StreamEvent::TextDelta { delta: "hi".into() }).is_some());
    assert!(stream_event_to_sse(&StreamEvent::ToolExecution { tool_name: "t".into(), tool_use_id: "u".into() }).is_some());
    assert!(stream_event_to_sse(&StreamEvent::Error { message: "e".into() }).is_some());
    assert!(stream_event_to_sse(&StreamEvent::ToolResult { tool_use_id: "u".into(), content: "c".into(), is_error: false }).is_none());
    let frame = stream_event_to_sse(&StreamEvent::GuardrailOverride { content: "replaced".into() }).unwrap();
    assert_eq!(frame.event, "guardrail_override");
    assert_eq!(frame.data, "replaced");
    assert!(stream_event_to_sse(&StreamEvent::PendingApproval).is_none());
    assert!(stream_event_to_sse(&StreamEvent::ToolCallDelta).is_none());
}

#[test]
fn orchestrator_run_feeds_summary_and_bounds_handoffs() {
    let mut store = ActiveAgentStore::new();
    let mut run = OrchestratorRun::start(&store, "c3", false);
    let (kind, input) = run.begin_turn(&mut store, "c3", "hi").ok().unwrap();
    assert!(matches!(kind, AgentKind::UnauthenticatedCrm));
    assert_eq!(input, "hi");

    store.set_active_agent("c3", "authenticated_crm");
    store.set_pending_summary("c3", "verified");
    assert!(matches!(run.end_turn(&store, "c3"), Ok(RunStep::HandOff)));
    let (kind, input) = run.begin_turn(&mut store, "c3", "hi").ok().unwrap();
    assert!(matches!(kind, AgentKind::AuthenticatedCrm));
    assert_eq!(input, "[Context from previous agent]: verified\n\n[User's original message]: hi");

    store.set_active_agent("c3", "bank_transfer");
    assert!(matches!(run.end_turn(&store, "c3"), Ok(RunStep::HandOff)));
    store.set_active_agent("c3", "disputes");
    assert!(matches!(run.end_turn(&store, "c3"), Ok(RunStep::HandOff)));
    store.set_active_agent("c3", "bank_transfer");
    match run.end_turn(&store, "c3") {
        Err(e) => assert_eq!(e.to_string(), "Internal Error: Maximum handoffs (4) exceeded"),
        Ok(_) => panic!("expected the handoff budget to run out"),
    }
}

#[test]
fn orchestrator_rejects_unknown_agent_and_responds_without_handoff() {
    let mut store = ActiveAgentStore::new();
    store.set_active_agent("c4", "Mystery");
    let run = OrchestratorRun::start(&store, "c4", true);
    match run.begin_turn(&mut store, "c4", "hello") {
        Err(e) => assert_eq!(e.message(), "Unknown agent: Mystery"),
        Ok(_) => panic!("expected an unknown agent"),
    }
    let mut store = ActiveAgentStore::new();
    let mut run = OrchestratorRun::start(&store, "c5", true);
    assert!(run.begin_turn(&mut store, "c5", "hello").is_ok());
    assert!(matches!(run.end_turn(&store, "c5"), Ok(RunStep::Respond)));
}

#[test]
fn closing_a_session_withdraws_the_approval_and_sends_done() {
    let store = ActiveAgentStore::new();
    let mut approvals = ApprovalService::new();
    let (tx, _rx) = tokio::sync::oneshot::channel();
    approvals.create_pending_approval("c9", "alice", "transfer", serde_json::Value::Null, tx);
    let mut session = ChatSession::start(&store, "c9", true);
    let frame = session.close(&mut approvals, "c9");
    assert_eq!(frame.event, "done");
    assert_eq!(frame.data, "");
    assert!(!approvals.has_pending("c9"));
    assert_eq!(session.next_input(true, "more"), None);
}

#[test]
fn traces_list_newest_first_up_to_the_limit() {

    assert_eq!(newest_first(3, TRACE_LIMIT), vec![2, 1, 0]);
    assert_eq!(newest_first(60, TRACE_LIMIT).len(), 50);
    assert_eq!(newest_first(60, TRACE_LIMIT)[0], 59);
    assert_eq!(newest_first(60, TRACE_LIMIT)[49], 10);
    assert!(newest_first(0, TRACE_LIMIT).is_empty());
}

#[test]
fn public_session_runs_at_most_four_turns() {
    let store = ActiveAgentStore::new();
    let mut session = ChatSession::start(&store, "c10", false);
    assert_eq!(session.current_agent(), "Banking CRM Agent (Public)");
    let mut begun = 0;
    for _ in 0..10 {
        if session.next_input(true, "hello").is_some() {
            begun += 1;
        }
    }
    assert_eq!(begun, 4);
}

#[test]
fn signed_in_session_runs_at_most_eight_turns() {
    let store = ActiveAgentStore::new();
    let mut session = ChatSession::start(&store, "c11", true);
    let mut begun = 0;
    for _ in 0..20 {
        if session.next_input(true, "hello").is_some() {
            begun += 1;
        }
    }
    assert_eq!(begun, 8);
}
