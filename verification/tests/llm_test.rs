use lauren_chatbot::llm::event_stream::{event_lines, sse_line, SseBuffer, SseLine};
use lauren_chatbot::llm::openrouter::{
    bearer_header, completion_of, completions_url, finish_to_stop, message_to_wire, request_plan, role_name,
    tool_choice_for,
    CompletionChoice, ContentBlock, MessageContent, Role, StopReason, StreamChoice, StreamState, TokenUsage,
    ToolCallFragment, WireMessage, WireToolCall,
};

#[test]
fn finish_reasons_map_to_stop_reasons() {
    assert_eq!(finish_to_stop(Some("tool_calls")), StopReason::ToolUse);
    assert_eq!(finish_to_stop(Some("tool_use")), StopReason::ToolUse);
    assert_eq!(finish_to_stop(Some("length")), StopReason::MaxTokens);
    assert_eq!(finish_to_stop(Some("max_tokens")), StopReason::MaxTokens);
    assert_eq!(finish_to_stop(Some("stop")), StopReason::EndTurn);
    assert_eq!(finish_to_stop(None), StopReason::EndTurn);
}

#[test]
fn role_names_follow_the_api() {
    assert_eq!(role_name(Role::System), "system");
    assert_eq!(role_name(Role::User), "user");
    assert_eq!(role_name(Role::Assistant), "assistant");
    assert_eq!(role_name(Role::Tool), "tool");
}

#[test]
fn plain_text_message_is_sent_as_is() {
    match message_to_wire(Role::User, &MessageContent::Text("hi".into())) {
        WireMessage::Plain { role, content } => {
            assert_eq!(role, Role::User);
            assert_eq!(content, "hi");
        }
        _ => panic!("expected a plain message"),
    }
}

#[test]
fn tool_result_message_is_sent_as_tool_message() {
    let blocks = vec![
        ContentBlock::ToolResult { tool_use_id: "tu-1".into(), content: "Balance: $5000.00".into() },
        ContentBlock::Text { text: "ignored".into() },
    ];
    match message_to_wire(Role::User, &MessageContent::MultiPart(blocks)) {
        WireMessage::ToolResult { tool_call_id, content } => {
            assert_eq!(tool_call_id, "tu-1");
            assert_eq!(content, "Balance: $5000.00");
        }
        _ => panic!("expected a tool message"),
    }
}

#[test]
fn tool_calls_are_collected_with_joined_text() {
    let blocks = vec![
        ContentBlock::Text { text: "Let me ".into() },
        ContentBlock::ToolUse { tool_use_id: "a".into(), name: "get_balance".into(), input_json: "{}".into() },
        ContentBlock::Text { text: "check.".into() },
        ContentBlock::ToolUse { tool_use_id: "b".into(), name: "transfer_funds".into(), input_json: "{\"amount\":1}".into() },
    ];
    match message_to_wire(Role::Assistant, &MessageContent::MultiPart(blocks)) {
        WireMessage::ToolCalls { content, tool_calls } => {
            assert_eq!(content, Some("Let me check.".to_string()));
            assert_eq!(tool_calls.len(), 2);
            assert_eq!(tool_calls[0].id, "a");
            assert_eq!(tool_calls[0].name, "get_balance");
            assert_eq!(tool_calls[1].arguments, "{\"amount\":1}");
        }
        _ => panic!("expected tool calls"),
    }
    let only_call = vec![ContentBlock::ToolUse { tool_use_id: "c".into(), name: "n".into(), input_json: "null".into() }];
    match message_to_wire(Role::Assistant, &MessageContent::MultiPart(only_call)) {
        WireMessage::ToolCalls { content, .. } => assert_eq!(content, None),
        _ => panic!("expected tool calls"),
    }
}

#[test]
fn multipart_text_without_calls_is_plain() {
    let blocks = vec![ContentBlock::Text { text: "a".into() }, ContentBlock::Text { text: "b".into() }];
    match message_to_wire(Role::System, &MessageContent::MultiPart(blocks)) {
        WireMessage::Plain { role, content } => {
            assert_eq!(role, Role::System);
            assert_eq!(content, "ab");
        }
        _ => panic!("expected a plain message"),
    }
}

#[test]
fn request_helpers() {
    assert_eq!(completions_url("https://openrouter.ai/api/v1"), "https://openrouter.ai/api/v1/chat/completions");
    assert_eq!(bearer_header("k-123"), "Bearer k-123");
    assert_eq!(tool_choice_for(0), None);
    assert_eq!(tool_choice_for(3), Some("auto".to_string()));
}

#[test]
fn request_plan_without_tools() {
    let messages = vec![
        (Role::System, MessageContent::Text("be brief".to_string())),
        (Role::User, MessageContent::Text("hi".to_string())),
    ];
    let plan = request_plan("openai/gpt-4o-mini", &messages, vec![], false);
    assert_eq!(plan.model, "openai/gpt-4o-mini");
    assert!(!plan.stream);
    assert!(plan.tools.is_empty());
    assert_eq!(plan.tool_choice, None);
    assert_eq!(plan.messages.len(), 2);
    match &plan.messages[1] {
        WireMessage::Plain { role, content } => {
            assert_eq!(*role, Role::User);
            assert_eq!(content, "hi");
        }
        _ => panic!("expected a plain message"),
    }
}

#[test]
fn request_plan_with_tools_streams() {
    let messages = vec![(Role::User, MessageContent::Text("balance?".to_string()))];
    let tool = serde_json::Value::String("get_balance".to_string());
    let plan = request_plan("m", &messages, vec![tool.clone()], true);
    assert!(plan.stream);
    assert_eq!(plan.tools, vec![tool]);
    assert_eq!(plan.tool_choice, Some("auto".to_string()));
}

#[test]
fn completion_reads_the_first_choice() {
    let choices = vec![
        CompletionChoice {
            content: None,
            finish_reason: Some("tool_calls".into()),
            tool_calls: vec![WireToolCall { id: "x".into(), name: "get_balance".into(), arguments: "{}".into() }],
        },
        CompletionChoice { content: Some("second".into()), finish_reason: None, tool_calls: vec![] },
    ];
    let c = completion_of(choices).ok().unwrap();
    assert_eq!(c.text, "");
    assert_eq!(c.finish_reason, StopReason::ToolUse);
    assert_eq!(c.tool_calls.len(), 1);
    assert_eq!(c.tool_calls[0].id, "x");
    let err = completion_of(vec![]).err().unwrap();
    assert_eq!(err.reason, "No choices");
}

#[test]
fn sse_buffer_cuts_events_at_blank_lines() {
    let mut buf = SseBuffer::new();
    buf.push_bytes(b"data: {\"a\":1}\n");
    assert_eq!(buf.next_event(), None);
    buf.push_bytes(b"\ndata: [DONE]\n\n  rest");
    assert_eq!(buf.next_event(), Some("data: {\"a\":1}".to_string()));
    assert_eq!(buf.next_event(), Some("data: [DONE]".to_string()));
    assert_eq!(buf.next_event(), None);
}

#[test]
fn sse_buffer_replaces_invalid_utf8() {
    let mut buf = SseBuffer::new();
    buf.push_bytes(&[b'd', 0xff, b'\n', b'\n']);
    assert_eq!(buf.next_event(), Some("d\u{fffd}".to_string()));
}

#[test]
fn sse_lines_are_read_like_str_lines() {
    assert_eq!(event_lines("a\r\nb\n\nc"), vec!["a".to_string(), "b".to_string(), String::new(), "c".to_string()]);
    assert_eq!(event_lines(""), Vec::<String>::new());
    assert_eq!(event_lines("x\n"), vec!["x".to_string()]);
}

#[test]
fn sse_line_meanings() {
    assert_eq!(sse_line("data: [DONE]"), SseLine::Done);
    assert_eq!(sse_line("data:   [DONE]  "), SseLine::Done);
    assert_eq!(sse_line("data: {\"x\":1} "), SseLine::Data("{\"x\":1}".to_string()));
    assert_eq!(sse_line(": keep-alive"), SseLine::Skip);
    assert_eq!(sse_line("data:{}"), SseLine::Skip);
    assert_eq!(sse_line("event: token"), SseLine::Skip);
}

#[test]
fn stream_chunks_carry_text_then_tool_deltas() {
    let mut state = StreamState::new();
    let usage = Some(TokenUsage { input_tokens: 3, output_tokens: 4 });
    let first = StreamChoice {
        content: None,
        finish_reason: None,
        tool_calls: vec![ToolCallFragment { index: 0, id: Some("call-1".into()), name: Some("get_balance".into()), arguments: "{\"us".into() }],
    };
    let chunks = state.chunks_for(&first, usage);
    assert_eq!(chunks.len(), 1);
    let d = chunks[0].tool_call_delta.as_ref().unwrap();
    assert_eq!(d.tool_use_id, "call-1");
    assert_eq!(d.name, Some("get_balance".to_string()));
    assert_eq!(d.input_delta, "{\"us");
    assert_eq!(chunks[0].usage, usage);

    let second = StreamChoice {
        content: Some("".into()),
        finish_reason: Some("tool_calls".into()),
        tool_calls: vec![
            ToolCallFragment { index: 0, id: None, name: None, arguments: "er\"}".into() },
            ToolCallFragment { index: 7, id: None, name: None, arguments: "lost".into() },
        ],
    };
    let chunks = state.chunks_for(&second, None);
    assert_eq!(chunks.len(), 1);
    let d = chunks[0].tool_call_delta.as_ref().unwrap();
    assert_eq!(d.tool_use_id, "call-1");
    assert_eq!(d.name, Some("get_balance".to_string()));
    assert_eq!(d.input_delta, "er\"}");
    assert_eq!(chunks[0].stop_reason, Some(StopReason::ToolUse));
}

#[test]
fn stream_text_chunk_is_sent_even_when_empty_without_tools() {
    let mut state = StreamState::new();
    let choice = StreamChoice { content: None, finish_reason: Some("stop".into()), tool_calls: vec![] };
    let chunks = state.chunks_for(&choice, None);
    assert_eq!(chunks.len(), 1);
    assert_eq!(chunks[0].delta, "");
    assert!(chunks[0].tool_call_delta.is_none());
    assert_eq!(chunks[0].stop_reason, Some(StopReason::EndTurn));
}

#[test]
fn stream_registered_empty_name_is_not_repeated() {
    let mut state = StreamState::new();
    let f = ToolCallFragment { index: 1, id: Some("c".into()), name: None, arguments: "".into() };
    let d = state.fragment_delta(&f).unwrap();
    assert_eq!(d.name, None);
    let again = ToolCallFragment { index: 1, id: Some("other".into()), name: None, arguments: "x".into() };
    let d = state.fragment_delta(&again).unwrap();
    assert_eq!(d.tool_use_id, "c");
}
