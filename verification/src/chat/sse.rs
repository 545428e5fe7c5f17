//! Mapping of agent stream events to the server-sent events the client reads.
//!
//! Event names: `token`, `tool_use`, `error`, `guardrail_override`; data is plain
//! text. Completion of a single agent is not forwarded: the chat loop sends one
//! final `done` after all agents.

use vstd::prelude::*;

verus! {

/// The events an agent run streams.
#[derive(Debug)]
pub enum StreamEvent {
    TextDelta { delta: String },
    ThinkingDelta { delta: String },
    ToolCallDelta,
    ToolExecution { tool_name: String, tool_use_id: String },
    ToolResult { tool_use_id: String, content: String, is_error: bool },
    PendingApproval,
    Done { content: String },
    Error { message: String },
    GuardrailOverride { content: String },
}

/// A server-sent event: its name and its data.
#[derive(Debug)]
pub struct SseFrame {
    pub event: String,
    pub data: String,
}

/// The frame an event becomes, as (name, data), or none when it is not forwarded.
pub open spec fn sse_of(event: StreamEvent) -> Option<(Seq<char>, Seq<char>)> {
    match event {
        StreamEvent::TextDelta { delta } => Some(("token"@, delta@)),
        StreamEvent::ToolExecution { tool_name, .. } => Some(("tool_use"@, tool_name@)),
        StreamEvent::Error { message } => Some(("error"@, message@)),
        StreamEvent::GuardrailOverride { content } => Some(("guardrail_override"@, content@)),
        _ => None,
    }
}

/// Convert a stream event to a server-sent event, or `None` when the event is
/// not forwarded to clients.
pub fn stream_event_to_sse(event: &StreamEvent) -> (r: Option<SseFrame>)
    ensures
        match sse_of(*event) {
            Some((name, data)) => r matches Some(f) && f.event@ == name && f.data@ == data,
            None => r is None,
        },
{
    match event {
        StreamEvent::TextDelta { delta } => Some(SseFrame { event: "token".to_owned(), data: delta.clone() }),
        StreamEvent::ToolExecution { tool_name, .. } => Some(
            SseFrame { event: "tool_use".to_owned(), data: tool_name.clone() },
        ),
        StreamEvent::Error { message } => Some(SseFrame { event: "error".to_owned(), data: message.clone() }),
        StreamEvent::GuardrailOverride { content } => Some(
            SseFrame { event: "guardrail_override".to_owned(), data: content.clone() },
        ),
        _ => None,
    }
}

/// No agent event becomes a `done` frame: the stream's `done` is the one the
/// chat session writes when the request ends.
pub proof fn lemma_no_agent_event_is_done(event: StreamEvent)
    ensures
        sse_of(event) matches Some((name, _)) ==> name != "done"@,
{
    reveal_strlit("done");
    reveal_strlit("token");
    reveal_strlit("tool_use");
    reveal_strlit("error");
    reveal_strlit("guardrail_override");
    assert("token"@[0] != "done"@[0]);
    assert("tool_use"@[0] != "done"@[0]);
    assert("error"@[0] != "done"@[0]);
    assert("guardrail_override"@[0] != "done"@[0]);
}

/// The frames the agent events of a request become, in order; events that are
/// not forwarded leave none.
pub open spec fn agent_frames(events: Seq<StreamEvent>) -> Seq<(Seq<char>, Seq<char>)>
    decreases events.len(),
{
    if events.len() == 0 {
        Seq::empty()
    } else {
        agent_frames(events.drop_last()) + match sse_of(events.last()) {
            Some(f) => seq![f],
            None => Seq::empty(),
        }
    }
}

/// Everything a request streams: the frames of its agent events, then the
/// closing `done` frame with empty data.
pub open spec fn request_frames(events: Seq<StreamEvent>) -> Seq<(Seq<char>, Seq<char>)> {
    agent_frames(events).push(("done"@, Seq::empty()))
}

/// How many frames are named `done`.
pub open spec fn done_count(frames: Seq<(Seq<char>, Seq<char>)>) -> nat
    decreases frames.len(),
{
    if frames.len() == 0 {
        0
    } else {
        done_count(frames.drop_last()) + if frames.last().0 == "done"@ { 1nat } else { 0nat }
    }
}

proof fn lemma_agent_frames_have_no_done(events: Seq<StreamEvent>)
    ensures
        done_count(agent_frames(events)) == 0,
    decreases events.len(),
{
    if events.len() > 0 {
        lemma_agent_frames_have_no_done(events.drop_last());
        lemma_no_agent_event_is_done(events.last());
        let before = agent_frames(events.drop_last());
        match sse_of(events.last()) {
            Some(f) => {
                assert((before + seq![f]).drop_last() =~= before);
            },
            None => {
                assert(before + Seq::<(Seq<char>, Seq<char>)>::empty() =~= before);
            },
        }
    }
}

/// Whatever the agents of a request streamed, errors included, the client sees
/// exactly one `done` frame, and it is the last one, with empty data.
pub proof fn lemma_one_done_per_request(events: Seq<StreamEvent>)
    ensures
        done_count(request_frames(events)) == 1,
        request_frames(events).last() == ("done"@, Seq::<char>::empty()),
{
    lemma_agent_frames_have_no_done(events);
    assert(request_frames(events).drop_last() =~= agent_frames(events));
}

} // verus!
