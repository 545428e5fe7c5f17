//! The chat-completions protocol: how the runtime's messages are written for
//! the OpenAI-compatible API, how a finish reason maps to a stop reason, and how
//! the pieces of a streamed answer become the runtime's stream chunks.

use std::collections::HashMap;

use vstd::prelude::*;

use crate::text::{push_str, str_eq};

verus! {

/// Why the model stopped.
#[derive(PartialEq, Eq, Structural, Debug, Clone, Copy)]
pub enum StopReason {
    EndTurn,
    ToolUse,
    MaxTokens,
}

/// The stop reason for an API finish reason.
pub open spec fn stop_reason_of(finish: Option<Seq<char>>) -> StopReason {
    match finish {
        Some(f) => if f == "tool_calls"@ || f == "tool_use"@ {
            StopReason::ToolUse
        } else if f == "length"@ || f == "max_tokens"@ {
            StopReason::MaxTokens
        } else {
            StopReason::EndTurn
        },
        None => StopReason::EndTurn,
    }
}

/// The characters of an optional string.
pub open spec fn opt_view(o: Option<String>) -> Option<Seq<char>> {
    match o {
        Some(s) => Some(s@),
        None => None,
    }
}

/// Map an API finish reason to the runtime's stop reason: "tool_calls" and
/// "tool_use" mean a tool call, "length" and "max_tokens" the token limit, and
/// anything else, or none, the end of the turn.
pub fn finish_to_stop(finish: Option<&str>) -> (r: StopReason)
    ensures
        r == stop_reason_of(match finish { Some(f) => Some(f@), None => None }),
{
    match finish {
        Some(f) => {
            if str_eq(f, "tool_calls") || str_eq(f, "tool_use") {
                StopReason::ToolUse
            } else if str_eq(f, "length") || str_eq(f, "max_tokens") {
                StopReason::MaxTokens
            } else {
                StopReason::EndTurn
            }
        },
        None => StopReason::EndTurn,
    }
}

/// The author of a message.
#[derive(PartialEq, Eq, Structural, Debug, Clone, Copy)]
pub enum Role {
    System,
    User,
    Assistant,
    Tool,
}

/// The API's name for a role.
pub open spec fn role_text(role: Role) -> Seq<char> {
    match role {
        Role::System => "system"@,
        Role::User => "user"@,
        Role::Assistant => "assistant"@,
        Role::Tool => "tool"@,
    }
}

/// The API's name for a role.
pub fn role_name(role: Role) -> (s: &'static str)
    ensures
        s@ == role_text(role),
{
    match role {
        Role::System => "system",
        Role::User => "user",
        Role::Assistant => "assistant",
        Role::Tool => "tool",
    }
}

/// One block of a multi-part message.
pub enum ContentBlock {
    Text { text: String },
    /// A tool call; `input_json` is the call's input written as JSON.
    ToolUse { tool_use_id: String, name: String, input_json: String },
    ToolResult { tool_use_id: String, content: String },
}

/// The content of a message.
pub enum MessageContent {
    Text(String),
    MultiPart(Vec<ContentBlock>),
}

/// A tool call as the API writes it: id, function name and JSON arguments.
pub struct WireToolCall {
    pub id: String,
    pub name: String,
    pub arguments: String,
}

impl View for WireToolCall {
    type V = (Seq<char>, Seq<char>, Seq<char>);

    open spec fn view(&self) -> (Seq<char>, Seq<char>, Seq<char>) {
        (self.id@, self.name@, self.arguments@)
    }
}

/// A message as the API takes it.
pub enum WireMessage {
    /// `{"role": role, "content": content}`.
    Plain { role: Role, content: String },
    /// `{"role": "tool", "tool_call_id": .., "content": ..}`.
    ToolResult { tool_call_id: String, content: String },
    /// `{"role": "assistant", "content": content or null, "tool_calls": [..]}`.
    ToolCalls { content: Option<String>, tool_calls: Vec<WireToolCall> },
}

/// The text blocks of a message, joined.
pub open spec fn blocks_text(b: Seq<ContentBlock>) -> Seq<char>
    decreases b.len(),
{
    if b.len() == 0 {
        Seq::empty()
    } else {
        blocks_text(b.drop_last()) + match b.last() {
            ContentBlock::Text { text } => text@,
            _ => Seq::empty(),
        }
    }
}

/// The tool calls of a message, in order.
pub open spec fn blocks_tool_calls(b: Seq<ContentBlock>) -> Seq<(Seq<char>, Seq<char>, Seq<char>)>
    decreases b.len(),
{
    if b.len() == 0 {
        Seq::empty()
    } else {
        blocks_tool_calls(b.drop_last()) + match b.last() {
            ContentBlock::ToolUse { tool_use_id, name, input_json } => seq![(tool_use_id@, name@, input_json@)],
            _ => Seq::empty(),
        }
    }
}

/// `w` is how a message of `role` with `content` is written for the API: plain
/// text as is; a multi-part message that starts with a tool result as that
/// result; one with tool calls as an assistant message carrying them, with its
/// joined text or null; any other as its joined text.
pub open spec fn is_wire_form(role: Role, content: MessageContent, w: WireMessage) -> bool {
    match content {
        MessageContent::Text(t) => w matches WireMessage::Plain { role: r, content: c } && r == role
            && c@ == t@,
        MessageContent::MultiPart(blocks) => if blocks@.len() > 0
            && blocks@[0] is ToolResult {
            w matches WireMessage::ToolResult { tool_call_id, content: c }
                && tool_call_id@ == blocks@[0]->ToolResult_tool_use_id@ && c@
                == blocks@[0]->ToolResult_content@
        } else if blocks_tool_calls(blocks@).len() > 0 {
            w matches WireMessage::ToolCalls { content: c, tool_calls }
                && opt_view(c) == (if blocks_text(blocks@).len() == 0 {
                None
            } else {
                Some(blocks_text(blocks@))
            }) && tool_calls@.map_values(|t: WireToolCall| t@) == blocks_tool_calls(blocks@)
        } else {
            w matches WireMessage::Plain { role: r, content: c } && r == role && c@ == blocks_text(
                blocks@,
            )
        },
    }
}

/// A message keeps its author on the wire: whenever it is written as a plain
/// message (always so for plain text), the role is the message's own, so an
/// assistant turn goes out as "assistant" and a system prompt as "system"; plain
/// text goes out unchanged.
pub proof fn lemma_wire_keeps_author(role: Role, content: MessageContent, w: WireMessage)
    requires
        is_wire_form(role, content, w),
    ensures
        w matches WireMessage::Plain { role: r, .. } ==> r == role && role_text(r) == role_text(role),
        content matches MessageContent::Text(t) ==> (w matches WireMessage::Plain { role: r, content: c }
            && r == role && c@ == t@),
{
}

fn copy_string(s: &String) -> (r: String)
    ensures
        r@ == s@,
{
    s.clone()
}

/// Write a message for the API.
pub fn message_to_wire(role: Role, content: &MessageContent) -> (w: WireMessage)
    ensures
        is_wire_form(role, *content, w),
        content matches MessageContent::Text(t) ==> (w matches WireMessage::Plain { role: r, content: c }
            && r == role && c@ == t@),
        w matches WireMessage::Plain { role: r, .. } ==> r == role,
{
    match content {
        MessageContent::Text(t) => WireMessage::Plain { role, content: copy_string(t) },
        MessageContent::MultiPart(blocks) => {
            if blocks.len() > 0 {
                if let ContentBlock::ToolResult { tool_use_id, content } = &blocks[0] {
                    return WireMessage::ToolResult {
                        tool_call_id: copy_string(tool_use_id),
                        content: copy_string(content),
                    };
                }
            }
            let mut text = String::new();
            let mut calls: Vec<WireToolCall> = Vec::new();
            let mut i: usize = 0;
            while i < blocks.len()
                invariant
                    i <= blocks@.len(),
                    text@ == blocks_text(blocks@.take(i as int)),
                    calls@.map_values(|t: WireToolCall| t@) == blocks_tool_calls(blocks@.take(i as int)),
                decreases blocks.len() - i,
            {
                assert(blocks@.take(i + 1).drop_last() =~= blocks@.take(i as int));
                match &blocks[i] {
                    ContentBlock::Text { text: t } => {
                        push_str(&mut text, t.as_str());
                    },
                    ContentBlock::ToolUse { tool_use_id, name, input_json } => {
                        calls.push(
                            WireToolCall {
                                id: copy_string(tool_use_id),
                                name: copy_string(name),
                                arguments: copy_string(input_json),
                            },
                        );
                    },
                    ContentBlock::ToolResult { .. } => {},
                }
                assert(calls@.map_values(|t: WireToolCall| t@) =~= blocks_tool_calls(blocks@.take(i + 1)));
                i = i + 1;
            }
            assert(blocks@.take(i as int) =~= blocks@);
            if calls.len() > 0 {
                let content = if text.as_str().unicode_len() == 0 {
                    None
                } else {
                    Some(text)
                };
                WireMessage::ToolCalls { content, tool_calls: calls }
            } else {
                WireMessage::Plain { role, content: text }
            }
        },
    }
}

/// The endpoint for chat completions under an API base URL.
pub fn completions_url(base: &str) -> (r: String)
    ensures
        r@ == base@ + "/chat/completions"@,
{
    let mut r = base.to_owned();
    push_str(&mut r, "/chat/completions");
    r
}

/// The authorization header value for an API key.
pub fn bearer_header(api_key: &str) -> (r: String)
    ensures
        r@ == "Bearer "@ + api_key@,
{
    let mut r = "Bearer ".to_owned();
    push_str(&mut r, api_key);
    r
}

/// The tool choice sent with a request: "auto" when tools are offered.
pub fn tool_choice_for(n_tools: usize) -> (r: Option<String>)
    ensures
        n_tools == 0 ==> r is None,
        n_tools > 0 ==> opt_view(r) == Some("auto"@),
{
    if n_tools == 0 {
        None
    } else {
        Some("auto".to_owned())
    }
}

/// The body of a chat-completions request as far as the library decides it: the
/// model, the messages in wire form, whether the answer is streamed, the tools
/// offered and the tool choice. Sampling settings are the caller's.
pub struct ChatRequestPlan {
    pub model: String,
    pub messages: Vec<WireMessage>,
    pub stream: bool,
    pub tools: Vec<serde_json::Value>,
    pub tool_choice: Option<String>,
}

/// Plan the body of a request for `model`: each message in wire form, in order;
/// the tools as given, with the tool choice "auto" when there are any and none
/// otherwise.
pub fn request_plan(
    model: &str,
    messages: &Vec<(Role, MessageContent)>,
    tools: Vec<serde_json::Value>,
    stream: bool,
) -> (r: ChatRequestPlan)
    ensures
        r.model@ == model@,
        r.stream == stream,
        r.messages.len() == messages.len(),
        forall|i: int|
            0 <= i < messages.len() ==> is_wire_form(
                messages@[i].0,
                messages@[i].1,
                #[trigger] r.messages@[i],
            ),
        r.tools@ == tools@,
        tools.len() == 0 ==> r.tool_choice is None,
        tools.len() > 0 ==> opt_view(r.tool_choice) == Some("auto"@),
{
    let mut wire: Vec<WireMessage> = Vec::new();
    let mut i: usize = 0;
    while i < messages.len()
        invariant
            i <= messages.len(),
            wire.len() == i,
            forall|j: int|
                0 <= j < i ==> is_wire_form(messages@[j].0, messages@[j].1, #[trigger] wire@[j]),
        decreases messages.len() - i,
    {
        let (role, content) = &messages[i];
        wire.push(message_to_wire(*role, content));
        i = i + 1;
    }
    let tool_choice = tool_choice_for(tools.len());
    ChatRequestPlan { model: model.to_owned(), messages: wire, stream, tools, tool_choice }
}

/// The reason an LLM call failed.
pub struct LlmCallFailed {
    pub reason: String,
}

/// Token counts reported for a call.
#[derive(PartialEq, Eq, Structural, Debug, Clone, Copy)]
pub struct TokenUsage {
    pub input_tokens: usize,
    pub output_tokens: usize,
}

/// One choice of a non-streamed answer.
pub struct CompletionChoice {
    pub content: Option<String>,
    pub finish_reason: Option<String>,
    pub tool_calls: Vec<WireToolCall>,
}

/// A non-streamed answer as the runtime takes it.
pub struct Completion {
    pub text: String,
    pub finish_reason: StopReason,
    pub tool_calls: Vec<WireToolCall>,
}

/// The text of an optional string, empty when absent.
pub open spec fn text_or_empty(o: Option<Seq<char>>) -> Seq<char> {
    match o {
        Some(s) => s,
        None => Seq::empty(),
    }
}

/// Read a non-streamed answer from its choices: the first choice's text (empty
/// when absent), stop reason and tool calls; an answer without choices fails
/// with "No choices".
pub fn completion_of(choices: Vec<CompletionChoice>) -> (r: Result<Completion, LlmCallFailed>)
    ensures
        match r {
            Ok(c) => choices@.len() > 0 && c.text@ == text_or_empty(opt_view(choices@[0].content))
                && c.finish_reason == stop_reason_of(opt_view(choices@[0].finish_reason))
                && c.tool_calls == choices@[0].tool_calls,
            Err(e) => choices@.len() == 0 && e.reason@ == "No choices"@,
        },
{
    let mut choices = choices;
    if choices.len() == 0 {
        return Err(LlmCallFailed { reason: "No choices".to_owned() });
    }
    let first = choices.remove(0);
    let finish_reason = match &first.finish_reason {
        Some(f) => finish_to_stop(Some(f.as_str())),
        None => finish_to_stop(None),
    };
    let text = match first.content {
        Some(t) => t,
        None => String::new(),
    };
    Ok(Completion { text, finish_reason, tool_calls: first.tool_calls })
}

/// A piece of a streamed tool call.
pub struct ToolCallFragment {
    pub index: usize,
    pub id: Option<String>,
    pub name: Option<String>,
    pub arguments: String,
}

impl View for ToolCallFragment {
    type V = (usize, Option<Seq<char>>, Option<Seq<char>>, Seq<char>);

    open spec fn view(&self) -> (usize, Option<Seq<char>>, Option<Seq<char>>, Seq<char>) {
        (self.index, opt_view(self.id), opt_view(self.name), self.arguments@)
    }
}

/// A piece of a tool call as the runtime takes it.
pub struct ToolCallDelta {
    pub tool_use_id: String,
    pub name: Option<String>,
    pub input_delta: String,
}

impl View for ToolCallDelta {
    type V = (Seq<char>, Option<Seq<char>>, Seq<char>);

    open spec fn view(&self) -> (Seq<char>, Option<Seq<char>>, Seq<char>) {
        (self.tool_use_id@, opt_view(self.name), self.input_delta@)
    }
}

/// One choice of a streamed chunk.
pub struct StreamChoice {
    pub content: Option<String>,
    pub finish_reason: Option<String>,
    pub tool_calls: Vec<ToolCallFragment>,
}

/// A piece of a streamed answer as the runtime takes it.
pub struct StreamChunk {
    pub delta: String,
    pub tool_call_delta: Option<ToolCallDelta>,
    pub stop_reason: Option<StopReason>,
    pub usage: Option<TokenUsage>,
}

/// The registry after a fragment: the first fragment with an id registers the
/// call (with its name, or an empty one); later ones leave it as it is.
pub open spec fn registered(m: Map<usize, (Seq<char>, Seq<char>)>, f: (usize, Option<Seq<char>>, Option<Seq<char>>, Seq<char>)) -> Map<usize, (Seq<char>, Seq<char>)> {
    match f.1 {
        Some(id) => if m.contains_key(f.0) {
            m
        } else {
            m.insert(f.0, (id, text_or_empty(f.2)))
        },
        None => m,
    }
}

/// The delta a fragment gives once the registry holds its call: the call's id,
/// the fragment's name or else the registered one when not empty, and the
/// fragment's arguments. Fragments of unregistered calls give none.
pub open spec fn delta_of(m: Map<usize, (Seq<char>, Seq<char>)>, f: (usize, Option<Seq<char>>, Option<Seq<char>>, Seq<char>)) -> Option<(Seq<char>, Option<Seq<char>>, Seq<char>)> {
    if m.contains_key(f.0) {
        let name = match f.2 {
            Some(n) => Some(n),
            None => if m[f.0].1.len() > 0 {
                Some(m[f.0].1)
            } else {
                None
            },
        };
        Some((m[f.0].0, name, f.3))
    } else {
        None
    }
}

/// A streamed tool call keeps the id and name it was first registered with:
/// later fragments for the same index, with or without an id, change neither,
/// and every delta for that index carries that id.
pub proof fn lemma_registration_is_stable(m: Map<usize, (Seq<char>, Seq<char>)>, f: (usize, Option<Seq<char>>, Option<Seq<char>>, Seq<char>), i: usize)
    requires
        m.contains_key(i),
    ensures
        registered(m, f).contains_key(i),
        registered(m, f)[i] == m[i],
        f.0 == i ==> (delta_of(registered(m, f), f) matches Some(d) && d.0 == m[i].0),
{
}

/// The registry and the deltas after a run of fragments, in order.
pub open spec fn fold_fragments(m: Map<usize, (Seq<char>, Seq<char>)>, fs: Seq<(usize, Option<Seq<char>>, Option<Seq<char>>, Seq<char>)>) -> (Map<usize, (Seq<char>, Seq<char>)>, Seq<(Seq<char>, Option<Seq<char>>, Seq<char>)>)
    decreases fs.len(),
{
    if fs.len() == 0 {
        (m, Seq::empty())
    } else {
        let (m1, ds) = fold_fragments(m, fs.drop_last());
        let m2 = registered(m1, fs.last());
        (m2, match delta_of(m2, fs.last()) {
            Some(d) => ds.push(d),
            None => ds,
        })
    }
}

/// `c` is the chunk that carries delta `d` and no text.
pub open spec fn carries_delta(c: StreamChunk, d: (Seq<char>, Option<Seq<char>>, Seq<char>)) -> bool {
    &&& c.delta@.len() == 0
    &&& c.tool_call_delta matches Some(x) && x@ == d
}

/// The state a stream keeps between chunks: which call each tool-call index
/// belongs to.
pub struct StreamState {
    tool_index_map: HashMap<usize, (String, String)>,
}

impl View for StreamState {
    type V = Map<usize, (Seq<char>, Seq<char>)>;

    closed spec fn view(&self) -> Map<usize, (Seq<char>, Seq<char>)> {
        Map::new(|k: usize| self.tool_index_map@.contains_key(k), |k: usize| (self.tool_index_map@[k].0@, self.tool_index_map@[k].1@))
    }
}

impl StreamState {
    /// The state at the start of a stream.
    pub fn new() -> (s: Self)
        ensures
            s@ == Map::<usize, (Seq<char>, Seq<char>)>::empty(),
    {
        let s = StreamState { tool_index_map: HashMap::new() };
        assert(s@ =~= Map::<usize, (Seq<char>, Seq<char>)>::empty());
        s
    }

    /// Register a fragment's call if it is new, and give its delta.
    pub fn fragment_delta(&mut self, frag: &ToolCallFragment) -> (r: Option<ToolCallDelta>)
        ensures
            final(self)@ == registered(old(self)@, frag@),
            match r {
                Some(d) => delta_of(final(self)@, frag@) == Some(d@),
                None => delta_of(final(self)@, frag@) is None,
            },
    {
        broadcast use vstd::std_specs::hash::group_hash_axioms;
        let idx = frag.index;
        if let Some(id) = &frag.id {
            if !self.tool_index_map.contains_key(&idx) {
                let name = match &frag.name {
                    Some(n) => copy_string(n),
                    None => String::new(),
                };
                self.tool_index_map.insert(idx, (copy_string(id), name));
            }
        }
        assert(self@ =~= registered(old(self)@, frag@));
        match self.tool_index_map.get(&idx) {
            Some(entry) => {
                let name = match &frag.name {
                    Some(n) => Some(copy_string(n)),
                    None => if entry.1.as_str().unicode_len() > 0 {
                        Some(copy_string(&entry.1))
                    } else {
                        None
                    },
                };
                Some(
                    ToolCallDelta {
                        tool_use_id: copy_string(&entry.0),
                        name,
                        input_delta: copy_string(&frag.arguments),
                    },
                )
            },
            None => None,
        }
    }

    /// The chunks that one streamed choice gives: first its text, unless the
    /// text is empty and tool-call fragments came; then one chunk per fragment
    /// whose call is registered. Every chunk carries the choice's stop reason
    /// and the reported usage.
    pub fn chunks_for(&mut self, choice: &StreamChoice, usage: Option<TokenUsage>) -> (out: Vec<StreamChunk>)
        ensures
            ({
                let text = text_or_empty(opt_view(choice.content));
                let lead: int = if text.len() > 0 || choice.tool_calls@.len() == 0 { 1 } else { 0 };
                let (m, ds) = fold_fragments(old(self)@, choice.tool_calls@.map_values(|f: ToolCallFragment| f@));
                &&& final(self)@ == m
                &&& out@.len() == lead + ds.len()
                &&& lead == 1 ==> out@[0].delta@ == text && out@[0].tool_call_delta is None
                &&& forall|k: int| 0 <= k < ds.len() ==> carries_delta(#[trigger] out@[lead + k], ds[k])
                &&& forall|k: int| 0 <= k < out@.len() ==> (#[trigger] out@[k]).stop_reason == Some(stop_reason_of(opt_view(choice.finish_reason)))
                    && out@[k].usage == usage
            }),
    {
        let stop = match &choice.finish_reason {
            Some(f) => finish_to_stop(Some(f.as_str())),
            None => finish_to_stop(None),
        };
        let text = match &choice.content {
            Some(t) => copy_string(t),
            None => String::new(),
        };
        let mut out: Vec<StreamChunk> = Vec::new();
        let ghost lead: int = 0;
        if text.as_str().unicode_len() > 0 || choice.tool_calls.len() == 0 {
            out.push(StreamChunk { delta: text, tool_call_delta: None, stop_reason: Some(stop), usage });
            proof {
                lead = 1;
            }
        }
        let ghost fs = choice.tool_calls@.map_values(|f: ToolCallFragment| f@);
        let ghost m0 = old(self)@;
        let mut i: usize = 0;
        assert(fs.take(0) =~= Seq::empty());
        while i < choice.tool_calls.len()
            invariant
                0 <= lead <= 1,
                fs == choice.tool_calls@.map_values(|f: ToolCallFragment| f@),
                i <= choice.tool_calls@.len(),
                self@ == fold_fragments(m0, fs.take(i as int)).0,
                out@.len() == lead + fold_fragments(m0, fs.take(i as int)).1.len(),
                lead == 1 ==> out@[0].delta@ == text_or_empty(opt_view(choice.content)) && out@[0].tool_call_delta is None,
                forall|k: int| 0 <= k < fold_fragments(m0, fs.take(i as int)).1.len() ==> carries_delta(#[trigger] out@[lead + k], fold_fragments(m0, fs.take(i as int)).1[k]),
                forall|k: int| 0 <= k < out@.len() ==> (#[trigger] out@[k]).stop_reason == Some(stop) && out@[k].usage == usage,
                stop == stop_reason_of(opt_view(choice.finish_reason)),
            decreases choice.tool_calls.len() - i,
        {
            assert(fs.take(i + 1).drop_last() =~= fs.take(i as int));
            assert(fs.take(i + 1).last() == choice.tool_calls@[i as int]@);
            let d = self.fragment_delta(&choice.tool_calls[i]);
            match d {
                Some(delta) => {
                    out.push(StreamChunk { delta: String::new(), tool_call_delta: Some(delta), stop_reason: Some(stop), usage });
                },
                None => {},
            }
            i = i + 1;
        }
        assert(fs.take(i as int) =~= fs);
        out
    }
}

} // verus!
