//! Chat request/response schemas.

use vstd::prelude::*;

verus! {

/// A single message in a conversation.
#[derive(Debug)]
pub struct ChatMessage {
    pub role: String,
    pub content: String,
}

/// Chat request body.
#[derive(Debug)]
pub struct ChatRequest {
    /// Conversation history; the last user message is the current input.
    pub messages: Vec<ChatMessage>,
    /// LLM model hint (informational).
    pub model: Option<String>,
    /// Conversation ID for session continuity.
    pub conversation_id: Option<String>,
    /// Optional user ID (for authenticated requests).
    pub user_id: Option<String>,
}

/// The content of the last message whose role is "user", or "" when there is none.
pub open spec fn last_user_content(msgs: Seq<ChatMessage>) -> Seq<char>
    decreases msgs.len(),
{
    if msgs.len() == 0 {
        Seq::empty()
    } else if msgs.last().role@ == "user"@ {
        msgs.last().content@
    } else {
        last_user_content(msgs.drop_last())
    }
}

impl ChatRequest {
    /// Extract the content of the last user message.
    pub fn last_user_message(&self) -> (r: String)
        ensures
            r@ == last_user_content(self.messages@),
    {
        let mut i = self.messages.len();
        assert(self.messages@.take(i as int) =~= self.messages@);
        while i > 0
            invariant
                i <= self.messages@.len(),
                last_user_content(self.messages@) == last_user_content(self.messages@.take(i as int)),
            decreases i,
        {
            let m = &self.messages[i - 1];
            let ghost pre = self.messages@.take(i as int);
            assert(pre.drop_last() =~= self.messages@.take(i - 1));
            if crate::text::str_eq(m.role.as_str(), "user") {
                return m.content.clone();
            }
            i = i - 1;
        }
        String::new()
    }
}

/// Chat response body (for non-streaming).
#[derive(Debug)]
pub struct ChatResponse {
    pub response: String,
    pub conversation_id: String,
    pub agent_name: String,
    pub turns: usize,
}

} // verus!
