//! The decisions of a multi-agent chat: which agent speaks, what it is told, and
//! whether the conversation moves to another agent after its turn.
//!
//! The caller runs each agent turn and reports back; the session bounds the
//! number of turns (eight for signed-in users, four for public sessions).

use vstd::prelude::*;

use crate::agents::active_agent_store::{lookup, ActiveAgentStore};
use crate::approval::service::ApprovalService;
use crate::chat::sse::SseFrame;
use crate::text::str_eq;

verus! {

/// The agent that greets a conversation without a recorded agent.
pub open spec fn default_agent(authenticated: bool) -> Seq<char> {
    if authenticated {
        "Banking CRM Agent (Authenticated)"@
    } else {
        "Banking CRM Agent (Public)"@
    }
}

/// How many agent turns one request may run.
pub open spec fn max_turns_for(authenticated: bool) -> nat {
    if authenticated { 8 } else { 4 }
}

/// The abstract state of a chat request.
pub struct ChatSessionView {
    pub current_agent: Seq<char>,
    pub first_turn: bool,
    pub pending: Option<Seq<char>>,
    pub started: nat,
    pub max: nat,
    pub stopped: bool,
}

impl ChatSessionView {
    /// The input of the next turn: the user's message first, then the summary the
    /// last handoff left (the message again when there is none).
    pub open spec fn input_for(self, message: Seq<char>) -> Seq<char> {
        if self.first_turn {
            message
        } else {
            match self.pending {
                Some(s) => s,
                None => message,
            }
        }
    }
}

/// One step of a request as the session's methods take it: when `began`, a turn
/// of the current agent begins, which a stopped or spent session never does;
/// otherwise no turn begins, the count and budget stay, and a stopped session
/// stays stopped.
pub open spec fn session_step(before: ChatSessionView, after: ChatSessionView, began: bool) -> bool {
    if began {
        &&& !before.stopped
        &&& before.started < before.max
        &&& after == ChatSessionView {
            first_turn: false,
            pending: None,
            started: before.started + 1,
            ..before
        }
    } else {
        &&& after.started == before.started
        &&& after.max == before.max
        &&& before.stopped ==> after.stopped
    }
}

/// How many of the steps began a turn.
pub open spec fn turns_begun(began: Seq<bool>) -> nat
    decreases began.len(),
{
    if began.len() == 0 {
        0
    } else {
        turns_begun(began.drop_last()) + if began.last() { 1nat } else { 0nat }
    }
}

/// How an agent turn ended.
#[derive(Debug)]
pub enum TurnEnd {
    /// The request is complete.
    Finished,
    /// Another agent takes over; the summary is what the handoff left ("" for none).
    HandedOff { from_agent: String, to_agent: String, summary: String },
}

/// The state of one chat request.
pub struct ChatSession {
    current_agent: String,
    is_first_turn: bool,
    pending_input_summary: Option<String>,
    turns_started: usize,
    max_turns: usize,
    stopped: bool,
}

impl View for ChatSession {
    type V = ChatSessionView;

    closed spec fn view(&self) -> ChatSessionView {
        ChatSessionView {
            current_agent: self.current_agent@,
            first_turn: self.is_first_turn,
            pending: match self.pending_input_summary {
                Some(s) => Some(s@),
                None => None,
            },
            started: self.turns_started as nat,
            max: self.max_turns as nat,
            stopped: self.stopped,
        }
    }
}

impl ChatSession {
    #[verifier::type_invariant]
    spec fn inv(self) -> bool {
        self.turns_started <= self.max_turns
    }

    /// Start a request: the conversation's recorded agent speaks first, else the
    /// default agent for the session kind.
    pub fn start(store: &ActiveAgentStore, conversation_id: &str, authenticated: bool) -> (s: Self)
        ensures
            s@.current_agent == (match lookup(store@.agents, conversation_id@) {
                Some(a) => a,
                None => default_agent(authenticated),
            }),
            s@.first_turn,
            s@.pending is None,
            s@.started == 0,
            s@.max == max_turns_for(authenticated),
            !s@.stopped,
    {
        let current = match store.get_active_agent(conversation_id) {
            Some(a) => a,
            None => if authenticated {
                "Banking CRM Agent (Authenticated)".to_owned()
            } else {
                "Banking CRM Agent (Public)".to_owned()
            },
        };
        ChatSession {
            current_agent: current,
            is_first_turn: true,
            pending_input_summary: None,
            turns_started: 0,
            max_turns: if authenticated { 8 } else { 4 },
            stopped: false,
        }
    }

    /// The agent whose turn is next.
    pub fn current_agent(&self) -> (a: &str)
        ensures
            a@ == self@.current_agent,
    {
        self.current_agent.as_str()
    }

    /// Begin the next turn of the current agent and return its input, or stop:
    /// when the request is over, the turn budget is spent, or the agent is unknown.
    pub fn next_input(&mut self, agent_known: bool, message: &str) -> (r: Option<String>)
        ensures
            (old(self)@.stopped || old(self)@.started >= old(self)@.max || !agent_known) ==> (r is None
                && final(self)@ == ChatSessionView { stopped: true, ..old(self)@ }),
            !(old(self)@.stopped || old(self)@.started >= old(self)@.max || !agent_known) ==> (r matches Some(i)
                && i@ == old(self)@.input_for(message@)
                && final(self)@ == ChatSessionView {
                    first_turn: false,
                    pending: None,
                    started: old(self)@.started + 1,
                    ..old(self)@
                }),
            final(self)@.started <= final(self)@.max,
            session_step(old(self)@, final(self)@, r is Some),
    {
        proof {
            use_type_invariant(&*self);
        }
        if self.stopped || self.turns_started >= self.max_turns || !agent_known {
            self.stopped = true;
            return None;
        }
        self.turns_started = self.turns_started + 1;
        let input = if self.is_first_turn {
            self.is_first_turn = false;
            message.to_owned()
        } else {
            let mut pending: Option<String> = None;
            std::mem::swap(&mut pending, &mut self.pending_input_summary);
            match pending {
                Some(s) => s,
                None => message.to_owned(),
            }
        };
        self.pending_input_summary = None;
        Some(input)
    }

    /// End the request: no further turn starts, the conversation's pending
    /// approval is withdrawn, and the frame that closes the stream is the single
    /// `done` event, with empty data.
    pub fn close(&mut self, approvals: &mut ApprovalService, conversation_id: &str) -> (f: SseFrame)
        ensures
            final(self)@ == (ChatSessionView { stopped: true, ..old(self)@ }),
            final(approvals)@.pending == old(approvals)@.pending.remove(conversation_id@),
            final(approvals)@.approved == old(approvals)@.approved,
            f.event@ == "done"@,
            f.data@.len() == 0,
            session_step(old(self)@, final(self)@, false),
    {
        proof {
            use_type_invariant(&*self);
        }
        self.stopped = true;
        approvals.cancel_approval(conversation_id);
        SseFrame { event: "done".to_owned(), data: String::new() }
    }

    /// Conclude the current agent's turn. When the turn completed and the store
    /// names a different agent for the conversation, that agent takes over and the
    /// handoff summary is taken from the store; otherwise the request is over.
    pub fn finish_turn(&mut self, store: &mut ActiveAgentStore, conversation_id: &str, completed: bool) -> (r: TurnEnd)
        ensures
            ({
                let next = lookup(old(store)@.agents, conversation_id@);
                let handoff = completed && next is Some && next.unwrap() != old(self)@.current_agent;
                &&& !handoff ==> (r is Finished && final(store)@ == old(store)@
                    && final(self)@ == ChatSessionView { stopped: true, ..old(self)@ })
                &&& handoff ==> ({
                    let summary = match lookup(old(store)@.summaries, conversation_id@) {
                        Some(s) => s,
                        None => Seq::empty(),
                    };
                    &&& r matches TurnEnd::HandedOff { from_agent, to_agent, summary: s }
                        && from_agent@ == old(self)@.current_agent && to_agent@ == next.unwrap() && s@ == summary
                    &&& final(store)@.agents == old(store)@.agents
                    &&& final(store)@.summaries == old(store)@.summaries.remove(conversation_id@)
                    &&& final(self)@ == ChatSessionView {
                        current_agent: next.unwrap(),
                        pending: if summary.len() > 0 { Some(summary) } else { old(self)@.pending },
                        ..old(self)@
                    }
                })
            }),
            session_step(old(self)@, final(self)@, false),
    {
        proof {
            use_type_invariant(&*self);
        }
        if !completed {
            self.stopped = true;
            return TurnEnd::Finished;
        }
        match store.get_active_agent(conversation_id) {
            Some(name) => {
                if str_eq(name.as_str(), self.current_agent.as_str()) {
                    self.stopped = true;
                    return TurnEnd::Finished;
                }
                let summary = match store.get_and_clear_summary(conversation_id) {
                    Some(s) => s,
                    None => String::new(),
                };
                if !summary.as_str().is_empty() {
                    self.pending_input_summary = Some(summary.clone());
                }
                let from = self.current_agent.clone();
                self.current_agent = name.clone();
                TurnEnd::HandedOff { from_agent: from, to_agent: name, summary }
            },
            None => {
                self.stopped = true;
                TurnEnd::Finished
            },
        }
    }
}

/// After a handoff that left a summary, the next agent is told exactly that summary.
pub proof fn lemma_handoff_summary_is_next_input(v: ChatSessionView, summary: Seq<char>, message: Seq<char>)
    requires
        !v.first_turn,
        v.pending == Some(summary),
    ensures
        v.input_for(message) == summary,
{
}

/// However a request runs, it begins at most `max_turns_for(authenticated)`
/// agent turns (eight when signed in, four in a public session), the first of
/// them with the agent it started with, and no turn begins once it has stopped.
pub proof fn lemma_turn_budget(views: Seq<ChatSessionView>, began: Seq<bool>, authenticated: bool)
    requires
        views.len() == began.len() + 1,
        views[0].started == 0,
        views[0].max == max_turns_for(authenticated),
        forall|i: int| 0 <= i < began.len() ==> session_step(#[trigger] views[i], views[i + 1], began[i]),
    ensures
        turns_begun(began) == views.last().started,
        turns_begun(began) <= max_turns_for(authenticated),
        views.last().max == views[0].max,
        views.last().started <= views.last().max,
        began.len() > 0 && began[0] ==> views[1].current_agent == views[0].current_agent,
        forall|i: int, j: int| 0 <= i <= j < began.len() && views[i].stopped ==> !began[j],
    decreases began.len(),
{
    if began.len() > 0 {
        let n = (began.len() - 1) as int;
        lemma_turn_budget(views.drop_last(), began.drop_last(), authenticated);
        assert(began.drop_last().len() == n);
        assert(session_step(views[n], views[n + 1], began[n]));
        assert(views.drop_last().last() == views[n]);
        assert forall|i: int, j: int| 0 <= i <= j < began.len() && views[i].stopped implies !began[j] by {
            lemma_stays_stopped(views, began, i, j);
        }
    }
}

proof fn lemma_stays_stopped(views: Seq<ChatSessionView>, began: Seq<bool>, i: int, j: int)
    requires
        views.len() == began.len() + 1,
        forall|k: int| 0 <= k < began.len() ==> session_step(#[trigger] views[k], views[k + 1], began[k]),
        0 <= i <= j < began.len(),
        views[i].stopped,
    ensures
        views[j].stopped,
        !began[j],
    decreases j - i,
{
    if i < j {
        assert(session_step(views[i], views[i + 1], began[i]));
        lemma_stays_stopped(views, began, i + 1, j);
    } else {
        assert(session_step(views[j], views[j + 1], began[j]));
    }
}

} // verus!
