//! Which agent is active in each conversation, and the summary a handoff leaves.

use vstd::prelude::*;

use crate::keyed::StringMap;
use crate::text::str_eq;

verus! {

/// The abstract state of the store: conversation id to agent name, and
/// conversation id to pending handoff summary.
pub struct AgentStoreView {
    pub agents: Map<Seq<char>, Seq<char>>,
    pub summaries: Map<Seq<char>, Seq<char>>,
}

/// The text views of a map of strings.
pub open spec fn text_map(m: Map<Seq<char>, String>) -> Map<Seq<char>, Seq<char>> {
    m.map_values(|v: String| v@)
}

/// The value under `k`, if any.
pub open spec fn lookup(m: Map<Seq<char>, Seq<char>>, k: Seq<char>) -> Option<Seq<char>> {
    if m.contains_key(k) {
        Some(m[k])
    } else {
        None
    }
}

/// In-memory store tracking which agent is active for each conversation.
pub struct ActiveAgentStore {
    agents: StringMap<String>,
    pending_summaries: StringMap<String>,
}

impl View for ActiveAgentStore {
    type V = AgentStoreView;

    closed spec fn view(&self) -> AgentStoreView {
        AgentStoreView { agents: text_map(self.agents@), summaries: text_map(self.pending_summaries@) }
    }
}

impl ActiveAgentStore {
    /// Create a new empty ActiveAgentStore.
    pub fn new() -> (s: Self)
        ensures
            s@.agents == Map::<Seq<char>, Seq<char>>::empty(),
            s@.summaries == Map::<Seq<char>, Seq<char>>::empty(),
    {
        let s = ActiveAgentStore { agents: StringMap::new(), pending_summaries: StringMap::new() };
        assert(s@.agents =~= Map::<Seq<char>, Seq<char>>::empty());
        assert(s@.summaries =~= Map::<Seq<char>, Seq<char>>::empty());
        s
    }

    /// Get the active agent for a conversation.
    pub fn get_active_agent(&self, conversation_id: &str) -> (r: Option<String>)
        ensures
            r matches Some(a) ==> self@.agents.contains_key(conversation_id@) && a@ == self@.agents[conversation_id@],
            r is None <==> !self@.agents.contains_key(conversation_id@),
    {
        match self.agents.get(conversation_id) {
            Some(a) => Some(a.clone()),
            None => None,
        }
    }

    /// Set the active agent for a conversation.
    pub fn set_active_agent(&mut self, conversation_id: &str, agent_name: &str)
        ensures
            final(self)@.agents == old(self)@.agents.insert(conversation_id@, agent_name@),
            final(self)@.summaries == old(self)@.summaries,
    {
        self.agents.insert(conversation_id, agent_name.to_owned());
        assert(self@.agents =~= old(self)@.agents.insert(conversation_id@, agent_name@));
    }

    /// Get the default agent name based on authentication status.
    pub fn get_default_agent(is_authenticated: bool) -> (r: &'static str)
        ensures
            r@ == (if is_authenticated { "AuthenticatedCRM"@ } else { "UnauthenticatedCRM"@ }),
    {
        if is_authenticated {
            "AuthenticatedCRM"
        } else {
            "UnauthenticatedCRM"
        }
    }

    /// Get and clear a pending handoff summary.
    pub fn get_and_clear_summary(&mut self, conversation_id: &str) -> (r: Option<String>)
        ensures
            r matches Some(s) ==> old(self)@.summaries.contains_key(conversation_id@) && s@
                == old(self)@.summaries[conversation_id@],
            r is None <==> !old(self)@.summaries.contains_key(conversation_id@),
            final(self)@.summaries == old(self)@.summaries.remove(conversation_id@),
            final(self)@.agents == old(self)@.agents,
    {
        let r = self.pending_summaries.remove(conversation_id);
        assert(self@.summaries =~= old(self)@.summaries.remove(conversation_id@));
        r
    }

    /// Set a pending handoff summary.
    pub fn set_pending_summary(&mut self, conversation_id: &str, summary: &str)
        ensures
            final(self)@.summaries == old(self)@.summaries.insert(conversation_id@, summary@),
            final(self)@.agents == old(self)@.agents,
    {
        self.pending_summaries.insert(conversation_id, summary.to_owned());
        assert(self@.summaries =~= old(self)@.summaries.insert(conversation_id@, summary@));
    }

    /// Clear the active agent for a conversation.
    pub fn clear_agent(&mut self, conversation_id: &str)
        ensures
            final(self)@.agents == old(self)@.agents.remove(conversation_id@),
            final(self)@.summaries == old(self)@.summaries,
    {
        let _ = self.agents.remove(conversation_id);
        assert(self@.agents =~= old(self)@.agents.remove(conversation_id@));
    }

    /// Check if a handoff occurred: an agent is recorded for the conversation and
    /// it differs from `previous_agent`.
    pub fn check_handoff(&self, conversation_id: &str, previous_agent: &str) -> (r: bool)
        ensures
            r == (self@.agents.contains_key(conversation_id@) && self@.agents[conversation_id@]
                != previous_agent@),
    {
        match self.get_active_agent(conversation_id) {
            Some(current) => !str_eq(current.as_str(), previous_agent),
            None => false,
        }
    }
}

/// Reading the active agent gives back the last agent written for that
/// conversation, and writing one conversation leaves the others as they were.
pub proof fn lemma_agent_read_after_write(v: AgentStoreView, c: Seq<char>, agent: Seq<char>, d: Seq<char>)
    ensures
        lookup(v.agents.insert(c, agent), c) == Some(agent),
        d != c ==> lookup(v.agents.insert(c, agent), d) == lookup(v.agents, d),
        lookup(v.agents.remove(c), c) is None,
        d != c ==> lookup(v.agents.remove(c), d) == lookup(v.agents, d),
{
}

/// A handoff summary is handed out once: after it has been taken, a second take
/// finds nothing until a new summary is written.
pub proof fn lemma_summary_taken_once(v: AgentStoreView, c: Seq<char>, summary: Seq<char>)
    ensures
        lookup(v.summaries.insert(c, summary), c) == Some(summary),
        lookup(v.summaries.insert(c, summary).remove(c), c) is None,
{
}

impl Default for ActiveAgentStore {
    /// An empty store.
    fn default() -> (s: Self)
        ensures
            s@.agents == Map::<Seq<char>, Seq<char>>::empty(),
            s@.summaries == Map::<Seq<char>, Seq<char>>::empty(),
    {
        Self::new()
    }
}

} // verus!
