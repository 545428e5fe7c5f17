//! The handoff loop of the non-streaming orchestrator: which agent runs, with what
//! input, and when the loop gives up.

use vstd::prelude::*;

use crate::agents::active_agent_store::{lookup, ActiveAgentStore};
use crate::error::AppError;
use crate::text::{decimal, push_decimal, push_str, str_eq};

verus! {

/// Maximum handoffs for authenticated users.
pub const MAX_AUTH_HANDOFFS: usize = 8;

/// Maximum handoffs for public (unauthenticated) users.
pub const MAX_PUBLIC_HANDOFFS: usize = 4;

/// The agents the orchestrator can run.
#[derive(Debug)]
pub enum AgentKind {
    UnauthenticatedCrm,
    AuthenticatedCrm,
    BankTransfer,
    Disputes,
}

/// The agent registered under `name`.
pub open spec fn agent_named(name: Seq<char>) -> Option<AgentKind> {
    if name == "unauthenticated_crm"@ {
        Some(AgentKind::UnauthenticatedCrm)
    } else if name == "authenticated_crm"@ {
        Some(AgentKind::AuthenticatedCrm)
    } else if name == "bank_transfer"@ {
        Some(AgentKind::BankTransfer)
    } else if name == "disputes"@ {
        Some(AgentKind::Disputes)
    } else {
        None
    }
}

/// Each registered name runs its own agent: "unauthenticated_crm" the public CRM
/// agent, "authenticated_crm" the signed-in CRM agent, "bank_transfer" the
/// transfer agent and "disputes" the disputes agent; no two names share an
/// agent, and any other name runs none.
pub proof fn lemma_agent_registry(n1: Seq<char>, n2: Seq<char>)
    ensures
        agent_named("unauthenticated_crm"@) == Some(AgentKind::UnauthenticatedCrm),
        agent_named("authenticated_crm"@) == Some(AgentKind::AuthenticatedCrm),
        agent_named("bank_transfer"@) == Some(AgentKind::BankTransfer),
        agent_named("disputes"@) == Some(AgentKind::Disputes),
        agent_named(n1) is Some && agent_named(n1) == agent_named(n2) ==> n1 == n2,
        n1 != "unauthenticated_crm"@ && n1 != "authenticated_crm"@ && n1 != "bank_transfer"@ && n1
            != "disputes"@ ==> agent_named(n1) is None,
{
    reveal_strlit("unauthenticated_crm");
    reveal_strlit("authenticated_crm");
    reveal_strlit("bank_transfer");
    reveal_strlit("disputes");
    assert("unauthenticated_crm"@.len() == 19);
    assert("authenticated_crm"@.len() == 17);
    assert("bank_transfer"@.len() == 13);
    assert("disputes"@.len() == 8);
}

/// Look up an agent by its registered name.
pub fn get_agent(name: &str) -> (r: Option<AgentKind>)
    ensures
        r == agent_named(name@),
{
    if str_eq(name, "unauthenticated_crm") {
        Some(AgentKind::UnauthenticatedCrm)
    } else if str_eq(name, "authenticated_crm") {
        Some(AgentKind::AuthenticatedCrm)
    } else if str_eq(name, "bank_transfer") {
        Some(AgentKind::BankTransfer)
    } else if str_eq(name, "disputes") {
        Some(AgentKind::Disputes)
    } else {
        None
    }
}

/// The input of a handed-over turn: the previous agent's summary and the message
/// the user sent.
pub open spec fn context_input(summary: Seq<char>, message: Seq<char>) -> Seq<char> {
    "[Context from previous agent]: "@ + summary + "\n\n[User's original message]: "@ + message
}

/// The state of one orchestrated request.
pub struct OrchestratorRun {
    current_agent: String,
    handoffs: usize,
    max_handoffs: usize,
}

/// The abstract state of an orchestrated request.
pub struct OrchestratorRunView {
    pub current_agent: Seq<char>,
    pub handoffs: nat,
    pub max_handoffs: nat,
}

impl View for OrchestratorRun {
    type V = OrchestratorRunView;

    closed spec fn view(&self) -> OrchestratorRunView {
        OrchestratorRunView {
            current_agent: self.current_agent@,
            handoffs: self.handoffs as nat,
            max_handoffs: self.max_handoffs as nat,
        }
    }
}

/// A handoff as `end_turn` takes one: within the budget, the count grows by one,
/// the budget stays, and the named agent takes over.
pub open spec fn handoff_step(before: OrchestratorRunView, after: OrchestratorRunView) -> bool {
    &&& before.handoffs + 1 < before.max_handoffs
    &&& after.handoffs == before.handoffs + 1
    &&& after.max_handoffs == before.max_handoffs
}

/// What follows an agent run.
#[derive(Debug)]
pub enum RunStep {
    /// The run's response is the answer.
    Respond,
    /// Another agent takes over.
    HandOff,
}

impl OrchestratorRun {
    #[verifier::type_invariant]
    spec fn inv(self) -> bool {
        self.handoffs < self.max_handoffs
    }

    /// Start with the conversation's recorded agent, else the CRM agent for the
    /// session kind; signed-in users get eight handoffs, public sessions four.
    pub fn start(store: &ActiveAgentStore, conversation_id: &str, authenticated: bool) -> (r: Self)
        ensures
            r@.current_agent == (match lookup(store@.agents, conversation_id@) {
                Some(a) => a,
                None => if authenticated { "authenticated_crm"@ } else { "unauthenticated_crm"@ },
            }),
            r@.handoffs == 0,
            r@.max_handoffs == (if authenticated { MAX_AUTH_HANDOFFS } else { MAX_PUBLIC_HANDOFFS }),
    {
        let current = match store.get_active_agent(conversation_id) {
            Some(a) => a,
            None => if authenticated {
                "authenticated_crm".to_owned()
            } else {
                "unauthenticated_crm".to_owned()
            },
        };
        OrchestratorRun {
            current_agent: current,
            handoffs: 0,
            max_handoffs: if authenticated { MAX_AUTH_HANDOFFS } else { MAX_PUBLIC_HANDOFFS },
        }
    }

    /// The agent to run now and its input. The pending handoff summary is taken
    /// from the store; after a handoff it is prefixed to the user's message.
    pub fn begin_turn(&self, store: &mut ActiveAgentStore, conversation_id: &str, message: &str) -> (r: Result<(AgentKind, String), AppError>)
        ensures
            match agent_named(self@.current_agent) {
                None => r matches Err(AppError::Internal(m)) && m@ == "Unknown agent: "@ + self@.current_agent
                    && final(store)@ == old(store)@,
                Some(kind) => r matches Ok((k, input)) && k == kind
                    && final(store)@.summaries == old(store)@.summaries.remove(conversation_id@)
                    && final(store)@.agents == old(store)@.agents
                    && input@ == match lookup(old(store)@.summaries, conversation_id@) {
                        Some(s) => if self@.handoffs == 0 { message@ } else { context_input(s, message@) },
                        None => message@,
                    },
            },
    {
        let kind = match get_agent(self.current_agent.as_str()) {
            Some(k) => k,
            None => {
                let mut m = String::new();
                push_str(&mut m, "Unknown agent: ");
                push_str(&mut m, self.current_agent.as_str());
                assert(m@ =~= "Unknown agent: "@ + self@.current_agent);
                return Err(AppError::Internal(m));
            },
        };
        let pending = store.get_and_clear_summary(conversation_id);
        let input = match pending {
            Some(summary) => if self.handoffs == 0 {
                message.to_owned()
            } else {
                let mut s = String::new();
                push_str(&mut s, "[Context from previous agent]: ");
                push_str(&mut s, summary.as_str());
                push_str(&mut s, "\n\n[User's original message]: ");
                push_str(&mut s, message);
                assert(s@ =~= context_input(summary@, message@));
                s
            },
            None => message.to_owned(),
        };
        Ok((kind, input))
    }

    /// After an agent run: when the store names a different agent, that agent
    /// takes over, unless the handoff budget is spent, which is an error.
    pub fn end_turn(&mut self, store: &ActiveAgentStore, conversation_id: &str) -> (r: Result<RunStep, AppError>)
        ensures
            ({
                let next = lookup(store@.agents, conversation_id@);
                if next is Some && next.unwrap() != old(self)@.current_agent {
                    if old(self)@.handoffs + 1 >= old(self)@.max_handoffs {
                        r matches Err(AppError::Internal(m))
                            && m@ == "Maximum handoffs ("@ + decimal(old(self)@.max_handoffs) + ") exceeded"@
                    } else {
                        r matches Ok(RunStep::HandOff) && final(self)@ == OrchestratorRunView {
                            current_agent: next.unwrap(),
                            handoffs: old(self)@.handoffs + 1,
                            ..old(self)@
                        }
                    }
                } else {
                    r matches Ok(RunStep::Respond) && final(self)@ == old(self)@
                }
            }),
            r matches Ok(RunStep::HandOff) ==> handoff_step(old(self)@, final(self)@),
    {
        proof {
            use_type_invariant(&*self);
        }
        match store.get_active_agent(conversation_id) {
            Some(name) => {
                if str_eq(name.as_str(), self.current_agent.as_str()) {
                    return Ok(RunStep::Respond);
                }
                if self.handoffs + 1 >= self.max_handoffs {
                    let mut m = String::new();
                    push_str(&mut m, "Maximum handoffs (");
                    push_decimal(&mut m, self.max_handoffs as u64);
                    push_str(&mut m, ") exceeded");
                    assert(m@ =~= "Maximum handoffs ("@ + decimal(self@.max_handoffs) + ") exceeded"@);
                    return Err(AppError::Internal(m));
                }
                self.current_agent = name;
                self.handoffs = self.handoffs + 1;
                Ok(RunStep::HandOff)
            },
            None => Ok(RunStep::Respond),
        }
    }
}

/// However many agents hand the conversation on in a row, a request makes at
/// most `max_handoffs - 1` handoffs: each one is counted, and the one that would
/// reach the budget is refused with the "Maximum handoffs" error instead.
pub proof fn lemma_handoff_budget(views: Seq<OrchestratorRunView>)
    requires
        views.len() >= 1,
        views[0].handoffs == 0,
        views[0].max_handoffs > 0,
        forall|i: int| 0 <= i < views.len() - 1 ==> handoff_step(#[trigger] views[i], views[i + 1]),
    ensures
        views.last().handoffs == views.len() - 1,
        views.last().max_handoffs == views[0].max_handoffs,
        views.len() - 1 < views[0].max_handoffs,
    decreases views.len(),
{
    if views.len() > 1 {
        let n = views.len() - 1;
        lemma_handoff_budget(views.drop_last());
        assert(views.drop_last().last() == views[n - 1]);
        assert(handoff_step(views[n - 1], views[n]));
    }
}

} // verus!
