//! Output guardrails: keyword checks on what an agent is about to say.

pub mod agent_scope_guard;

use vstd::prelude::*;

use crate::text::{contains, contains_seq, push_str, spec_to_lowercase, str_eq, to_lowercase};

verus! {

/// What a guardrail decides about a response.
#[derive(Debug)]
pub enum GuardrailDecision {
    /// Let the response through.
    Pass,
    /// Refuse the response, with the reason.
    Block(String),
    /// Replace the response by this assistant message.
    Modify(String),
}

/// The position of the first needle that occurs in `hay`.
pub open spec fn first_hit(hay: Seq<char>, needles: Seq<Seq<char>>) -> Option<int>
    decreases needles.len(),
{
    if needles.len() == 0 {
        None
    } else {
        match first_hit(hay, needles.drop_last()) {
            Some(i) => Some(i),
            None => if contains_seq(hay, needles.last()) {
                Some(needles.len() - 1)
            } else {
                None
            },
        }
    }
}

/// `first_hit` finds the first occurring needle: it occurs, and none before it does.
pub proof fn lemma_first_hit(hay: Seq<char>, needles: Seq<Seq<char>>)
    ensures
        match first_hit(hay, needles) {
            Some(i) => 0 <= i < needles.len() && contains_seq(hay, needles[i])
                && forall|j: int| 0 <= j < i ==> !contains_seq(hay, #[trigger] needles[j]),
            None => forall|j: int| 0 <= j < needles.len() ==> !contains_seq(hay, #[trigger] needles[j]),
        },
    decreases needles.len(),
{
    if needles.len() > 0 {
        lemma_first_hit(hay, needles.drop_last());
        assert forall|j: int| 0 <= j < needles.len() - 1 implies #[trigger] needles[j] == needles.drop_last()[j] by {}
    }
}

proof fn lemma_first_hit_step(hay: Seq<char>, needles: Seq<Seq<char>>, i: int)
    requires
        0 <= i < needles.len(),
        first_hit(hay, needles.take(i)) is None,
    ensures
        first_hit(hay, needles.take(i + 1)) == if contains_seq(hay, needles[i]) { Some(i) } else { None },
{
    assert(needles.take(i + 1).drop_last() =~= needles.take(i));
}

proof fn lemma_first_hit_prefix(hay: Seq<char>, needles: Seq<Seq<char>>, k: int)
    requires
        0 <= k <= needles.len(),
        first_hit(hay, needles.take(k)) is Some,
    ensures
        first_hit(hay, needles) == first_hit(hay, needles.take(k)),
    decreases needles.len() - k,
{
    if k < needles.len() {
        assert(needles.take(k + 1).drop_last() =~= needles.take(k));
        lemma_first_hit_prefix(hay, needles, k + 1);
    } else {
        assert(needles.take(k) =~= needles);
    }
}

/// Find the first needle occurring in `hay`.
pub(crate) fn find_first_hit(hay: &str, needles: &Vec<String>) -> (r: Option<usize>)
    ensures
        r matches Some(i) ==> i < needles@.len(),
        match r {
            Some(i) => first_hit(hay@, needles@.map_values(|s: String| s@)) == Some(i as int),
            None => first_hit(hay@, needles@.map_values(|s: String| s@)) is None,
        },
{
    let ghost ns = needles@.map_values(|s: String| s@);
    let mut i: usize = 0;
    assert(ns.take(0) =~= Seq::<Seq<char>>::empty());
    while i < needles.len()
        invariant
            i <= needles@.len(),
            ns == needles@.map_values(|s: String| s@),
            first_hit(hay@, ns.take(i as int)) is None,
        decreases needles.len() - i,
    {
        proof {
            lemma_first_hit_step(hay@, ns, i as int);
        }
        if contains(hay, needles[i].as_str()) {
            proof {
                lemma_first_hit_prefix(hay@, ns, i + 1);
            }
            return Some(i);
        }
        i = i + 1;
    }
    assert(ns.take(i as int) =~= ns);
    None
}

/// The words that make the LLM scope guard redirect a response.
pub open spec fn out_of_scope_indicators() -> Seq<Seq<char>> {
    seq!["hack"@, "exploit"@, "bypass security"@, "steal"@, "illegal"@, "money laundering"@, "fraud scheme"@]
}

/// The replacement message of the LLM scope guard.
pub open spec fn redirect_message() -> Seq<char> {
    "I'm not able to help with that request. Let me redirect you to the appropriate assistant."@
}

/// The scope description of an agent ("" for agents without one).
pub open spec fn scope_of(agent_name: Seq<char>) -> Seq<char> {
    if agent_name == "AuthenticatedCRM"@ {
        "Authenticated CRM Agent — can use banking tools, initiate transfers/disputes, check auth. Redirects to public assistant for product info."@
    } else if agent_name == "BankTransfer"@ {
        "Transfer Agent — only gather transfer details, request approval, execute transfer. Redirects to CRM for anything else."@
    } else if agent_name == "Disputes"@ {
        "Disputes Agent — only review transactions, gather dispute info, handoff. Redirects to CRM for anything else."@
    } else {
        ""@
    }
}

fn owned_list(items: &[&str]) -> (v: Vec<String>)
    ensures
        v@.map_values(|s: String| s@) == items@.map_values(|s: &str| s@),
{
    let mut v: Vec<String> = Vec::new();
    let mut i: usize = 0;
    while i < items.len()
        invariant
            i <= items@.len(),
            v@.map_values(|s: String| s@) == items@.take(i as int).map_values(|s: &str| s@),
        decreases items.len() - i,
    {
        v.push(items[i].to_owned());
        assert(items@.take(i + 1).map_values(|s: &str| s@) =~= items@.take(i as int).map_values(|s: &str| s@).push(items@[i as int]@));
        assert(v@.map_values(|s: String| s@) =~= items@.take(i + 1).map_values(|s: &str| s@));
        i = i + 1;
    }
    assert(items@.take(i as int) =~= items@);
    v
}

/// LLM-as-judge output guardrail that evaluates scope compliance, approximated
/// by a keyword check.
pub struct LlmScopeGuard;

impl LlmScopeGuard {
    /// Create a new LlmScopeGuard.
    pub fn new() -> (g: Self)
        ensures
            g == LlmScopeGuard,
    {
        LlmScopeGuard
    }

    pub fn name(&self) -> (r: &'static str)
        ensures
            r@ == "llm_scope_guard"@,
    {
        "llm_scope_guard"
    }

    /// Get the scope description for a given agent.
    pub fn scope_for_agent(agent_name: &str) -> (r: &'static str)
        ensures
            r@ == scope_of(agent_name@),
    {
        if str_eq(agent_name, "AuthenticatedCRM") {
            "Authenticated CRM Agent — can use banking tools, initiate transfers/disputes, check auth. Redirects to public assistant for product info."
        } else if str_eq(agent_name, "BankTransfer") {
            "Transfer Agent — only gather transfer details, request approval, execute transfer. Redirects to CRM for anything else."
        } else if str_eq(agent_name, "Disputes") {
            "Disputes Agent — only review transactions, gather dispute info, handoff. Redirects to CRM for anything else."
        } else {
            ""
        }
    }

    /// Inputs are not checked: every user message passes.
    pub fn check_input(&self, _message: &str) -> (d: GuardrailDecision)
        ensures
            d is Pass,
    {
        GuardrailDecision::Pass
    }

    /// Tool calls are not checked: every call passes.
    pub fn check_tool_call(&self, _tool_name: &str) -> (d: GuardrailDecision)
        ensures
            d is Pass,
    {
        GuardrailDecision::Pass
    }

    /// Tool results are not checked: every result passes.
    pub fn check_tool_result(&self, _content: &str) -> (d: GuardrailDecision)
        ensures
            d is Pass,
    {
        GuardrailDecision::Pass
    }

    /// For agents with a scope, a response mentioning any out-of-scope indicator
    /// (ignoring case) is replaced by a redirect; everything else passes.
    pub fn check_output(&self, response_text: &str, agent_name: &str) -> (d: GuardrailDecision)
        ensures
            (scope_of(agent_name@).len() > 0 && exists|k: int| 0 <= k < out_of_scope_indicators().len()
                && contains_seq(spec_to_lowercase(response_text@), #[trigger] out_of_scope_indicators()[k]))
                ==> (d matches GuardrailDecision::Modify(m) && m@ == redirect_message()),
            !(scope_of(agent_name@).len() > 0 && exists|k: int| 0 <= k < out_of_scope_indicators().len()
                && contains_seq(spec_to_lowercase(response_text@), #[trigger] out_of_scope_indicators()[k]))
                ==> d is Pass,
    {
        let scope = Self::scope_for_agent(agent_name);
        if scope.is_empty() {
            return GuardrailDecision::Pass;
        }
        let lower = to_lowercase(response_text);
        let indicators = owned_list(
            &["hack", "exploit", "bypass security", "steal", "illegal", "money laundering", "fraud scheme"],
        );
        proof {
            assert(indicators@.map_values(|s: String| s@) =~= out_of_scope_indicators());
            lemma_first_hit(lower@, out_of_scope_indicators());
        }
        match find_first_hit(lower.as_str(), &indicators) {
            Some(_) => GuardrailDecision::Modify(
                "I'm not able to help with that request. Let me redirect you to the appropriate assistant.".to_owned(),
            ),
            None => GuardrailDecision::Pass,
        }
    }
}

/// Keyword-based output guardrail over a configurable list of off-topic phrases.
pub struct AgentScopeGuard {
    off_topic_phrases: Vec<String>,
}

impl View for AgentScopeGuard {
    type V = Seq<Seq<char>>;

    closed spec fn view(&self) -> Seq<Seq<char>> {
        self.off_topic_phrases@.map_values(|s: String| s@)
    }
}

/// The lowercased forms of the phrases.
pub open spec fn lowered(phrases: Seq<Seq<char>>) -> Seq<Seq<char>> {
    phrases.map_values(|p: Seq<char>| spec_to_lowercase(p))
}

impl AgentScopeGuard {
    /// Create a new AgentScopeGuard with the given off-topic phrases.
    pub fn new(phrases: Vec<String>) -> (g: Self)
        ensures
            g@ == phrases@.map_values(|s: String| s@),
    {
        AgentScopeGuard { off_topic_phrases: phrases }
    }

    /// Create a guard with common banking off-topic phrases.
    pub fn banking_default() -> (g: Self)
        ensures
            g@ == seq!["hack"@, "exploit"@, "bypass security"@, "steal money"@],
    {
        let phrases = owned_list(&["hack", "exploit", "bypass security", "steal money"]);
        let g = AgentScopeGuard { off_topic_phrases: phrases };
        assert(g@ =~= seq!["hack"@, "exploit"@, "bypass security"@, "steal money"@]);
        g
    }

    pub fn name(&self) -> (r: &'static str)
        ensures
            r@ == "agent_scope_guard"@,
    {
        "agent_scope_guard"
    }

    /// Inputs are not checked: every user message passes.
    pub fn check_input(&self, _message: &str) -> (d: GuardrailDecision)
        ensures
            d is Pass,
    {
        GuardrailDecision::Pass
    }

    /// Tool calls are not checked: every call passes.
    pub fn check_tool_call(&self, _tool_name: &str) -> (d: GuardrailDecision)
        ensures
            d is Pass,
    {
        GuardrailDecision::Pass
    }

    /// Tool results are not checked: every result passes.
    pub fn check_tool_result(&self, _content: &str) -> (d: GuardrailDecision)
        ensures
            d is Pass,
    {
        GuardrailDecision::Pass
    }

    /// Block a response containing any of the phrases (ignoring case), naming the
    /// first such phrase; pass everything else.
    pub fn check_output(&self, response_text: &str) -> (d: GuardrailDecision)
        ensures
            match first_hit(spec_to_lowercase(response_text@), lowered(self@)) {
                Some(k) => d matches GuardrailDecision::Block(m)
                    && m@ == "Response contains off-topic content: '"@ + self@[k] + "'"@,
                None => d is Pass,
            },
    {
        let text = to_lowercase(response_text);
        let mut needles: Vec<String> = Vec::new();
        let mut i: usize = 0;
        while i < self.off_topic_phrases.len()
            invariant
                i <= self@.len(),
                needles@.map_values(|s: String| s@) == lowered(self@).take(i as int),
            decreases self.off_topic_phrases.len() - i,
        {
            let ghost before = needles@;
            let low = to_lowercase(self.off_topic_phrases[i].as_str());
            needles.push(low);
            assert(self@[i as int] == self.off_topic_phrases@[i as int]@);
            assert(lowered(self@).take(i + 1) =~= lowered(self@).take(i as int).push(spec_to_lowercase(self@[i as int])));
            assert(needles@ =~= before.push(low));
            assert(needles@.map_values(|s: String| s@) =~= before.map_values(|s: String| s@).push(low@));
            assert(needles@.map_values(|s: String| s@) =~= lowered(self@).take(i + 1));
            i = i + 1;
        }
        assert(lowered(self@).take(i as int) =~= lowered(self@));
        match find_first_hit(text.as_str(), &needles) {
            Some(k) => {
                let mut m = String::new();
                push_str(&mut m, "Response contains off-topic content: '");
                push_str(&mut m, self.off_topic_phrases[k].as_str());
                push_str(&mut m, "'");
                assert(m@ =~= "Response contains off-topic content: '"@ + self@[k as int] + "'"@);
                GuardrailDecision::Block(m)
            },
            None => GuardrailDecision::Pass,
        }
    }
}

impl Default for LlmScopeGuard {
    /// The scope guard.
    fn default() -> (g: Self)
        ensures
            g == LlmScopeGuard,
    {
        Self::new()
    }
}

} // verus!
