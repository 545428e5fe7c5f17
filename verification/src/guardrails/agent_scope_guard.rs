//! Keyword-based agent scope guardrail: blocks responses containing sensitive
//! keywords that shouldn't be shared by certain agent types.

use vstd::prelude::*;

use crate::guardrails::{find_first_hit, first_hit, lemma_first_hit, lowered, GuardrailDecision};
use crate::text::{contains_seq, push_str, spec_to_lowercase, to_lowercase};

verus! {

/// Sensitive keywords that should never appear in agent responses.
pub open spec fn blocked_keywords() -> Seq<Seq<char>> {
    seq!["password"@, "secret_key"@, "api_key"@, "social_security"@, "ssn"@, "credit_card_number"@, "pin_number"@]
}

/// Every one of the seven sensitive keywords is caught: a text that contains
/// "password", "secret_key", "api_key", "social_security", "ssn",
/// "credit_card_number" or "pin_number" has a first sensitive hit, so no
/// response carrying one of them passes.
pub proof fn lemma_sensitive_keywords_block(text: Seq<char>)
    ensures
        (contains_seq(text, "password"@) || contains_seq(text, "secret_key"@) || contains_seq(
            text,
            "api_key"@,
        ) || contains_seq(text, "social_security"@) || contains_seq(text, "ssn"@) || contains_seq(
            text,
            "credit_card_number"@,
        ) || contains_seq(text, "pin_number"@)) ==> first_hit(text, blocked_keywords()) is Some,
{
    lemma_first_hit(text, blocked_keywords());
    let b = blocked_keywords();
    assert(b[0] == "password"@);
    assert(b[1] == "secret_key"@);
    assert(b[2] == "api_key"@);
    assert(b[3] == "social_security"@);
    assert(b[4] == "ssn"@);
    assert(b[5] == "credit_card_number"@);
    assert(b[6] == "pin_number"@);
}

/// A keyword-based output guardrail that blocks responses containing sensitive
/// information.
pub struct AgentScopeGuard {
    /// Additional keywords to block beyond the defaults.
    extra_keywords: Vec<String>,
}

impl View for AgentScopeGuard {
    type V = Seq<Seq<char>>;

    closed spec fn view(&self) -> Seq<Seq<char>> {
        self.extra_keywords@.map_values(|s: String| s@)
    }
}

impl AgentScopeGuard {
    /// Create a new agent scope guard with default blocked keywords only.
    pub fn new() -> (g: Self)
        ensures
            g@ == Seq::<Seq<char>>::empty(),
    {
        let g = AgentScopeGuard { extra_keywords: Vec::new() };
        assert(g@ =~= Seq::<Seq<char>>::empty());
        g
    }

    /// Create with additional keywords to block.
    pub fn with_extra_keywords(keywords: Vec<String>) -> (g: Self)
        ensures
            g@ == keywords@.map_values(|s: String| s@),
    {
        AgentScopeGuard { extra_keywords: keywords }
    }

    pub fn name(&self) -> (r: &'static str)
        ensures
            r@ == "agent_scope_guard"@,
    {
        "agent_scope_guard"
    }

    /// Run first: security-critical.
    pub fn priority(&self) -> (p: u32)
        ensures
            p == 10,
    {
        10
    }

    /// Inputs are not checked: every user message passes.
    pub fn check_input(&self, _message: &str) -> (d: GuardrailDecision)
        ensures
            d is Pass,
    {
        GuardrailDecision::Pass
    }

    /// Tool calls are not checked: every call passes.
    pub fn check_tool_call(&self, _tool_name: &str) -> (d: GuardrailDecision)
        ensures
            d is Pass,
    {
        GuardrailDecision::Pass
    }

    /// Tool results are not checked: every result passes.
    pub fn check_tool_result(&self, _content: &str) -> (d: GuardrailDecision)
        ensures
            d is Pass,
    {
        GuardrailDecision::Pass
    }

    /// Block a response whose lowercased text contains a sensitive keyword (the
    /// first one listed), else one of the extra keywords (ignoring case, the first
    /// one listed); pass everything else.
    pub fn check_output(&self, response_text: &str) -> (d: GuardrailDecision)
        ensures
            ({
                let text = spec_to_lowercase(response_text@);
                match first_hit(text, blocked_keywords()) {
                    Some(k) => d matches GuardrailDecision::Block(m)
                        && m@ == "Response contains sensitive keyword: '"@ + blocked_keywords()[k] + "'"@,
                    None => match first_hit(text, lowered(self@)) {
                        Some(k) => d matches GuardrailDecision::Block(m)
                            && m@ == "Response contains blocked keyword: '"@ + self@[k] + "'"@,
                        None => d is Pass,
                    },
                }
            }),
            ({
                let text = spec_to_lowercase(response_text@);
                (contains_seq(text, "password"@) || contains_seq(text, "secret_key"@) || contains_seq(
                    text,
                    "api_key"@,
                ) || contains_seq(text, "social_security"@) || contains_seq(text, "ssn"@)
                    || contains_seq(text, "credit_card_number"@) || contains_seq(text, "pin_number"@))
                    ==> d is Block
            }),
    {
        proof {
            lemma_sensitive_keywords_block(spec_to_lowercase(response_text@));
        }
        let text = to_lowercase(response_text);
        let mut defaults: Vec<String> = Vec::new();
        defaults.push("password".to_owned());
        defaults.push("secret_key".to_owned());
        defaults.push("api_key".to_owned());
        defaults.push("social_security".to_owned());
        defaults.push("ssn".to_owned());
        defaults.push("credit_card_number".to_owned());
        defaults.push("pin_number".to_owned());
        assert(defaults@.map_values(|s: String| s@) =~= blocked_keywords());
        match find_first_hit(text.as_str(), &defaults) {
            Some(k) => {
                let mut m = String::new();
                push_str(&mut m, "Response contains sensitive keyword: '");
                push_str(&mut m, defaults[k].as_str());
                push_str(&mut m, "'");
                assert(m@ =~= "Response contains sensitive keyword: '"@ + blocked_keywords()[k as int] + "'"@);
                return GuardrailDecision::Block(m);
            },
            None => {},
        }
        let mut needles: Vec<String> = Vec::new();
        let mut i: usize = 0;
        while i < self.extra_keywords.len()
            invariant
                i <= self@.len(),
                needles@.map_values(|s: String| s@) == lowered(self@).take(i as int),
            decreases self.extra_keywords.len() - i,
        {
            let ghost before = needles@;
            let low = to_lowercase(self.extra_keywords[i].as_str());
            needles.push(low);
            assert(self@[i as int] == self.extra_keywords@[i as int]@);
            assert(lowered(self@).take(i + 1) =~= lowered(self@).take(i as int).push(spec_to_lowercase(self@[i as int])));
            assert(needles@ =~= before.push(low));
            assert(needles@.map_values(|s: String| s@) =~= before.map_values(|s: String| s@).push(low@));
            assert(needles@.map_values(|s: String| s@) =~= lowered(self@).take(i + 1));
            i = i + 1;
        }
        assert(lowered(self@).take(i as int) =~= lowered(self@));
        match find_first_hit(text.as_str(), &needles) {
            Some(k) => {
                let mut m = String::new();
                push_str(&mut m, "Response contains blocked keyword: '");
                push_str(&mut m, self.extra_keywords[k].as_str());
                push_str(&mut m, "'");
                assert(m@ =~= "Response contains blocked keyword: '"@ + self@[k as int] + "'"@);
                GuardrailDecision::Block(m)
            },
            None => GuardrailDecision::Pass,
        }
    }
}

impl Default for AgentScopeGuard {
    /// A guard with the default blocked keywords only.
    fn default() -> (g: Self)
        ensures
            g@ == Seq::<Seq<char>>::empty(),
    {
        Self::new()
    }
}

} // verus!
