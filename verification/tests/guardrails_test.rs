use lauren_chatbot::guardrails::agent_scope_guard::AgentScopeGuard as KeywordGuard;
use lauren_chatbot::guardrails::{AgentScopeGuard, GuardrailDecision, LlmScopeGuard};

fn is_pass(d: &GuardrailDecision) -> bool {
    matches!(d, GuardrailDecision::Pass)
}

fn is_block(d: &GuardrailDecision) -> bool {
    matches!(d, GuardrailDecision::Block(_))
}

fn is_modify(d: &GuardrailDecision) -> bool {
    matches!(d, GuardrailDecision::Modify(_))
}

#[test]
fn test_scope_for_agent() {
    assert!(!LlmScopeGuard::scope_for_agent("AuthenticatedCRM").is_empty());
    assert!(!LlmScopeGuard::scope_for_agent("BankTransfer").is_empty());
    assert!(!LlmScopeGuard::scope_for_agent("Disputes").is_empty());
    assert!(LlmScopeGuard::scope_for_agent("Unknown").is_empty());
}

#[test]
fn test_llm_scope_guard_pass() {
    let guard = LlmScopeGuard::new();
    let decision = guard.check_output("Your balance is $5000.", "AuthenticatedCRM");
    assert!(is_pass(&decision));
}

#[test]
fn test_llm_scope_guard_block_hack() {
    let guard = LlmScopeGuard::new();
    let decision = guard.check_output("I can help you hack into a bank account.", "AuthenticatedCRM");
    assert!(is_modify(&decision));
}

#[test]
fn test_llm_scope_guard_unknown_agent() {
    let guard = LlmScopeGuard::new();
    let decision = guard.check_output("Anything goes.", "UnknownAgent");
    assert!(is_pass(&decision));
}

#[test]
fn test_llm_scope_guard_default() {
    let guard = LlmScopeGuard::default();
    assert_eq!(guard.name(), LlmScopeGuard::new().name());
}

#[test]
fn test_agent_scope_guard_pass() {
    let guard = AgentScopeGuard::banking_default();
    let decision = guard.check_output("Your balance is $5000.");
    assert!(is_pass(&decision));
}

#[test]
fn test_agent_scope_guard_block() {
    let guard = AgentScopeGuard::banking_default();
    let decision = guard.check_output("I can help you hack into the system.");
    assert!(is_block(&decision));
}

#[test]
fn test_agent_scope_guard_custom_phrases() {
    let guard = AgentScopeGuard::new(vec!["crypto".into(), "bitcoin".into()]);
    let decision = guard.check_output("You should invest in bitcoin.");
    assert!(is_block(&decision));
}

#[test]
fn test_llm_scope_guard_steal_keyword() {
    let guard = LlmScopeGuard::new();
    let decision = guard.check_output("I can help you steal money from the bank.", "BankTransfer");
    assert!(is_modify(&decision));
}

#[test]
fn test_llm_scope_guard_exploit_keyword() {
    let guard = LlmScopeGuard::new();
    let decision = guard.check_output("There is an exploit in the system.", "Disputes");
    assert!(is_modify(&decision));
}

#[test]
fn test_llm_scope_guard_money_laundering_keyword() {
    let guard = LlmScopeGuard::new();
    let decision = guard.check_output("I can help with money laundering.", "AuthenticatedCRM");
    assert!(is_modify(&decision));
}

#[test]
fn test_agent_scope_guard_no_match() {
    let guard = AgentScopeGuard::banking_default();
    let decision = guard.check_output("Your account is secure and well-protected.");
    assert!(is_pass(&decision));
}

#[test]
fn test_blocks_password() {
    let guard = KeywordGuard::new();
    let decision = guard.check_output("Your password is hunter2");
    assert!(is_block(&decision));
}

#[test]
fn test_blocks_ssn() {
    let guard = KeywordGuard::new();
    let decision = guard.check_output("Your social_security number is 123-45-6789");
    assert!(is_block(&decision));
}

#[test]
fn test_passes_safe_response() {
    let guard = KeywordGuard::new();
    let decision = guard.check_output("Your balance is $5,000.");
    assert!(is_pass(&decision));
}

#[test]
fn test_extra_keywords() {
    let guard = KeywordGuard::with_extra_keywords(vec!["internal_server".into()]);
    let decision = guard.check_output("Connect to internal_server for details.");
    assert!(is_block(&decision));
}

#[test]
fn test_priority() {
    let guard = KeywordGuard::new();
    assert_eq!(guard.priority(), 10);
}

#[test]
fn agent_scope_guard_test_default() {
    let guard = KeywordGuard::default();
    assert_eq!(guard.name(), "agent_scope_guard");
}

#[test]
fn keyword_guard_ignores_case() {
    let guard = KeywordGuard::new();
    match guard.check_output("Enter your PASSWORD now") {
        GuardrailDecision::Block(reason) => {
            assert_eq!(reason, "Response contains sensitive keyword: 'password'")
        }
        _ => panic!("expected a block"),
    }
}

#[test]
fn llm_guard_redirects_with_scope_message() {
    let guard = LlmScopeGuard::new();
    match guard.check_output("Let me HACK it.", "BankTransfer") {
        GuardrailDecision::Modify(text) => assert_eq!(
            text,
            "I'm not able to help with that request. Let me redirect you to the appropriate assistant."
        ),
        _ => panic!("expected a redirect"),
    }
}

#[test]
fn test_llm_scope_guard_input_always_passes() {
    let guard = LlmScopeGuard::new();
    assert!(is_pass(&guard.check_input("hack the bank")));
}

#[test]
fn test_guard_tool_call_always_passes() {
    let guard = LlmScopeGuard::new();
    assert!(is_pass(&guard.check_tool_call("get_balance")));
}

#[test]
fn test_guard_tool_result_always_passes() {
    let guard = LlmScopeGuard::new();
    assert!(is_pass(&guard.check_tool_result("Balance: $5000")));
}

#[test]
fn test_agent_scope_guard_input_passes() {
    let guard = AgentScopeGuard::banking_default();
    assert!(is_pass(&guard.check_input("I need help with my account")));
    let keyword_guard = KeywordGuard::new();
    assert!(is_pass(&keyword_guard.check_input("my password is hunter2")));
}

#[test]
fn off_topic_block_names_the_phrase() {
    let guard = AgentScopeGuard::banking_default();
    match guard.check_output("I will STEAL MONEY for you") {
        GuardrailDecision::Block(reason) => assert_eq!(reason, "Response contains off-topic content: 'steal money'"),
        _ => panic!("expected a block"),
    }
}
