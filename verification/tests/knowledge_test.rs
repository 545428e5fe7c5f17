use lauren_chatbot::knowledge::sources::PublicKnowledgeBase as SourceBase;
use lauren_chatbot::knowledge::PublicKnowledgeBase;

fn catalog() -> PublicKnowledgeBase {
    PublicKnowledgeBase::new(
        "# Products\nOur savings account pays interest monthly. A checking account has no minimum.".into(),
        "# Fees\nMonthly account fee is waived with direct deposit. Wire fee applies.".into(),
        "# Branches\nEvery branch opens at 9am on weekdays.".into(),
        "# Security\nWe protect your account with two-factor security.".into(),
        "# Opening an account\nBring identification to any branch for account opening.".into(),
    )
}

fn sources() -> SourceBase {
    SourceBase::new(
        "Use strong passwords and enable two-factor authentication.".into(),
        "Daily transfer limit is $10,000.".into(),
        "File a dispute within 60 days.".into(),
        "No monthly maintenance fee on premium accounts.".into(),
        "Answers to common questions.".into(),
    )
}

#[test]
fn test_knowledge_base_creation() {
    let kb = catalog();
    assert_eq!(kb.len(), 5);
}

#[test]
fn test_knowledge_base_search() {
    let kb = catalog();
    let results = kb.search("savings account", 3);
    assert!(!results.is_empty());
    assert_eq!(results[0].id, "product_catalog");
}

#[test]
fn test_knowledge_base_search_no_match() {
    let kb = catalog();
    let results = kb.search("quantum physics", 3);
    assert!(results.is_empty());
}

#[test]
fn test_knowledge_base_search_top_k() {
    let kb = catalog();
    let results = kb.search("account", 2);
    assert!(results.len() <= 2);
    assert_eq!(results.len(), 2);
}

#[test]
fn search_ranks_by_shared_words_then_document_order() {
    let kb = catalog();
    let results = kb.search("account fee branch", 5);
    let ids: Vec<&str> = results.iter().map(|d| d.id.as_str()).collect();
    assert_eq!(ids, vec!["fee_schedule", "account_opening_guide", "product_catalog", "branch_hours", "security_practices"]);
}

#[test]
fn search_with_zero_limit_returns_nothing() {
    let kb = catalog();
    assert!(kb.search("account", 0).is_empty());
}

#[test]
fn test_knowledge_base_loads() {
    let kb = sources();
    assert_eq!(kb.documents().len(), 5);
}

#[test]
fn test_search_documents() {
    let kb = sources();
    let results = kb.search("security");
    assert!(!results.is_empty());
    assert_eq!(results[0].id, "kb-001");
}

#[test]
fn test_get_document_by_id() {
    let kb = sources();
    let doc = kb.get("kb-001");
    assert!(doc.is_some());
    assert_eq!(doc.unwrap().title, "Account Security");
}

#[test]
fn test_get_nonexistent_document() {
    let kb = sources();
    assert!(kb.get("kb-999").is_none());
}

#[test]
fn source_search_matches_title_or_content_ignoring_case() {
    let kb = sources();
    let ids: Vec<&str> = kb.search("FEE").iter().map(|d| d.id.as_str()).collect();
    assert_eq!(ids, vec!["kb-004"]);
    let ids: Vec<&str> = kb.search("dispute").iter().map(|d| d.id.as_str()).collect();
    assert_eq!(ids, vec!["kb-003"]);
}

#[test]
fn test_knowledge_base_search_finds_savings_account_info() {
    let kb = catalog();
    let results = kb.search("savings account", 3);
    assert!(!results.is_empty(), "savings account query must return results");
    assert!(results.len() <= 3, "top_k respected");
}

#[test]
fn test_knowledge_base_search_empty_for_nonsense_query() {
    let kb = catalog();
    let results = kb.search("xyzzy quantum entanglement photon", 3);
    assert!(results.is_empty(), "nonsense query must return nothing");
}

#[test]
fn test_knowledge_base_search_respects_top_k_limit() {
    let kb = catalog();
    let results = kb.search("account fee branch security opening", 2);
    assert!(results.len() <= 2, "top_k=2 must be respected");
}

#[test]
fn test_knowledge_base_has_multiple_documents() {
    let kb = catalog();
    let results = kb.search("account fee branch security opening", 10);
    assert!(results.len() >= 3, "expected at least 3 matching docs for broad query, got {}", results.len());
}
