use lauren_chatbot::approval::service::ApprovalService;
use lauren_chatbot::banking::db::BankDatabase;
use lauren_chatbot::error::UserIdExtension;
use lauren_chatbot::knowledge::PublicKnowledgeBase;
use lauren_chatbot::tools::account_summary_tool::AccountSummaryTool;
use lauren_chatbot::tools::banking_tools::{GetBalanceTool, GetTransactionHistoryTool, TransferFundsTool};
use lauren_chatbot::tools::check_auth::CheckAuthenticationTool;
use lauren_chatbot::tools::hooks::{
    AfterHookDecision, AuditLogHook, AuthRequiredHook, BeforeHookDecision, IdorGuardHook, ToolAuditEvent,
    ToolExecutionStatus,
};
use lauren_chatbot::tools::knowledge_tool::SearchPublicInfoTool;
use lauren_chatbot::tools::result::ToolState;

fn ctx(user: &str) -> ToolState {
    ToolState { identity: None, user_id: Some(user.to_string()), conversation_id: Some("conv1".to_string()) }
}

fn knowledge_base() -> PublicKnowledgeBase {
    PublicKnowledgeBase::new(
        "# Products\nOur savings account pays interest monthly. A checking account has no minimum.".into(),
        "# Fees\nMonthly account fee is waived with direct deposit. Wire fee applies.".into(),
        "# Branches\nEvery branch opens at 9am on weekdays.".into(),
        "# Security\nWe protect your account with two-factor security.".into(),
        "# Opening an account\nBring identification to any branch for account opening.".into(),
    )
}

#[test]
fn test_get_balance_authenticated() {
    let db = BankDatabase::new();
    let result = GetBalanceTool.run(&db, &ctx("alice"), "alice");
    assert!(!result.is_error);
    assert!(result.content.contains("5000"));
    assert_eq!(result.content, "Balance: $5000.00");
}

#[test]
fn test_get_balance_unauthenticated() {
    let db = BankDatabase::new();
    let result = GetBalanceTool.run(&db, &ctx(""), "alice");
    assert!(result.is_error);
    assert!(result.content.contains("not authenticated"));
}

#[test]
fn test_get_balance_mismatched_user_id() {
    let db = BankDatabase::new();
    let result = GetBalanceTool.run(&db, &ctx("alice"), "bob");
    assert!(result.is_error);
    assert!(result.content.contains("Access denied"));
    assert!(result.content.contains("alice"));
}

#[test]
fn test_get_balance_unknown_user() {
    let db = BankDatabase::new();
    let result = GetBalanceTool.run(&db, &ctx("unknown"), "unknown");
    assert!(result.is_error);
    assert!(result.content.contains("not found"));
}

#[test]
fn test_transfer_funds_without_approval() {
    let mut db = BankDatabase::new();
    let mut approvals = ApprovalService::new();
    let outcome = TransferFundsTool.run(&mut db, &mut approvals, &ctx("alice"), "alice", "bob", 10000);
    assert!(!outcome.result.is_error);
    assert!(outcome.result.content.contains("approval"));
    assert!(outcome.balance_change.is_none());
    assert_eq!(db.get_balance("alice"), Some(500000));
}

#[test]
fn test_transfer_funds_with_approval() {
    let mut db = BankDatabase::new();
    let mut approvals = ApprovalService::new();
    approvals.mark_approved("conv1", "bob", 10000);
    let outcome = TransferFundsTool.run(&mut db, &mut approvals, &ctx("alice"), "alice", "bob", 10000);
    assert!(!outcome.result.is_error);
    assert!(outcome.result.content.contains("successful"));
    let change = outcome.balance_change.unwrap();
    assert_eq!(change.from_balance, 490000);
    assert_eq!(change.to_balance, 330000);
    assert!(approvals.get_approved_transfer("conv1").is_none());
}

#[test]
fn test_transfer_funds_unauthenticated() {
    let mut db = BankDatabase::new();
    let mut approvals = ApprovalService::new();
    let outcome = TransferFundsTool.run(&mut db, &mut approvals, &ctx(""), "alice", "bob", 10000);
    assert!(outcome.result.is_error);
    assert!(outcome.result.content.contains("not authenticated"));
}

#[test]
fn test_transfer_funds_mismatched_user_id() {
    let mut db = BankDatabase::new();
    let mut approvals = ApprovalService::new();
    let outcome = TransferFundsTool.run(&mut db, &mut approvals, &ctx("alice"), "charlie", "bob", 10000);
    assert!(outcome.result.is_error);
    assert!(outcome.result.content.contains("Access denied"));
}

#[test]
fn transfer_token_must_match_recipient_and_amount() {
    let mut db = BankDatabase::new();
    let mut approvals = ApprovalService::new();
    approvals.mark_approved("conv1", "bob", 10000);
    let outcome = TransferFundsTool.run(&mut db, &mut approvals, &ctx("alice"), "alice", "bob", 20000);
    assert_eq!(outcome.result.content, "Error: Transfer requires prior approval. Use the approval tool first.");
    assert!(approvals.get_approved_transfer("conv1").is_none());
    assert_eq!(db.get_balance("bob"), Some(320000));
}

#[test]
fn transfer_refusals_before_approval() {
    let mut db = BankDatabase::new();
    let mut approvals = ApprovalService::new();
    let no_recipient = TransferFundsTool.run(&mut db, &mut approvals, &ctx("alice"), "alice", "", 100);
    assert_eq!(no_recipient.result.content, "Recipient user ID is required");
    let negative = TransferFundsTool.run(&mut db, &mut approvals, &ctx("alice"), "alice", "bob", -5);
    assert_eq!(negative.result.content, "Transfer amount must be positive");
    assert!(negative.result.is_error);
}

#[test]
fn test_transaction_history_no_transactions() {
    let db = BankDatabase::new();
    let result = GetTransactionHistoryTool.run(&db, &ctx("alice"), "alice");
    assert!(!result.is_error);
    assert!(result.content.contains("No transactions"));
}

#[test]
fn test_transaction_history_unauthenticated() {
    let db = BankDatabase::new();
    let result = GetTransactionHistoryTool.run(&db, &ctx(""), "alice");
    assert!(result.is_error);
    assert!(result.content.contains("not authenticated"));
}

#[test]
fn test_transaction_history_mismatched_user_id() {
    let db = BankDatabase::new();
    let result = GetTransactionHistoryTool.run(&db, &ctx("alice"), "bob");
    assert!(result.is_error);
    assert!(result.content.contains("Access denied"));
}

#[test]
fn transaction_history_lists_each_transfer() {
    let mut db = BankDatabase::new();
    let tx = db.transfer("alice", "bob", 12345).unwrap();
    let result = GetTransactionHistoryTool.run(&db, &ctx("bob"), "bob");
    assert!(!result.is_error);
    assert_eq!(result.content, format!("{}: Transfer from Alice to Bob ($123.45) - Bob", tx.timestamp));
}

#[test]
fn test_tool_names_and_schemas() {
    assert_eq!(GetBalanceTool.name(), "get_balance");
    assert_eq!(TransferFundsTool.name(), "transfer_funds");
    assert_eq!(GetTransactionHistoryTool.name(), "get_transaction_history");
}

#[test]
fn test_check_auth_authenticated() {
    let result = CheckAuthenticationTool.call(&ToolState { identity: None, user_id: Some("alice".into()), conversation_id: None });
    assert!(!result.is_error);
    assert!(result.content.contains("IS authenticated"));
    assert_eq!(result.content, "User IS authenticated. User ID: alice");
}

#[test]
fn test_check_auth_unauthenticated() {
    let result = CheckAuthenticationTool.call(&ToolState { identity: None, user_id: None, conversation_id: None });
    assert!(!result.is_error);
    assert!(result.content.contains("NOT authenticated"));
}

#[test]
fn test_search_found() {
    let kb = knowledge_base();
    let result = SearchPublicInfoTool.call(&kb, Some("savings account"));
    assert!(!result.is_error);
    assert!(!result.content.is_empty());
    assert!(result.content.starts_with("**product_catalog**\n# Products"));
}

#[test]
fn test_search_not_found() {
    let kb = knowledge_base();
    let result = SearchPublicInfoTool.call(&kb, Some("quantum computing algorithms"));
    assert!(!result.is_error);
    assert!(result.content.contains("No relevant"));
}

#[test]
fn test_search_empty_query() {
    let kb = knowledge_base();
    let result = SearchPublicInfoTool.call(&kb, Some(""));
    assert!(result.is_error);
    let missing = SearchPublicInfoTool.call(&kb, None);
    assert_eq!(missing.content, "Query is required");
}

#[test]
fn account_summary_tool_call_with_valid_input() {
    let ext = UserIdExtension("alice".to_string());
    let result = AccountSummaryTool.run(Some(&ext), "savings", 5);
    assert!(!result.is_error);
    assert!(result.content.contains("alice"));
    assert!(result.content.contains("savings"));
    assert!(result.content.contains("5"));
    assert_eq!(result.content, "Account summary for user 'alice': savings account, last 5 transactions.");
}

#[test]
fn account_summary_tool_name_and_description() {
    assert_eq!(AccountSummaryTool.name(), "account_summary_tool");
    assert!(!AccountSummaryTool.description().is_empty(), "description should come from docstring");
}

#[test]
fn account_summary_without_identity_names_unknown() {
    let result = AccountSummaryTool.run(None, "checking", 12);
    assert_eq!(result.content, "Account summary for user 'unknown': checking account, last 12 transactions.");
}

#[test]
fn auth_hook_passes_when_user_authenticated() {
    let ext = UserIdExtension("alice".into());
    assert!(matches!(AuthRequiredHook.before(Some(&ext)), BeforeHookDecision::Proceed));
}

#[test]
fn auth_hook_blocks_when_no_user_extension() {
    match AuthRequiredHook.before(None) {
        BeforeHookDecision::ReturnEarly(r) => {
            assert!(r.is_error);
            assert!(r.content.contains("not authenticated"));
        }
        other => panic!("expected ReturnEarly, got {other:?}"),
    }
}

#[test]
fn auth_hook_after_always_passes() {
    assert!(matches!(AuthRequiredHook.after(), AfterHookDecision::Return));
}

#[test]
fn idor_hook_passes_when_user_ids_match() {
    let hook = IdorGuardHook { user_id_field: "user_id" };
    let ext = UserIdExtension("alice".into());
    assert!(matches!(hook.before(Some(&ext), Some("alice")), BeforeHookDecision::Proceed));
}

#[test]
fn idor_hook_blocks_when_user_ids_mismatch() {
    let hook = IdorGuardHook { user_id_field: "user_id" };
    let ext = UserIdExtension("alice".into());
    match hook.before(Some(&ext), Some("bob")) {
        BeforeHookDecision::ReturnEarly(r) => {
            assert!(r.is_error);
            assert!(r.content.contains("Unauthorized"), "should say Unauthorized: {}", r.content);
        }
        other => panic!("expected ReturnEarly, got {other:?}"),
    }
}

#[test]
fn idor_hook_blocks_when_no_extension() {
    let hook = IdorGuardHook { user_id_field: "user_id" };
    match hook.before(None, Some("alice")) {
        BeforeHookDecision::ReturnEarly(r) => assert!(r.content.contains("not authenticated")),
        other => panic!("expected ReturnEarly, got {other:?}"),
    }
}

#[test]
fn idor_hook_passes_when_input_user_id_absent() {
    let hook = IdorGuardHook { user_id_field: "user_id" };
    let ext = UserIdExtension("alice".into());
    assert!(matches!(hook.before(Some(&ext), None), BeforeHookDecision::Proceed));
}

#[test]
fn audit_hook_emits_tool_call_started_with_user_identity() {
    match AuditLogHook.before("get_balance", "tu-1", Some("conv-test")) {
        ToolAuditEvent::Started { tool_name, tool_use_id, conversation_id } => {
            assert_eq!(tool_name, "get_balance");
            assert_eq!(tool_use_id, "tu-1");
            assert_eq!(conversation_id, "conv-test");
        }
        other => panic!("expected ToolCallStarted, got {other:?}"),
    }
}

#[test]
fn audit_hook_emits_tool_call_complete_after_success() {
    match AuditLogHook.after("get_balance", "tu-1", Some("conv-test"), 42, &ToolExecutionStatus::Success) {
        ToolAuditEvent::Complete { tool_name, duration_ms, success, error, .. } => {
            assert_eq!(tool_name, "get_balance");
            assert_eq!(duration_ms, 42);
            assert!(success);
            assert!(error.is_none());
        }
        other => panic!("expected ToolCallComplete, got {other:?}"),
    }
}

#[test]
fn audit_hook_emits_failure_signal_on_tool_error() {
    let status = ToolExecutionStatus::Error("transfer failed".into());
    match AuditLogHook.after("transfer_funds", "tu-2", Some("conv-test"), 10, &status) {
        ToolAuditEvent::Complete { success, error, .. } => {
            assert!(!success);
            assert_eq!(error, Some("transfer failed".to_string()));
        }
        other => panic!("expected ToolCallComplete, got {other:?}"),
    }
}

#[test]
fn audit_hook_records_correct_conversation_id_regardless_of_user() {
    match AuditLogHook.before("search", "tu-3", Some("conv-test")) {
        ToolAuditEvent::Started { conversation_id, .. } => assert_eq!(conversation_id, "conv-test"),
        other => panic!("expected ToolCallStarted, got {other:?}"),
    }
}

#[test]
fn audit_hook_proceeds_silently_in_empty_context() {
    match AuditLogHook.before("get_balance", "tu-4", None) {
        ToolAuditEvent::Started { conversation_id, .. } => assert_eq!(conversation_id, ""),
        other => panic!("expected ToolCallStarted, got {other:?}"),
    }
}

#[test]
fn composed_hooks_both_pass_for_correct_user() {
    let ext = UserIdExtension("alice".into());
    let idor = IdorGuardHook { user_id_field: "user_id" };
    assert!(matches!(AuthRequiredHook.before(Some(&ext)), BeforeHookDecision::Proceed));
    assert!(matches!(idor.before(Some(&ext), Some("alice")), BeforeHookDecision::Proceed));
}

#[test]
fn auth_hook_short_circuits_before_idor_check() {
    let empty = UserIdExtension(String::new());
    match AuthRequiredHook.before(Some(&empty)) {
        BeforeHookDecision::ReturnEarly(r) => assert!(r.content.contains("not authenticated")),
        other => panic!("auth hook should short-circuit: {other:?}"),
    }
}

#[test]
fn test_get_balance_tool_returns_alice_balance() {
    let db = BankDatabase::new();
    let state = ToolState { identity: Some(UserIdExtension("alice".to_string())), user_id: None, conversation_id: None };
    let result = GetBalanceTool.run(&db, &state, "alice");
    assert!(!result.is_error, "expected success, got: {}", result.content);
    assert!(result.content.contains("5000"), "alice balance should be 5000, got: {}", result.content);
}

#[test]
fn test_get_balance_tool_for_unknown_user_returns_error() {
    let db = BankDatabase::new();
    let state = ToolState { identity: Some(UserIdExtension("nobody_xyz".to_string())), user_id: None, conversation_id: None };
    let result = GetBalanceTool.run(&db, &state, "nobody_xyz");
    assert!(result.is_error, "expected error for unknown user");
}

#[test]
fn test_get_balance_tool_without_user_id_returns_error() {
    let db = BankDatabase::new();
    let state = ToolState { identity: None, user_id: None, conversation_id: None };
    let result = GetBalanceTool.run(&db, &state, "alice");
    assert!(result.is_error, "expected error when no user_id in ctx state");
}

#[test]
fn test_transfer_tool_requires_prior_approval() {
    let mut db = BankDatabase::new();
    let mut approvals = ApprovalService::new();
    let state = ToolState { identity: Some(UserIdExtension("alice".to_string())), user_id: None, conversation_id: None };
    let outcome = TransferFundsTool.run(&mut db, &mut approvals, &state, "alice", "bob", 10000);
    assert!(!outcome.result.is_error, "expected a message (not error) requiring approval");
    let lower = outcome.result.content.to_lowercase();
    assert!(lower.contains("approval") || lower.contains("approved"), "expected approval message, got: {}", outcome.result.content);
}

#[test]
fn attached_identity_outranks_state_user() {
    let db = BankDatabase::new();
    let state = ToolState { identity: Some(UserIdExtension("bob".to_string())), user_id: Some("alice".into()), conversation_id: None };
    let denied = GetBalanceTool.run(&db, &state, "alice");
    assert_eq!(denied.content, "Access denied: authenticated as 'bob', not 'alice'");
    let empty = ToolState { identity: Some(UserIdExtension(String::new())), user_id: Some("alice".into()), conversation_id: None };
    assert_eq!(GetBalanceTool.run(&db, &empty, "alice").content, "Balance: $5000.00");
}
