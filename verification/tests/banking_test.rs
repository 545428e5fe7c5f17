use lauren_chatbot::banking::db::BankDatabase;

fn dollars(cents: u64) -> f64 {
    cents as f64 / 100.0
}

#[test]
fn test_new_database_has_three_accounts() {
    let db = BankDatabase::new();
    assert_eq!(db.list_accounts().len(), 3);
}

#[test]
fn test_get_balance() {
    let db = BankDatabase::new();
    assert_eq!(db.get_balance("alice").map(dollars), Some(5000.0));
    assert_eq!(db.get_balance("bob").map(dollars), Some(3200.0));
    assert_eq!(db.get_balance("charlie").map(dollars), Some(1800.0));
    assert_eq!(db.get_balance("unknown"), None);
}

#[test]
fn test_get_account() {
    let db = BankDatabase::new();
    let account = db.get_account("alice").unwrap();
    assert_eq!(account.user_id, "alice");
    assert_eq!(account.name, "Alice");
    assert_eq!(dollars(account.balance), 5000.0);
    assert!(db.get_account("unknown").is_none());
}

#[test]
fn test_transfer_success() {
    let mut db = BankDatabase::new();
    let tx = db.transfer("alice", "bob", 50000).unwrap();
    assert_eq!(tx.from_user, "alice");
    assert_eq!(tx.to_user, "bob");
    assert_eq!(dollars(tx.amount), 500.0);
    assert_eq!(db.get_balance("alice").map(dollars), Some(4500.0));
    assert_eq!(db.get_balance("bob").map(dollars), Some(3700.0));
}

#[test]
fn test_transfer_insufficient_funds() {
    let mut db = BankDatabase::new();
    let result = db.transfer("charlie", "alice", 999900);
    assert!(result.is_err());
    assert!(result.unwrap_err().contains("Insufficient funds"));
}

#[test]
fn test_transfer_user_not_found() {
    let mut db = BankDatabase::new();
    let result = db.transfer("unknown", "alice", 10000);
    assert!(result.is_err());
}

#[test]
fn test_transfer_negative_amount() {
    let mut db = BankDatabase::new();
    let result = db.transfer("alice", "bob", -10000);
    assert!(result.is_err());
}

#[test]
fn test_transfer_zero_amount() {
    let mut db = BankDatabase::new();
    let result = db.transfer("alice", "bob", 0);
    assert!(result.is_err());
}

#[test]
fn test_get_transactions_empty() {
    let db = BankDatabase::new();
    assert!(db.get_transactions("alice").is_empty());
}

#[test]
fn db_test_get_transactions_after_transfer() {
    let mut db = BankDatabase::new();
    db.transfer("alice", "bob", 10000).unwrap();
    assert_eq!(db.get_transactions("alice").len(), 1);
    assert_eq!(db.get_transactions("bob").len(), 1);
}

#[test]
fn db_test_default() {
    let db = BankDatabase::default();
    assert_eq!(db.list_accounts().len(), 3);
}

#[test]
fn test_multiple_transfers() {
    let mut db = BankDatabase::new();
    db.transfer("alice", "bob", 10000).unwrap();
    db.transfer("bob", "charlie", 5000).unwrap();
    assert_eq!(db.get_balance("alice").map(dollars), Some(4900.0));
    assert_eq!(db.get_balance("bob").map(dollars), Some(3250.0));
    assert_eq!(db.get_balance("charlie").map(dollars), Some(1850.0));
}

#[test]
fn transfer_errors_name_the_reason_and_change_nothing() {
    let mut db = BankDatabase::new();
    assert_eq!(db.transfer("alice", "bob", 0), Err("Transfer amount must be positive".to_string()));
    assert_eq!(db.transfer("nobody", "bob", 1), Err("User nobody not found".to_string()));
    assert_eq!(db.transfer("alice", "nobody", 1), Err("User nobody not found".to_string()));
    assert_eq!(db.transfer("charlie", "bob", 180001), Err("Insufficient funds".to_string()));
    assert_eq!(db.get_balance("alice"), Some(500000));
    assert_eq!(db.get_balance("bob"), Some(320000));
    assert_eq!(db.get_balance("charlie"), Some(180000));
    assert!(db.get_transactions("alice").is_empty());
}

#[test]
fn transfer_conserves_money_and_records_the_transaction() {
    let mut db = BankDatabase::new();
    let total_before: u64 = db.list_accounts().iter().map(|a| a.balance).sum();
    let tx = db.transfer("charlie", "alice", 180000).unwrap();
    let total_after: u64 = db.list_accounts().iter().map(|a| a.balance).sum();
    assert_eq!(total_before, total_after);
    assert_eq!(db.get_balance("charlie"), Some(0));
    assert!(tx.tx_id.starts_with("TX-"));
    assert_eq!(tx.tx_id.len(), 39);
    assert_eq!(tx.tx_id.as_bytes()[3 + 14], b'4');
    assert_eq!(tx.description, "Transfer from Charlie to Alice");
    assert_eq!(tx.from_name, "Charlie");
    assert_eq!(tx.to_name, "Alice");
    let logged = db.get_transactions("charlie");
    assert_eq!(logged.len(), 1);
    assert_eq!(logged[0].tx_id, tx.tx_id);
}

#[test]
fn transaction_view_depends_on_the_reader() {
    let mut db = BankDatabase::new();
    let tx = db.transfer("alice", "bob", 2500).unwrap();
    let sender = tx.to_view("alice");
    let receiver = tx.to_view("bob");
    assert_eq!(sender.amount, tx.amount);
    assert_eq!(sender.tx_type, "debit");
    assert_eq!(sender.counterparty_id, "bob");
    assert_eq!(sender.counterparty_name, "Bob");
    assert_eq!(receiver.tx_type, "credit");
    assert_eq!(receiver.counterparty_id, "alice");
    assert_eq!(receiver.counterparty_name, "Alice");
    let detail = db.account_detail("bob").unwrap();
    assert_eq!(detail.balance, 322500);
    assert_eq!(detail.transactions.len(), 1);
    assert!(db.account_detail("nobody").is_none());
}
