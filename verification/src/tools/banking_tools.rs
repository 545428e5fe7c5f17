//! Banking tools: balance lookup, approved transfers and transaction history,
//! each acting only for the authenticated user.

use vstd::prelude::*;

use crate::approval::service::{token_authorizes, ApprovalService};
use crate::banking::db::BankDatabase;
use crate::banking::models::Transaction;
use crate::text::{join, money, push_money, push_str, str_eq};
use crate::tools::result::{text_or, ToolResult, ToolState};

verus! {

/// The refusal when the caller claims to be someone else.
pub open spec fn access_denied(auth: Seq<char>, user_id: Seq<char>) -> Seq<char> {
    "Access denied: authenticated as '"@ + auth + "', not '"@ + user_id + "'"@
}

/// Why a tool acting for `user_id` is refused in a session of `auth`, if it is.
pub open spec fn identity_refusal(auth: Seq<char>, user_id: Seq<char>) -> Option<Seq<char>> {
    if auth.len() == 0 {
        Some("User not authenticated"@)
    } else if user_id != auth {
        Some(access_denied(auth, user_id))
    } else {
        None
    }
}

fn check_identity<'a>(state: &'a ToolState, user_id: &str) -> (r: Result<&'a str, ToolResult>)
    ensures
        match identity_refusal(state.auth_uid(), user_id@) {
            Some(msg) => r matches Err(t) && t.is_error && t.content@ == msg,
            None => r matches Ok(a) && a@ == state.auth_uid(),
        },
{
    let auth = state.auth_uid_str();
    if auth.is_empty() {
        return Err(ToolResult::error("User not authenticated".to_owned()));
    }
    if !str_eq(user_id, auth) {
        let mut msg = String::new();
        push_str(&mut msg, "Access denied: authenticated as '");
        push_str(&mut msg, auth);
        push_str(&mut msg, "', not '");
        push_str(&mut msg, user_id);
        push_str(&mut msg, "'");
        assert(msg@ =~= access_denied(auth@, user_id@));
        return Err(ToolResult::error(msg));
    }
    Ok(auth)
}

/// Tool to get the account balance for the authenticated user.
pub struct GetBalanceTool;

impl GetBalanceTool {
    pub fn name(&self) -> (r: &'static str)
        ensures
            r@ == "get_balance"@,
    {
        "get_balance"
    }

    /// Get the account balance for the authenticated user.
    pub fn run(&self, db: &BankDatabase, state: &ToolState, user_id: &str) -> (r: ToolResult)
        ensures
            match identity_refusal(state.auth_uid(), user_id@) {
                Some(msg) => r.is_error && r.content@ == msg,
                None => match db@.balance_of(state.auth_uid()) {
                    Some(b) => !r.is_error && r.content@ == "Balance: $"@ + money(b as nat),
                    None => r.is_error && r.content@ == "Account not found"@,
                },
            },
    {
        let auth = match check_identity(state, user_id) {
            Ok(a) => a,
            Err(t) => return t,
        };
        match db.get_balance(auth) {
            Some(balance) => {
                let mut msg = String::new();
                push_str(&mut msg, "Balance: $");
                push_money(&mut msg, balance);
                assert(msg@ =~= "Balance: $"@ + money(balance as nat));
                ToolResult::ok(msg)
            },
            None => ToolResult::error("Account not found".to_owned()),
        }
    }
}

/// Balances after a completed transfer, for the clients that display them (cents).
#[derive(Debug)]
pub struct BalanceChange {
    pub from_user: String,
    pub to_user: String,
    pub amount: u64,
    pub from_balance: u64,
    pub to_balance: u64,
}

/// What the transfer tool hands back: the tool result, and the new balances when
/// money moved.
#[derive(Debug)]
pub struct TransferToolOutcome {
    pub result: ToolResult,
    pub balance_change: Option<BalanceChange>,
}

/// Why a transfer request is refused before any approval is looked at.
pub open spec fn transfer_refusal(auth: Seq<char>, user_id: Seq<char>, to_user: Seq<char>, amount: int) -> Option<Seq<char>> {
    match identity_refusal(auth, user_id) {
        Some(msg) => Some(msg),
        None => if to_user.len() == 0 {
            Some("Recipient user ID is required"@)
        } else if amount <= 0 {
            Some("Transfer amount must be positive"@)
        } else {
            None
        },
    }
}

/// The reply when no matching approval token exists.
pub open spec fn approval_required_message() -> Seq<char> {
    "Error: Transfer requires prior approval. Use the approval tool first."@
}

/// Tool to transfer funds between accounts (requires one-shot approval).
pub struct TransferFundsTool;

impl TransferFundsTool {
    pub fn name(&self) -> (r: &'static str)
        ensures
            r@ == "transfer_funds"@,
    {
        "transfer_funds"
    }

    /// Transfer `amount` cents from the authenticated user's account to `to_user`.
    /// The conversation's approval token is consumed; the money moves only when
    /// that token approved exactly this recipient and amount.
    pub fn run(
        &self,
        db: &mut BankDatabase,
        approvals: &mut ApprovalService,
        state: &ToolState,
        user_id: &str,
        to_user: &str,
        amount: i64,
    ) -> (r: TransferToolOutcome)
        ensures
            ({
                let auth = state.auth_uid();
                let conv = text_or(state.conversation_id, ""@);
                let token_ok = token_authorizes(old(approvals)@.approved, conv, to_user@, amount as int);
                match transfer_refusal(auth, user_id@, to_user@, amount as int) {
                    Some(msg) => r.result.is_error && r.result.content@ == msg && r.balance_change is None
                        && final(db)@ == old(db)@ && final(approvals)@ == old(approvals)@,
                    None => {
                        &&& final(approvals)@.approved == old(approvals)@.approved.remove(conv)
                        &&& final(approvals)@.pending == old(approvals)@.pending
                        &&& !token_ok ==> (!r.result.is_error && r.result.content@ == approval_required_message()
                            && r.balance_change is None && final(db)@ == old(db)@)
                        &&& token_ok ==> match old(db)@.transfer_error(auth, to_user@, amount as u64) {
                            Some(e) => r.result.is_error && r.result.content@ == "Transfer failed: "@ + e
                                && r.balance_change is None && final(db)@ == old(db)@,
                            None => {
                                let tx = final(db)@.transactions.last();
                                &&& final(db)@.accounts == old(db)@.transfer_accounts(auth, to_user@, amount as u64)
                                &&& final(db)@.transactions == old(db)@.transactions.push(tx)
                                &&& old(db)@.records_transfer(auth, to_user@, amount as u64, tx)
                                &&& !r.result.is_error
                                &&& r.result.content@ == "Transfer successful: "@ + tx.description@
                                &&& r.balance_change matches Some(c) && c.from_user@ == auth && c.to_user@ == to_user@
                                    && c.amount == amount && Some(c.from_balance) == final(db)@.balance_of(auth)
                                    && Some(c.to_balance) == final(db)@.balance_of(to_user@)
                            },
                        }
                    },
                }
            }),
    {
        let auth = match check_identity(state, user_id) {
            Ok(a) => a,
            Err(t) => return TransferToolOutcome { result: t, balance_change: None },
        };
        if to_user.is_empty() {
            return TransferToolOutcome {
                result: ToolResult::error("Recipient user ID is required".to_owned()),
                balance_change: None,
            };
        }
        if amount <= 0 {
            return TransferToolOutcome {
                result: ToolResult::error("Transfer amount must be positive".to_owned()),
                balance_change: None,
            };
        }
        let cents = amount as u64;
        let conv_id = state.conversation_or("");
        let token = approvals.get_approved_transfer(conv_id);
        let approved = match &token {
            Some(t) => str_eq(t.to_user.as_str(), to_user) && t.amount == cents,
            None => false,
        };
        if !approved {
            return TransferToolOutcome {
                result: ToolResult::ok(
                    "Error: Transfer requires prior approval. Use the approval tool first.".to_owned(),
                ),
                balance_change: None,
            };
        }
        match db.transfer(auth, to_user, amount) {
            Ok(tx) => {
                proof {
                    assert(db@.transactions.last() == tx);
                }
                let from_balance = db.get_balance(auth);
                let to_balance = db.get_balance(to_user);
                let mut msg = String::new();
                push_str(&mut msg, "Transfer successful: ");
                push_str(&mut msg, tx.description.as_str());
                assert(msg@ =~= "Transfer successful: "@ + tx.description@);
                let change = BalanceChange {
                    from_user: auth.to_owned(),
                    to_user: to_user.to_owned(),
                    amount: cents,
                    from_balance: from_balance.unwrap_or(0),
                    to_balance: to_balance.unwrap_or(0),
                };
                TransferToolOutcome { result: ToolResult::ok(msg), balance_change: Some(change) }
            },
            Err(e) => {
                let mut msg = String::new();
                push_str(&mut msg, "Transfer failed: ");
                push_str(&mut msg, e.as_str());
                assert(msg@ =~= "Transfer failed: "@ + e@);
                TransferToolOutcome { result: ToolResult::error(msg), balance_change: None }
            },
        }
    }
}

/// One line of the transaction history.
pub open spec fn history_line(t: Transaction) -> Seq<char> {
    t.timestamp@ + ": "@ + t.description@ + " ($"@ + money(t.amount as nat) + ") - "@ + t.to_name@
}

/// The history lines of a list of transactions.
pub open spec fn history_lines(txs: Seq<Transaction>) -> Seq<Seq<char>> {
    Seq::new(txs.len(), |k: int| history_line(txs[k]))
}

/// Tool to get transaction history for the authenticated user.
pub struct GetTransactionHistoryTool;

impl GetTransactionHistoryTool {
    pub fn name(&self) -> (r: &'static str)
        ensures
            r@ == "get_transaction_history"@,
    {
        "get_transaction_history"
    }

    /// Get transaction history for the authenticated user, one line per transaction.
    pub fn run(&self, db: &BankDatabase, state: &ToolState, user_id: &str) -> (r: ToolResult)
        ensures
            match identity_refusal(state.auth_uid(), user_id@) {
                Some(msg) => r.is_error && r.content@ == msg,
                None => !r.is_error && if db@.transactions_of(state.auth_uid()).len() == 0 {
                    r.content@ == "No transactions found."@
                } else {
                    r.content@ == join(history_lines(db@.transactions_of(state.auth_uid())), "\n"@)
                },
            },
    {
        let auth = match check_identity(state, user_id) {
            Ok(a) => a,
            Err(t) => return t,
        };
        let txs = db.get_transactions(auth);
        if txs.len() == 0 {
            return ToolResult::ok("No transactions found.".to_owned());
        }
        let ghost lines = history_lines(txs@);
        let mut out = String::new();
        let mut i: usize = 0;
        while i < txs.len()
            invariant
                i <= txs@.len(),
                lines == history_lines(txs@),
                out@ == join(lines.take(i as int), "\n"@),
            decreases txs.len() - i,
        {
            let t = &txs[i];
            let ghost before = out@;
            if i > 0 {
                push_str(&mut out, "\n");
            }
            push_str(&mut out, t.timestamp.as_str());
            push_str(&mut out, ": ");
            push_str(&mut out, t.description.as_str());
            push_str(&mut out, " ($");
            push_money(&mut out, t.amount);
            push_str(&mut out, ") - ");
            push_str(&mut out, t.to_name.as_str());
            proof {
                let next = lines.take(i + 1);
                assert(next.drop_last() =~= lines.take(i as int));
                assert(next.last() == history_line(txs@[i as int]));
                if i == 0 {
                    assert(out@ =~= history_line(txs@[i as int]));
                    assert(next.len() == 1);
                } else {
                    assert(out@ =~= before + "\n"@ + history_line(txs@[i as int]));
                }
            }
            i = i + 1;
        }
        assert(lines.take(i as int) =~= lines);
        ToolResult::ok(out)
    }
}

} // verus!
