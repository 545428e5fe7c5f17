//! Tool that summarises recent account activity for the signed-in user.

use vstd::prelude::*;

use crate::error::UserIdExtension;
use crate::text::{decimal, push_decimal, push_str};
use crate::tools::result::ToolResult;

verus! {

/// Summary of account activity for an authenticated user.
pub struct AccountSummaryTool;

impl AccountSummaryTool {
    pub fn name(&self) -> (r: &'static str)
        ensures
            r@ == "account_summary_tool"@,
    {
        "account_summary_tool"
    }

    pub fn description(&self) -> (r: &'static str)
        ensures
            r@ == "Summarize recent account transactions and balance for the given account type."@,
    {
        "Summarize recent account transactions and balance for the given account type."
    }

    /// Summarize recent account transactions and balance for the given account
    /// type; the user comes from the request identity ("unknown" without one).
    pub fn run(&self, identity: Option<&UserIdExtension>, account_type: &str, limit: u32) -> (r: ToolResult)
        ensures
            !r.is_error,
            r.content@ == "Account summary for user '"@ + (match identity { Some(e) => e.0@, None => "unknown"@ })
                + "': "@ + account_type@ + " account, last "@ + decimal(limit as nat) + " transactions."@,
    {
        let user_id: &str = match identity {
            Some(e) => e.0.as_str(),
            None => "unknown",
        };
        let mut msg = String::new();
        push_str(&mut msg, "Account summary for user '");
        push_str(&mut msg, user_id);
        push_str(&mut msg, "': ");
        push_str(&mut msg, account_type);
        push_str(&mut msg, " account, last ");
        push_decimal(&mut msg, limit as u64);
        push_str(&mut msg, " transactions.");
        assert(msg@ =~= "Account summary for user '"@ + user_id@ + "': "@ + account_type@ + " account, last "@ + decimal(limit as nat) + " transactions."@);
        ToolResult::ok(msg)
    }
}

} // verus!
