//! Tool that tells the model whether the session is authenticated.

use vstd::prelude::*;

use crate::text::push_str;
use crate::tools::result::{ToolResult, ToolState};

verus! {

/// Tool to check if the current user is authenticated.
pub struct CheckAuthenticationTool;

impl CheckAuthenticationTool {
    pub fn name(&self) -> (r: &'static str)
        ensures
            r@ == "check_authentication"@,
    {
        "check_authentication"
    }

    pub fn description(&self) -> (r: &'static str)
        ensures
            r@ == "Check if the current user is authenticated"@,
    {
        "Check if the current user is authenticated"
    }

    /// Report the session's authentication status (never an error).
    pub fn call(&self, state: &ToolState) -> (r: ToolResult)
        ensures
            !r.is_error,
            state.auth_uid().len() == 0 ==> r.content@ == "User is NOT authenticated. This is a public/unauthenticated session."@,
            state.auth_uid().len() != 0 ==> r.content@ == "User IS authenticated. User ID: "@ + state.auth_uid(),
    {
        let user_id = state.auth_uid_str();
        if user_id.is_empty() {
            ToolResult::ok("User is NOT authenticated. This is a public/unauthenticated session.".to_owned())
        } else {
            let mut msg = String::new();
            push_str(&mut msg, "User IS authenticated. User ID: ");
            push_str(&mut msg, user_id);
            assert(msg@ =~= "User IS authenticated. User ID: "@ + user_id@);
            ToolResult::ok(msg)
        }
    }
}

} // verus!
