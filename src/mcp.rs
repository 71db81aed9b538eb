//! The tool server's configuration and its per-tool rules: which policy
//! mode a tool needs and which tools count against the spending budget.
use vstd::prelude::*;
use crate::text::{chars_eq, chars_of};

verus! {

/// How much a caller may change on the account it acts for.
#[derive(Debug, Clone, Copy, PartialEq, Eq, Structural)]
pub enum PolicyMode {
    ReadOnly,
    Engagement,
}

/// One piece of a tool call's result.
#[derive(Debug, Clone, PartialEq, Eq)]
pub struct MCPContent {
    pub content_type: String,
    pub text: String,
}

pub struct MCPServer {
    pub initialized: bool,
    pub policy_mode: PolicyMode,
    pub enforce_budget: bool,
    pub costs_path: String,
    pub reliability_path: String,
}

/// The policy mode a tool needs: engagement for the tools that act on the
/// account (bookmarks, diff, package publish), read-only for the rest.
pub open spec fn required_policy(name: Seq<char>) -> PolicyMode {
    if name == "xint_bookmarks"@ || name == "xint_diff"@ || name == "xint_package_publish"@ {
        PolicyMode::Engagement
    } else {
        PolicyMode::ReadOnly
    }
}

/// The tools whose calls are checked against the budget.
pub open spec fn budget_guarded(name: Seq<char>) -> bool {
    name == "xint_search"@
        || name == "xint_profile"@
        || name == "xint_thread"@
        || name == "xint_tweet"@
        || name == "xint_trends"@
        || name == "xint_xsearch"@
        || name == "xint_collections_list"@
        || name == "xint_collections_search"@
        || name == "xint_analyze"@
        || name == "xint_article"@
        || name == "xint_bookmarks"@
        || name == "xint_watch"@
        || name == "xint_diff"@
        || name == "xint_report"@
        || name == "xint_sentiment"@
        || name == "xint_package_create"@
        || name == "xint_package_query"@
        || name == "xint_package_refresh"@
        || name == "xint_package_search"@
        || name == "xint_package_publish"@
}

fn same(a: &str, lit: &str) -> (r: bool)
    ensures
        r == (a@ == lit@),
{
    let av = chars_of(a);
    let lv = chars_of(lit);
    chars_eq(av.as_slice(), lv.as_slice())
}

impl MCPServer {
    /// A server not yet initialized, with the given policy, budget switch and
    /// ledger paths.
    pub fn new(
        policy_mode: PolicyMode,
        enforce_budget: bool,
        costs_path: String,
        reliability_path: String,
    ) -> (r: MCPServer)
        ensures
            !r.initialized,
            r.policy_mode == policy_mode,
            r.enforce_budget == enforce_budget,
            r.costs_path == costs_path,
            r.reliability_path == reliability_path,
    {
        MCPServer { initialized: false, policy_mode, enforce_budget, costs_path, reliability_path }
    }

    /// Whether a call of tool `name` must first be checked against the
    /// spending budget: only when the budget is enforced and the tool is
    /// guarded.
    pub fn budget_check_needed(&self, name: &str) -> (r: bool)
        ensures
            r == (self.enforce_budget && budget_guarded(name@)),
    {
        self.enforce_budget && Self::tool_budget_guarded(name)
    }

    pub fn tool_required_policy(name: &str) -> (r: PolicyMode)
        ensures
            r == required_policy(name@),
    {
        if same(name, "xint_bookmarks") || same(name, "xint_diff") || same(name, "xint_package_publish") {
            PolicyMode::Engagement
        } else {
            PolicyMode::ReadOnly
        }
    }

    pub fn tool_budget_guarded(name: &str) -> (r: bool)
        ensures
            r == budget_guarded(name@),
    {
        same(name, "xint_search")
            || same(name, "xint_profile")
            || same(name, "xint_thread")
            || same(name, "xint_tweet")
            || same(name, "xint_trends")
            || same(name, "xint_xsearch")
            || same(name, "xint_collections_list")
            || same(name, "xint_collections_search")
            || same(name, "xint_analyze")
            || same(name, "xint_article")
            || same(name, "xint_bookmarks")
            || same(name, "xint_watch")
            || same(name, "xint_diff")
            || same(name, "xint_report")
            || same(name, "xint_sentiment")
            || same(name, "xint_package_create")
            || same(name, "xint_package_query")
            || same(name, "xint_package_refresh")
            || same(name, "xint_package_search")
            || same(name, "xint_package_publish")
    }
}

} // verus!
