//! Maps an MCP tool name to the route that serves it.
use vstd::prelude::*;
use crate::action_result::{action_error, action_success, ActionExecutionResult, ActionResultType};
use crate::text::{chars_eq, chars_of};

verus! {

#[derive(Debug, Clone, Copy, PartialEq, Eq, Structural)]
pub enum McpToolRoute {
    Search,
    Profile,
    Thread,
    Tweet,
    Trends,
    XSearch,
    CollectionsList,
    Analyze,
    Article,
    CollectionsSearch,
    Bookmarks,
    PackageCreate,
    PackageStatus,
    PackageQuery,
    PackageRefresh,
    PackageSearch,
    PackagePublish,
    CacheClear,
    Watch,
    Diff,
    Report,
    Sentiment,
    Costs,
}

/// The route of each known tool name.
pub open spec fn route_of(name: Seq<char>) -> Option<McpToolRoute> {
    if name == "xint_search"@ {
        Some(McpToolRoute::Search)
    } else if name == "xint_profile"@ {
        Some(McpToolRoute::Profile)
    } else if name == "xint_thread"@ {
        Some(McpToolRoute::Thread)
    } else if name == "xint_tweet"@ {
        Some(McpToolRoute::Tweet)
    } else if name == "xint_trends"@ {
        Some(McpToolRoute::Trends)
    } else if name == "xint_xsearch"@ {
        Some(McpToolRoute::XSearch)
    } else if name == "xint_collections_list"@ {
        Some(McpToolRoute::CollectionsList)
    } else if name == "xint_analyze"@ {
        Some(McpToolRoute::Analyze)
    } else if name == "xint_article"@ {
        Some(McpToolRoute::Article)
    } else if name == "xint_collections_search"@ {
        Some(McpToolRoute::CollectionsSearch)
    } else if name == "xint_bookmarks"@ {
        Some(McpToolRoute::Bookmarks)
    } else if name == "xint_package_create"@ {
        Some(McpToolRoute::PackageCreate)
    } else if name == "xint_package_status"@ {
        Some(McpToolRoute::PackageStatus)
    } else if name == "xint_package_query"@ {
        Some(McpToolRoute::PackageQuery)
    } else if name == "xint_package_refresh"@ {
        Some(McpToolRoute::PackageRefresh)
    } else if name == "xint_package_search"@ {
        Some(McpToolRoute::PackageSearch)
    } else if name == "xint_package_publish"@ {
        Some(McpToolRoute::PackagePublish)
    } else if name == "xint_cache_clear"@ {
        Some(McpToolRoute::CacheClear)
    } else if name == "xint_watch"@ {
        Some(McpToolRoute::Watch)
    } else if name == "xint_diff"@ {
        Some(McpToolRoute::Diff)
    } else if name == "xint_report"@ {
        Some(McpToolRoute::Report)
    } else if name == "xint_sentiment"@ {
        Some(McpToolRoute::Sentiment)
    } else if name == "xint_costs"@ {
        Some(McpToolRoute::Costs)
    } else {
        None
    }
}

fn same(a: &str, lit: &str) -> (r: bool)
    ensures
        r == (a@ == lit@),
{
    let av = chars_of(a);
    let lv = chars_of(lit);
    chars_eq(av.as_slice(), lv.as_slice())
}

/// The route serving tool `name`, or an error naming the unknown tool.
pub fn resolve_tool_route(name: &str) -> (r: ActionExecutionResult<McpToolRoute>)
    ensures
        r.data == route_of(name@),
        route_of(name@) is Some ==> r.result_type == ActionResultType::Success && r.message@ == "tool route resolved"@,
        route_of(name@) is None ==> r.result_type == ActionResultType::Error && r.message@ == "Unknown tool: "@ + name@,
{
    if same(name, "xint_search") {
        return action_success("tool route resolved", Some(McpToolRoute::Search));
    }
    if same(name, "xint_profile") {
        return action_success("tool route resolved", Some(McpToolRoute::Profile));
    }
    if same(name, "xint_thread") {
        return action_success("tool route resolved", Some(McpToolRoute::Thread));
    }
    if same(name, "xint_tweet") {
        return action_success("tool route resolved", Some(McpToolRoute::Tweet));
    }
    if same(name, "xint_trends") {
        return action_success("tool route resolved", Some(McpToolRoute::Trends));
    }
    if same(name, "xint_xsearch") {
        return action_success("tool route resolved", Some(McpToolRoute::XSearch));
    }
    if same(name, "xint_collections_list") {
        return action_success("tool route resolved", Some(McpToolRoute::CollectionsList));
    }
    if same(name, "xint_analyze") {
        return action_success("tool route resolved", Some(McpToolRoute::Analyze));
    }
    if same(name, "xint_article") {
        return action_success("tool route resolved", Some(McpToolRoute::Article));
    }
    if same(name, "xint_collections_search") {
        return action_success("tool route resolved", Some(McpToolRoute::CollectionsSearch));
    }
    if same(name, "xint_bookmarks") {
        return action_success("tool route resolved", Some(McpToolRoute::Bookmarks));
    }
    if same(name, "xint_package_create") {
        return action_success("tool route resolved", Some(McpToolRoute::PackageCreate));
    }
    if same(name, "xint_package_status") {
        return action_success("tool route resolved", Some(McpToolRoute::PackageStatus));
    }
    if same(name, "xint_package_query") {
        return action_success("tool route resolved", Some(McpToolRoute::PackageQuery));
    }
    if same(name, "xint_package_refresh") {
        return action_success("tool route resolved", Some(McpToolRoute::PackageRefresh));
    }
    if same(name, "xint_package_search") {
        return action_success("tool route resolved", Some(McpToolRoute::PackageSearch));
    }
    if same(name, "xint_package_publish") {
        return action_success("tool route resolved", Some(McpToolRoute::PackagePublish));
    }
    if same(name, "xint_cache_clear") {
        return action_success("tool route resolved", Some(McpToolRoute::CacheClear));
    }
    if same(name, "xint_watch") {
        return action_success("tool route resolved", Some(McpToolRoute::Watch));
    }
    if same(name, "xint_diff") {
        return action_success("tool route resolved", Some(McpToolRoute::Diff));
    }
    if same(name, "xint_report") {
        return action_success("tool route resolved", Some(McpToolRoute::Report));
    }
    if same(name, "xint_sentiment") {
        return action_success("tool route resolved", Some(McpToolRoute::Sentiment));
    }
    if same(name, "xint_costs") {
        return action_success("tool route resolved", Some(McpToolRoute::Costs));
    }
    let mut message = String::from_str("Unknown tool: ");
    message.append(name);
    action_error(message.as_str())
}

} // verus!
