use xint_console::action_result::{action_error, action_info, action_success, ActionResultType};
use xint_console::actions::{interactive_actions, match_palette, normalize_interactive_choice, score_interactive_action};
use xint_console::mcp_dispatcher::{resolve_tool_route, McpToolRoute};
use xint_console::tui_adapter::build_tui_execution_plan;

#[test]
fn constructors_set_result_type() {
    let success = action_success("ok", Some(1usize));
    assert_eq!(success.result_type, ActionResultType::Success);

    let info = action_info::<usize>("note", None);
    assert_eq!(info.result_type, ActionResultType::Info);

    let err = action_error::<usize>("fail");
    assert_eq!(err.result_type, ActionResultType::Error);
}

#[test]
fn actions_normalize_choice_supports_numeric_and_alias_inputs() {
    assert_eq!(normalize_interactive_choice("1"), Some("1"));
    assert_eq!(normalize_interactive_choice("search"), Some("1"));
    assert_eq!(normalize_interactive_choice("Q"), Some("0"));
}

#[test]
fn actions_normalize_choice_rejects_invalid_values() {
    assert_eq!(normalize_interactive_choice(""), None);
    assert_eq!(normalize_interactive_choice("unknown"), None);
}

#[test]
fn score_prioritizes_direct_key_matches() {
    let actions = interactive_actions();
    let search = actions
        .iter()
        .find(|action| action.key == "1")
        .expect("search action");
    let score = score_interactive_action(search, "1");
    assert!(score >= 100);
}

#[test]
fn tui_normalize_choice_supports_numeric_and_alias_inputs() {
    assert_eq!(normalize_interactive_choice("1"), Some("1"));
    assert_eq!(normalize_interactive_choice("search"), Some("1"));
    assert_eq!(normalize_interactive_choice("Q"), Some("0"));
}

#[test]
fn tui_normalize_choice_rejects_invalid_values() {
    assert_eq!(normalize_interactive_choice(""), None);
    assert_eq!(normalize_interactive_choice("unknown"), None);
}

#[test]
fn palette_matches_expected_entries() {
    assert_eq!(match_palette("trend"), Some(1));
    assert_eq!(match_palette("profile"), Some(2));
    assert_eq!(match_palette("zzz"), None);
}

#[test]
fn builds_search_plan() {
    let result = build_tui_execution_plan("1", Some("ai agents"));
    assert_eq!(result.message, "Search plan ready.");
    let plan = result.data.expect("plan");
    assert_eq!(plan.command, "xint search ai agents");
    assert_eq!(
        plan.args,
        vec!["search".to_string(), "ai agents".to_string()]
    );
}

#[test]
fn normalizes_ampersand_in_search_query() {
    let result = build_tui_execution_plan("1", Some("ai & solana"));
    assert_eq!(result.message, "Search plan ready.");
    let plan = result.data.expect("plan");
    assert_eq!(plan.command, "xint search ai AND solana");
    assert_eq!(
        plan.args,
        vec!["search".to_string(), "ai AND solana".to_string()]
    );
}

#[test]
fn builds_trends_plan_for_blank_value() {
    let result = build_tui_execution_plan("2", Some(" "));
    assert_eq!(result.message, "Trends plan ready.");
    let plan = result.data.expect("plan");
    assert_eq!(plan.command, "xint trends");
    assert_eq!(plan.args, vec!["trends".to_string()]);
}

#[test]
fn normalizes_profile_username() {
    let result = build_tui_execution_plan("3", Some("@nyk"));
    assert_eq!(result.message, "Profile plan ready.");
    let plan = result.data.expect("plan");
    assert_eq!(plan.command, "xint profile nyk");
    assert_eq!(plan.args, vec!["profile".to_string(), "nyk".to_string()]);
}

#[test]
fn resolves_known_tools() {
    assert_eq!(
        resolve_tool_route("xint_search").data,
        Some(McpToolRoute::Search)
    );
    assert_eq!(
        resolve_tool_route("xint_package_query").data,
        Some(McpToolRoute::PackageQuery)
    );
}

#[test]
fn rejects_unknown_tools() {
    assert!(resolve_tool_route("xint_unknown").data.is_none());
}
