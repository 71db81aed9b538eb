use xint_console::events::{
    apply_palette_query, menu_key, previous_value, prompt_key, prompt_label, resolve_prompt_value,
    take_action_value, KeyInput, MenuChoice, PromptStep,
};
use xint_console::harness::{
    begin_run, exit_status_text, finish_run, set_running_status, stderr_line, subcommand_args,
};
use xint_console::state::{resolve_ui_phase, DashboardTab, SessionState, UiPhase, UiState};
use xint_console::tui_adapter::{build_tui_execution_plan, normalize_search_query};
use xint_console::action_result::ActionResultType;

#[test]
fn trends_with_blank_value_plans_plain_trends() {
    let mut session = SessionState::new();
    let plan = take_action_value(&mut session, "2", "").expect("plan");
    assert_eq!(plan.command, "xint trends");
    assert_eq!(plan.args, vec!["trends".to_string()]);
    assert_eq!(session.last_command.as_deref(), Some("xint trends"));
    assert_eq!(session.last_location.as_deref(), Some(""));
}

#[test]
fn search_value_with_ampersand_becomes_and() {
    let mut session = SessionState::new();
    let plan = take_action_value(&mut session, "1", "ai & solana").expect("plan");
    assert_eq!(plan.args, vec!["search".to_string(), "ai AND solana".to_string()]);
    assert_eq!(plan.command, "xint search ai AND solana");
    assert_eq!(session.last_search.as_deref(), Some("ai & solana"));
}

#[test]
fn missing_required_values_report_status() {
    let mut session = SessionState::new();
    assert!(take_action_value(&mut session, "1", "").is_none());
    assert_eq!(session.last_status.as_deref(), Some("query is required"));
    assert!(take_action_value(&mut session, "3", "@@").is_none());
    assert_eq!(session.last_status.as_deref(), Some("username is required"));
    assert!(take_action_value(&mut session, "4", "").is_none());
    assert_eq!(session.last_status.as_deref(), Some("tweet id/url is required"));
    assert!(take_action_value(&mut session, "5", "").is_none());
    assert_eq!(session.last_status.as_deref(), Some("article url is required"));
    assert!(session.last_command.is_none());
}

#[test]
fn plan_failures_become_status() {
    let mut session = SessionState::new();
    assert!(take_action_value(&mut session, "1", "   ").is_none());
    assert_eq!(session.last_status.as_deref(), Some("Query is required."));
    assert_eq!(session.last_search.as_deref(), Some("   "));
    assert!(take_action_value(&mut session, "9", "x").is_none());
    assert_eq!(session.last_status.as_deref(), Some("Unsupported action key: 9"));
}

#[test]
fn profile_help_thread_and_article_plans() {
    let mut session = SessionState::new();
    let p = take_action_value(&mut session, "3", "@@nyk").expect("plan");
    assert_eq!(p.args, vec!["profile".to_string(), "nyk".to_string()]);
    assert_eq!(session.last_username.as_deref(), Some("nyk"));
    let h = take_action_value(&mut session, "6", "ignored").expect("plan");
    assert_eq!(h.command, "xint --help");
    assert_eq!(h.args, vec!["--help".to_string()]);
    let t = build_tui_execution_plan("4", Some(" 123 "));
    assert_eq!(t.message, "Thread plan ready.");
    assert_eq!(t.data.expect("plan").args, vec!["thread".to_string(), "123".to_string()]);
    let a = build_tui_execution_plan("5", None);
    assert_eq!(a.result_type, ActionResultType::Error);
    assert_eq!(a.message, "Article URL is required.");
    let w = build_tui_execution_plan("2", Some(" San Francisco "));
    assert_eq!(w.data.expect("plan").command, "xint trends San Francisco");
}

#[test]
fn search_query_words_are_rejoined() {
    assert_eq!(normalize_search_query("  a \t &  b  "), "a AND b");
    assert_eq!(normalize_search_query("a && b"), "a && b");
    assert_eq!(normalize_search_query("   "), "");
}

#[test]
fn exit_codes_become_status_text() {
    assert_eq!(exit_status_text(false, Some(1)), "failed (exit 1)");
    assert_eq!(exit_status_text(true, Some(0)), "success");
    assert_eq!(exit_status_text(false, None), "failed (exit signal)");
    assert_eq!(exit_status_text(false, Some(-2)), "failed (exit -2)");
    assert_eq!(exit_status_text(false, Some(i32::MIN)), "failed (exit -2147483648)");
    let mut session = SessionState::new();
    finish_run(&mut session, false, Some(1));
    assert_eq!(session.last_status.as_deref(), Some("failed (exit 1)"));
    finish_run(&mut session, true, Some(0));
    assert_eq!(session.last_status.as_deref(), Some("success"));
}

#[test]
fn run_status_and_arguments() {
    let mut session = SessionState::new();
    let mut ui = UiState::new(0);
    session.last_output_lines.push("old".to_string());
    ui.output_offset = 4;
    begin_run(&mut session, &mut ui);
    assert!(session.last_output_lines.is_empty());
    assert_eq!(ui.output_offset, 0);
    set_running_status(&mut session, 5);
    assert_eq!(session.last_status.as_deref(), Some("running /"));
    assert_eq!(resolve_ui_phase(&session, &ui), UiPhase::Running);
    assert_eq!(stderr_line("oops"), "[stderr] oops");
    assert_eq!(
        subcommand_args("read_only", &vec!["trends".to_string()]),
        vec!["--policy".to_string(), "read_only".to_string(), "trends".to_string()]
    );
}

#[test]
fn phase_follows_status_text() {
    let mut session = SessionState::new();
    let mut ui = UiState::new(0);
    assert_eq!(resolve_ui_phase(&session, &ui), UiPhase::Idle);
    session.last_status = Some("Failed (exit 1)".to_string());
    assert_eq!(resolve_ui_phase(&session, &ui), UiPhase::Error);
    session.last_status = Some("SUCCESS".to_string());
    assert_eq!(resolve_ui_phase(&session, &ui), UiPhase::Done);
    session.last_status = Some("network error".to_string());
    assert_eq!(resolve_ui_phase(&session, &ui), UiPhase::Error);
    ui.inline_prompt_label = Some("Search query".to_string());
    assert_eq!(resolve_ui_phase(&session, &ui), UiPhase::Input);
}

#[test]
fn menu_keys_move_and_choose() {
    let mut ui = UiState::new(0);
    assert_eq!(menu_key(&mut ui, KeyInput::Up), MenuChoice::Redraw);
    assert_eq!(ui.active_index, 6);
    assert_eq!(menu_key(&mut ui, KeyInput::Down), MenuChoice::Redraw);
    assert_eq!(ui.active_index, 0);
    assert_eq!(menu_key(&mut ui, KeyInput::Tab), MenuChoice::Redraw);
    assert_eq!(ui.tab, DashboardTab::Help);
    assert_eq!(menu_key(&mut ui, KeyInput::PageUp), MenuChoice::Ignore);
    assert_eq!(menu_key(&mut ui, KeyInput::Char('2')), MenuChoice::Redraw);
    assert_eq!(ui.tab, DashboardTab::Output);
    assert_eq!(menu_key(&mut ui, KeyInput::PageUp), MenuChoice::Redraw);
    assert_eq!(ui.output_offset, 10);
    assert_eq!(menu_key(&mut ui, KeyInput::PageDown), MenuChoice::Redraw);
    menu_key(&mut ui, KeyInput::PageDown);
    assert_eq!(ui.output_offset, 0);
    assert_eq!(menu_key(&mut ui, KeyInput::Char('1')), MenuChoice::Redraw);
    assert_eq!(ui.tab, DashboardTab::Commands);
    assert_eq!(menu_key(&mut ui, KeyInput::Enter), MenuChoice::Action("1"));
    assert_eq!(ui.tab, DashboardTab::Output);
    assert_eq!(menu_key(&mut ui, KeyInput::Char('q')), MenuChoice::Action("0"));
    assert_eq!(menu_key(&mut ui, KeyInput::Esc), MenuChoice::Action("0"));
    assert_eq!(menu_key(&mut ui, KeyInput::Char('t')), MenuChoice::Action("2"));
    assert_eq!(menu_key(&mut ui, KeyInput::Char('P')), MenuChoice::Action("3"));
    assert_eq!(menu_key(&mut ui, KeyInput::Char('x')), MenuChoice::Ignore);
    assert_eq!(menu_key(&mut ui, KeyInput::Char('F')), MenuChoice::Filter);
    assert_eq!(menu_key(&mut ui, KeyInput::Char('/')), MenuChoice::Palette);
    assert_eq!(menu_key(&mut ui, KeyInput::Char('?')), MenuChoice::Redraw);
    assert_eq!(ui.tab, DashboardTab::Help);
    ui.active_index = 42;
    assert_eq!(menu_key(&mut ui, KeyInput::Enter), MenuChoice::Action("0"));
}

#[test]
fn prompt_keys_edit_and_commit() {
    let mut ui = UiState::new(0);
    assert_eq!(prompt_key(&mut ui, KeyInput::Char('a')), PromptStep::Redraw);
    assert_eq!(prompt_key(&mut ui, KeyInput::Char('é')), PromptStep::Redraw);
    assert_eq!(ui.inline_prompt_value, "aé");
    assert_eq!(prompt_key(&mut ui, KeyInput::Backspace), PromptStep::Redraw);
    assert_eq!(ui.inline_prompt_value, "a");
    assert_eq!(prompt_key(&mut ui, KeyInput::CtrlChar('x')), PromptStep::Ignore);
    assert_eq!(prompt_key(&mut ui, KeyInput::Enter), PromptStep::Commit("a".to_string()));
    assert_eq!(prompt_key(&mut ui, KeyInput::Esc), PromptStep::Commit(String::new()));
    assert_eq!(prompt_key(&mut ui, KeyInput::CtrlChar('c')), PromptStep::Commit(String::new()));
}

#[test]
fn blank_prompt_reuses_previous_value() {
    assert_eq!(resolve_prompt_value("  ", Some("prev")), "prev");
    assert_eq!(resolve_prompt_value("new", Some("prev")), "new");
    assert_eq!(resolve_prompt_value("", None), "");
    let mut session = SessionState::new();
    session.last_search = Some("ai".to_string());
    assert_eq!(previous_value(&session, "1"), Some("ai".to_string()));
    assert_eq!(previous_value(&session, "2"), None);
    assert_eq!(prompt_label("3"), Some("Username (@optional)"));
    assert_eq!(prompt_label("6"), None);
}

#[test]
fn palette_query_selects_or_reports() {
    let mut session = SessionState::new();
    let mut ui = UiState::new(0);
    ui.tab = DashboardTab::Help;
    assert_eq!(apply_palette_query(&mut ui, &mut session, " profile "), Some("3"));
    assert_eq!(ui.active_index, 2);
    assert_eq!(ui.tab, DashboardTab::Output);
    assert_eq!(apply_palette_query(&mut ui, &mut session, "zzz"), None);
    assert_eq!(session.last_status.as_deref(), Some("no palette match: zzz"));
    assert_eq!(apply_palette_query(&mut ui, &mut session, "  "), None);
    assert_eq!(session.last_status.as_deref(), Some("no palette match: (empty)"));
    assert_eq!(ui.active_index, 2);
}
