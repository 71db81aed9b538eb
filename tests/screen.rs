use xint_console::dashboard::{
    build_command_drawer, build_header_tracker, build_hero_line, build_menu_lines,
    build_status_line, build_tabs, output_view_lines, phase_badge,
};
use xint_console::frame::dashboard_frame;
use xint_console::mcp::{MCPServer, PolicyMode};
use xint_console::state::{DashboardTab, SessionState, UiPhase, UiState};
use xint_console::text::{clip_text, pad_text, usize_text};
use xint_console::theme::{configured_theme, theme_preset};

#[test]
fn tab_strip_marks_the_active_tab() {
    let ui = UiState::new(0);
    assert_eq!(build_tabs(&ui), "[1:Commands] ‹2:Output› [3:Help]");
}

#[test]
fn tracker_places_the_cursor() {
    let mut ui = UiState::new(1);
    assert_eq!(build_header_tracker(&ui, 16), "focus ····●···········");
    ui.output_offset = 13;
    // (4 + 13) % 8 = 1
    assert_eq!(build_header_tracker(&ui, 3), "focus ·●······");
    ui.inline_prompt_label = Some("Search query".to_string());
    ui.inline_prompt_value = "ab".to_string();
    assert_eq!(build_header_tracker(&ui, 40), format!("focus ··●{}", "·".repeat(15)));
}

#[test]
fn badges_and_hero() {
    assert_eq!(phase_badge(UiPhase::Running, 0), "[RUNNING |]");
    assert_eq!(phase_badge(UiPhase::Running, 250), "[RUNNING -]");
    assert_eq!(phase_badge(UiPhase::Idle, 0), "[IDLE]");
    assert_eq!(phase_badge(UiPhase::Error, 0), "[ERROR !!]");
    let session = SessionState::new();
    let ui = UiState::new(0);
    let hero = build_hero_line(&ui, &session, 60, 0);
    assert_eq!(hero, format!("{:<60}", " xint intelligence console  ·•·•··•·•··•"));
    assert_eq!(build_hero_line(&ui, &session, 10, 0), " xint i...");
}

#[test]
fn status_line_summarizes_selection() {
    let session = SessionState::new();
    let ui = UiState::new(0);
    assert_eq!(
        build_status_line(&session, &ui, 40, 0),
        " [IDLE] 1:Search | tab:Output | - ".to_string() + "      "
    );
    assert_eq!(build_status_line(&session, &ui, 0, 0), ".");
}

#[test]
fn menu_and_drawer_lines() {
    let lines = build_menu_lines(0);
    assert_eq!(lines.len(), 16);
    assert_eq!(lines[0], "Menu");
    assert_eq!(lines[2], "> 1) ⌕ Search (search, s)");
    assert_eq!(lines[3], "    keyword, topic, or boolean query");
    assert_eq!(lines[14], "  0) Exit (exit, quit, q)");
    let drawer = build_command_drawer(1);
    assert_eq!(drawer[2], "Selected: Trends");
    assert_eq!(drawer[4], "Example: xint trends \"San Francisco\"");
    assert_eq!(drawer[5], "Cost: Low");
    assert_eq!(build_command_drawer(99)[2], "Selected: Search");
}

#[test]
fn output_view_windows_the_buffer() {
    let mut session = SessionState::new();
    session.last_output_lines = vec!["a".to_string(), "b".to_string(), "c".to_string()];
    session.last_command = Some("xint trends".to_string());
    let mut ui = UiState::new(0);
    ui.output_offset = 9;
    let lines = output_view_lines(&session, &mut ui, 2, 0);
    assert_eq!(ui.output_offset, 1);
    assert_eq!(lines[3], "command: xint trends");
    assert_eq!(lines[5], "filter: (none)");
    assert_eq!(&lines[8..], &["a".to_string(), "b".to_string(), String::new(), "view 1-2 of 3 | offset 1".to_string()]);
    ui.output_search = "zzz".to_string();
    let empty = output_view_lines(&session, &mut ui, 2, 0);
    assert_eq!(ui.output_offset, 0);
    assert_eq!(&empty[8..], &["(no output lines for current filter)".to_string(), String::new(), "view 0-0 of 0 | offset 0".to_string()]);
}

#[test]
fn frames_fill_the_terminal() {
    let session = SessionState::new();
    let theme = theme_preset("classic");
    let mut ui = UiState::new(0);
    let wide = dashboard_frame(&mut ui, &session, &theme, true, 0, 120, 32);
    assert_eq!(wide.len(), 31);
    let narrow = dashboard_frame(&mut ui, &session, &theme, false, 0, 80, 32);
    assert_eq!(narrow.len(), 32);
    ui.tab = DashboardTab::Commands;
    let tiny = dashboard_frame(&mut ui, &session, &theme, false, 0, 10, 5);
    assert_eq!(tiny.len(), 3 + 1 + 10 + 1 + 3);
    assert!(wide[0].starts_with("\u{1b}[2m+---"));
}

#[test]
fn themes_come_from_presets_and_overrides() {
    let ocean = configured_theme("OCEAN", None);
    assert_eq!(ocean.accent, "\u{1b}[1;96m");
    let custom = configured_theme("classic", Some(r#"{"accent":"X","reset":5}"#));
    assert_eq!(custom.accent, "X");
    assert_eq!(custom.reset, "\u{1b}[0m");
    assert_eq!(custom.border, "\u{1b}[2m");
    let broken = configured_theme("minimal", Some("not json"));
    assert_eq!(broken.accent, "\u{1b}[1m");
    assert_eq!(broken.border, "");
}

#[test]
fn text_clipping_and_numbers() {
    assert_eq!(clip_text("abcdef", 4), "a...");
    assert_eq!(clip_text("abcdef", 2), "..");
    assert_eq!(clip_text("abc", 0), "");
    assert_eq!(pad_text("ab", 4), "ab  ");
    assert_eq!(usize_text(1205), "1205");
    assert_eq!(usize_text(0), "0");
}

#[test]
fn tool_rules() {
    assert_eq!(MCPServer::tool_required_policy("xint_diff"), PolicyMode::Engagement);
    assert_eq!(MCPServer::tool_required_policy("xint_search"), PolicyMode::ReadOnly);
    assert!(MCPServer::tool_budget_guarded("xint_search"));
    assert!(!MCPServer::tool_budget_guarded("xint_costs"));
    let server = MCPServer::new(PolicyMode::ReadOnly, true, "c.json".to_string(), "r.json".to_string());
    assert!(!server.initialized);
    assert!(server.enforce_budget);
}
