use xint_console::output::{
    append_output, apply_output_filter, clamp_output_offset, filter_output_lines, output_window,
    sanitize_output_line,
};
use xint_console::state::{DashboardTab, SessionState, UiState};

#[test]
fn sanitizer_strips_color_sequences() {
    assert_eq!(sanitize_output_line("\u{1b}[31mred\u{1b}[0m"), "red");
    assert_eq!(sanitize_output_line("\u{1b}[1;38;5;214mwarn\u{1b}[m done"), "warn done");
}

#[test]
fn sanitizer_strips_hyperlinks() {
    let link = "\u{1b}]8;;https://x.com\u{1b}\\link\u{1b}]8;;\u{1b}\\";
    assert_eq!(sanitize_output_line(link), "link");
    assert_eq!(sanitize_output_line("\u{1b}]0;title\u{7}visible"), "visible");
}

#[test]
fn sanitizer_keeps_newline_and_tab_and_drops_other_controls() {
    assert_eq!(sanitize_output_line("a\tb\nc"), "a\tb\nc");
    assert_eq!(sanitize_output_line("a\u{1}b\u{7f}c\u{9b}"), "abc");
    assert_eq!(sanitize_output_line("\u{1b}x"), "x");
    assert_eq!(sanitize_output_line("é✓"), "é✓");
}

#[test]
fn ring_buffer_keeps_the_newest_1200_lines() {
    let mut session = SessionState::new();
    for i in 1..=1205 {
        append_output(&mut session, format!("line {i}"));
    }
    assert_eq!(session.last_output_lines.len(), 1200);
    let expected: Vec<String> = (6..=1205).map(|i| format!("line {i}")).collect();
    assert_eq!(session.last_output_lines, expected);
}

#[test]
fn append_drops_empty_lines_and_trailing_space() {
    let mut session = SessionState::new();
    append_output(&mut session, "   ".to_string());
    append_output(&mut session, "\u{1b}[0m".to_string());
    append_output(&mut session, "kept  \t".to_string());
    assert_eq!(session.last_output_lines, vec!["kept".to_string()]);
}

#[test]
fn offset_is_clamped_to_the_last_window() {
    assert_eq!(clamp_output_offset(50, 30, 10), 20);
    assert_eq!(clamp_output_offset(3, 30, 10), 3);
    assert_eq!(clamp_output_offset(5, 3, 10), 0);
    assert_eq!(clamp_output_offset(5, 3, 0), 2);
}

#[test]
fn window_ends_offset_lines_before_the_newest() {
    assert_eq!(output_window(30, 10, 0), (20, 30));
    assert_eq!(output_window(30, 10, 5), (15, 25));
    assert_eq!(output_window(30, 10, 20), (0, 10));
    assert_eq!(output_window(3, 10, 0), (0, 3));
}

#[test]
fn empty_filter_result_gives_an_empty_window() {
    let lines = vec!["alpha".to_string(), "beta".to_string()];
    let filtered = filter_output_lines(&lines, "zzz");
    assert!(filtered.is_empty());
    let offset = clamp_output_offset(7, filtered.len(), 10);
    assert_eq!(offset, 0);
    let (start, end) = output_window(filtered.len(), 10, offset);
    assert_eq!(end - start, 0);
}

#[test]
fn filter_is_trimmed_and_ignores_case() {
    let lines = vec![
        "Error: boom".to_string(),
        "ok".to_string(),
        "[stderr] TERROR".to_string(),
    ];
    assert_eq!(
        filter_output_lines(&lines, "  ERR "),
        vec!["Error: boom".to_string(), "[stderr] TERROR".to_string()]
    );
    assert_eq!(filter_output_lines(&lines, " "), lines);
}

#[test]
fn applying_a_filter_resets_the_offset() {
    let mut session = SessionState::new();
    let mut ui = UiState::new(0);
    ui.output_offset = 7;
    ui.tab = DashboardTab::Help;
    apply_output_filter(&mut ui, &mut session, "  boom ");
    assert_eq!(ui.output_offset, 0);
    assert_eq!(ui.output_search, "boom");
    assert_eq!(ui.tab, DashboardTab::Output);
    assert_eq!(session.last_status.as_deref(), Some("output filter active: boom"));
    ui.output_offset = 3;
    apply_output_filter(&mut ui, &mut session, "   ");
    assert_eq!(ui.output_offset, 0);
    assert_eq!(session.last_status.as_deref(), Some("output filter cleared"));
}
