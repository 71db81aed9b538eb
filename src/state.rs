//! Session and view state of the dashboard, and the run phase derived from them.
use vstd::prelude::*;
use crate::text::{chars_of, has_infix, has_prefix, lower, lower_chars, contains_chars, starts_with_chars};

verus! {

/// What has run in this dashboard session: the last value typed for each
/// parameterized action, the last command and status, and the output buffer.
pub struct SessionState {
    pub last_search: Option<String>,
    pub last_location: Option<String>,
    pub last_username: Option<String>,
    pub last_tweet_ref: Option<String>,
    pub last_article_url: Option<String>,
    pub last_command: Option<String>,
    pub last_status: Option<String>,
    pub last_output_lines: Vec<String>,
}

#[derive(Debug, Clone, Copy, PartialEq, Eq, Structural)]
pub enum DashboardTab {
    Commands,
    Output,
    Help,
}

#[derive(Debug, Clone, Copy, PartialEq, Eq, Structural)]
pub enum UiPhase {
    Idle,
    Input,
    Running,
    Done,
    Error,
}

/// What the dashboard shows: the selected action, the active tab, the output
/// scroll offset and filter, and the inline prompt when one is open.
pub struct UiState {
    pub active_index: usize,
    pub tab: DashboardTab,
    pub output_offset: usize,
    pub output_search: String,
    pub inline_prompt_label: Option<String>,
    pub inline_prompt_value: String,
}

pub open spec fn lines_view(v: Seq<String>) -> Seq<Seq<char>> {
    v.map_values(|s: String| s@)
}

pub open spec fn opt_view(o: Option<String>) -> Option<Seq<char>> {
    match o {
        Some(s) => Some(s@),
        None => None,
    }
}

impl SessionState {
    /// A session in which nothing has run yet.
    pub fn new() -> (r: SessionState)
        ensures
            r.last_search is None,
            r.last_location is None,
            r.last_username is None,
            r.last_tweet_ref is None,
            r.last_article_url is None,
            r.last_command is None,
            r.last_status is None,
            r.last_output_lines@.len() == 0,
    {
        SessionState {
            last_search: None,
            last_location: None,
            last_username: None,
            last_tweet_ref: None,
            last_article_url: None,
            last_command: None,
            last_status: None,
            last_output_lines: Vec::new(),
        }
    }
}

impl UiState {
    /// The starting view: `index` selected, the Output tab, no filter, no prompt.
    pub fn new(index: usize) -> (r: UiState)
        ensures
            r.active_index == index,
            r.tab == DashboardTab::Output,
            r.output_offset == 0,
            r.output_search@.len() == 0,
            r.inline_prompt_label is None,
            r.inline_prompt_value@.len() == 0,
    {
        UiState {
            active_index: index,
            tab: DashboardTab::Output,
            output_offset: 0,
            output_search: String::new(),
            inline_prompt_label: None,
            inline_prompt_value: String::new(),
        }
    }
}

impl DashboardTab {
    pub open spec fn label_spec(self) -> Seq<char> {
        match self {
            DashboardTab::Commands => "Commands"@,
            DashboardTab::Output => "Output"@,
            DashboardTab::Help => "Help"@,
        }
    }

    pub open spec fn next_spec(self) -> DashboardTab {
        match self {
            DashboardTab::Commands => DashboardTab::Output,
            DashboardTab::Output => DashboardTab::Help,
            DashboardTab::Help => DashboardTab::Commands,
        }
    }

    pub fn label(self) -> (r: &'static str)
        ensures
            r@ == self.label_spec(),
    {
        match self {
            DashboardTab::Commands => "Commands",
            DashboardTab::Output => "Output",
            DashboardTab::Help => "Help",
        }
    }

    /// The following tab, cyclically: Commands, Output, Help, Commands.
    pub fn next(self) -> (r: DashboardTab)
        ensures
            r == self.next_spec(),
    {
        match self {
            DashboardTab::Commands => DashboardTab::Output,
            DashboardTab::Output => DashboardTab::Help,
            DashboardTab::Help => DashboardTab::Commands,
        }
    }
}

/// The phase read from a status text: `Running` when it starts with
/// "running", `Error` when it mentions "failed" or "error", `Done` when it
/// mentions "success", else `Idle`; letter case is ignored.
pub open spec fn phase_of_status(status: Seq<char>) -> UiPhase {
    let s = lower(status);
    if has_prefix(s, "running"@) {
        UiPhase::Running
    } else if has_infix(s, "failed"@) || has_infix(s, "error"@) {
        UiPhase::Error
    } else if has_infix(s, "success"@) {
        UiPhase::Done
    } else {
        UiPhase::Idle
    }
}

/// The phase of the dashboard: `Input` while a prompt is open, else read from
/// the last status (no status reads as empty).
pub open spec fn phase_spec(session: SessionState, ui: UiState) -> UiPhase {
    if ui.inline_prompt_label is Some {
        UiPhase::Input
    } else {
        phase_of_status(
            match session.last_status {
                Some(s) => s@,
                None => Seq::empty(),
            },
        )
    }
}

fn has_word(s: &[char], word: &str) -> (r: bool)
    ensures
        r == has_infix(s@, word@),
{
    let w = chars_of(word);
    contains_chars(s, w.as_slice())
}

pub fn resolve_ui_phase(session: &SessionState, ui_state: &UiState) -> (r: UiPhase)
    ensures
        r == phase_spec(*session, *ui_state),
{
    if ui_state.inline_prompt_label.is_some() {
        return UiPhase::Input;
    }
    let raw = match &session.last_status {
        Some(s) => chars_of(s.as_str()),
        None => Vec::new(),
    };
    let status = lower_chars(raw.as_slice());
    let running = chars_of("running");
    if starts_with_chars(status.as_slice(), running.as_slice()) {
        UiPhase::Running
    } else if has_word(status.as_slice(), "failed") || has_word(status.as_slice(), "error") {
        UiPhase::Error
    } else if has_word(status.as_slice(), "success") {
        UiPhase::Done
    } else {
        UiPhase::Idle
    }
}

} // verus!
