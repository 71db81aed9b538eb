//! The dashboard's decisions on input: what a key does in the menu and in an
//! inline prompt, and what a committed value does to the session. Reading
//! keys, drawing and running the child are the caller's part.
use vstd::prelude::*;
use crate::actions::{catalog_score, match_palette, catalog_keys, catalog_len, choice_index, interactive_actions, is_catalog_entry, normalize_interactive_choice};
use crate::state::{opt_view, DashboardTab, SessionState, UiState};
use crate::text::{chars_of, string_of, trim, trim_chars};
use crate::tui_adapter::{arg_views, build_tui_execution_plan, plan_for, strip_at, TuiExecutionPlan};

verus! {

/// A key event as the dashboard sees it.
#[derive(Debug, Clone, Copy, PartialEq, Eq, Structural)]
pub enum KeyInput {
    Up,
    Down,
    Tab,
    PageUp,
    PageDown,
    Enter,
    Esc,
    Backspace,
    /// A character typed without the control modifier.
    Char(char),
    /// A character typed with the control modifier.
    CtrlChar(char),
    Resize,
    Other,
}

/// What the menu does with a key.
#[derive(Debug, Clone, Copy, PartialEq, Eq)]
pub enum MenuChoice {
    /// The view changed (or the terminal was resized): draw again.
    Redraw,
    /// Nothing to do.
    Ignore,
    /// The action with this key was chosen ("0" ends the dashboard).
    Action(&'static str),
    /// Open the output filter prompt.
    Filter,
    /// Open the command palette prompt.
    Palette,
}

/// Scroll step of page up and page down.
pub const PAGE_SIZE: usize = 10;

pub open spec fn key_of_index(i: nat) -> Seq<char> {
    if i < catalog_len() {
        catalog_keys()[i as int]
    } else {
        "0"@
    }
}

/// The menu's response to `key`, and how it changes the view.
pub open spec fn menu_effect(old_ui: UiState, new_ui: UiState, key: KeyInput, r: MenuChoice) -> bool {
    let same_but_tab = new_ui.active_index == old_ui.active_index && new_ui.output_offset == old_ui.output_offset;
    let unchanged = same_but_tab && new_ui.tab == old_ui.tab;
    &&& new_ui.output_search == old_ui.output_search
    &&& new_ui.inline_prompt_label == old_ui.inline_prompt_label
    &&& new_ui.inline_prompt_value == old_ui.inline_prompt_value
    &&& match key {
        KeyInput::Up => r == MenuChoice::Redraw && new_ui.tab == old_ui.tab && new_ui.output_offset == old_ui.output_offset
            && new_ui.active_index == if old_ui.active_index == 0 {
                (catalog_len() - 1) as usize
            } else {
                (old_ui.active_index - 1) as usize
            },
        KeyInput::Down => r == MenuChoice::Redraw && new_ui.tab == old_ui.tab && new_ui.output_offset == old_ui.output_offset
            && new_ui.active_index as int == (old_ui.active_index as int + 1) % (catalog_len() as int),
        KeyInput::Tab => r == MenuChoice::Redraw && same_but_tab && new_ui.tab == old_ui.tab.next_spec(),
        KeyInput::PageUp => if old_ui.tab == DashboardTab::Output {
            r == MenuChoice::Redraw && new_ui.tab == old_ui.tab && new_ui.active_index == old_ui.active_index
                && new_ui.output_offset == if old_ui.output_offset as int + PAGE_SIZE > usize::MAX {
                    usize::MAX
                } else {
                    (old_ui.output_offset + PAGE_SIZE) as usize
                }
        } else {
            r == MenuChoice::Ignore && unchanged
        },
        KeyInput::PageDown => if old_ui.tab == DashboardTab::Output {
            r == MenuChoice::Redraw && new_ui.tab == old_ui.tab && new_ui.active_index == old_ui.active_index
                && new_ui.output_offset == if old_ui.output_offset < PAGE_SIZE {
                    0
                } else {
                    (old_ui.output_offset - PAGE_SIZE) as usize
                }
        } else {
            r == MenuChoice::Ignore && unchanged
        },
        KeyInput::Enter => same_but_tab && new_ui.tab == DashboardTab::Output
            && (r matches MenuChoice::Action(k) && k@ == key_of_index(old_ui.active_index as nat)),
        KeyInput::Esc => unchanged && (r matches MenuChoice::Action(k) && k@ == "0"@),
        KeyInput::Char(c) => if c == 'q' {
            unchanged && (r matches MenuChoice::Action(k) && k@ == "0"@)
        } else if c == '?' || c == '3' {
            r == MenuChoice::Redraw && same_but_tab && new_ui.tab == DashboardTab::Help
        } else if c == '1' {
            r == MenuChoice::Redraw && same_but_tab && new_ui.tab == DashboardTab::Commands
        } else if c == '2' {
            r == MenuChoice::Redraw && same_but_tab && new_ui.tab == DashboardTab::Output
        } else if c == 'f' || c == 'F' {
            r == MenuChoice::Filter && same_but_tab && new_ui.tab == DashboardTab::Output
        } else if c == '/' {
            r == MenuChoice::Palette && same_but_tab && new_ui.tab == DashboardTab::Output
        } else {
            unchanged && match choice_index(seq![c]) {
                Some(i) => r matches MenuChoice::Action(k) && k@ == catalog_keys()[i],
                None => r == MenuChoice::Ignore,
            }
        },
        KeyInput::Resize => r == MenuChoice::Redraw && unchanged,
        _ => r == MenuChoice::Ignore && unchanged,
    }
}

/// Applies one key to the menu view.
pub fn menu_key(ui_state: &mut UiState, key: KeyInput) -> (r: MenuChoice)
    ensures
        menu_effect(*old(ui_state), *final(ui_state), key, r),
{
    match key {
        KeyInput::Resize => MenuChoice::Redraw,
        KeyInput::Up => {
            ui_state.active_index = if ui_state.active_index == 0 {
                6
            } else {
                ui_state.active_index - 1
            };
            MenuChoice::Redraw
        },
        KeyInput::Down => {
            ui_state.active_index = if ui_state.active_index >= 6 {
                if ui_state.active_index == 6 {
                    0
                } else {
                    (ui_state.active_index % 7 + 1) % 7
                }
            } else {
                ui_state.active_index + 1
            };
            proof {
                let a = old(ui_state).active_index as int;
                if a > 6 {
                    assert((a % 7 + 1) % 7 == (a + 1) % 7);
                }
            }
            MenuChoice::Redraw
        },
        KeyInput::Tab => {
            ui_state.tab = ui_state.tab.next();
            MenuChoice::Redraw
        },
        KeyInput::PageUp => {
            if ui_state.tab == DashboardTab::Output {
                ui_state.output_offset = if ui_state.output_offset > usize::MAX - PAGE_SIZE {
                    usize::MAX
                } else {
                    ui_state.output_offset + PAGE_SIZE
                };
                MenuChoice::Redraw
            } else {
                MenuChoice::Ignore
            }
        },
        KeyInput::PageDown => {
            if ui_state.tab == DashboardTab::Output {
                ui_state.output_offset = if ui_state.output_offset < PAGE_SIZE {
                    0
                } else {
                    ui_state.output_offset - PAGE_SIZE
                };
                MenuChoice::Redraw
            } else {
                MenuChoice::Ignore
            }
        },
        KeyInput::Enter => {
            ui_state.tab = DashboardTab::Output;
            let actions = interactive_actions();
            if ui_state.active_index < actions.len() {
                assert(is_catalog_entry(actions@[ui_state.active_index as int], ui_state.active_index as int));
                MenuChoice::Action(actions[ui_state.active_index].key)
            } else {
                MenuChoice::Action("0")
            }
        },
        KeyInput::Esc => MenuChoice::Action("0"),
        KeyInput::Char(c) => {
            if c == 'q' {
                MenuChoice::Action("0")
            } else if c == '?' || c == '3' {
                ui_state.tab = DashboardTab::Help;
                MenuChoice::Redraw
            } else if c == '1' {
                ui_state.tab = DashboardTab::Commands;
                MenuChoice::Redraw
            } else if c == '2' {
                ui_state.tab = DashboardTab::Output;
                MenuChoice::Redraw
            } else if c == 'f' || c == 'F' {
                ui_state.tab = DashboardTab::Output;
                MenuChoice::Filter
            } else if c == '/' {
                ui_state.tab = DashboardTab::Output;
                MenuChoice::Palette
            } else {
                let one: Vec<char> = vec![c];
                let typed = string_of(one.as_slice());
                assert(typed@ =~= seq![c]);
                match normalize_interactive_choice(typed.as_str()) {
                    Some(k) => MenuChoice::Action(k),
                    None => MenuChoice::Ignore,
                }
            }
        },
        _ => MenuChoice::Ignore,
    }
}

/// What an inline prompt does with a key.
#[derive(Debug, Clone, PartialEq, Eq)]
pub enum PromptStep {
    /// The typed text changed (or the terminal was resized): draw again.
    Redraw,
    /// Nothing to do.
    Ignore,
    /// The prompt is done with this text (empty when cancelled).
    Commit(String),
}

/// Opens an inline prompt with `label` on the Output tab, with nothing typed.
pub fn open_prompt(ui_state: &mut UiState, label: &str)
    ensures
        final(ui_state).tab == DashboardTab::Output,
        final(ui_state).inline_prompt_label is Some,
        final(ui_state).inline_prompt_label->0@ == label@,
        final(ui_state).inline_prompt_value@.len() == 0,
        final(ui_state).active_index == old(ui_state).active_index,
        final(ui_state).output_offset == old(ui_state).output_offset,
        final(ui_state).output_search == old(ui_state).output_search,
{
    ui_state.tab = DashboardTab::Output;
    ui_state.inline_prompt_label = Some(String::from_str(label));
    ui_state.inline_prompt_value = String::new();
}

/// Closes the inline prompt.
pub fn close_prompt(ui_state: &mut UiState)
    ensures
        final(ui_state).inline_prompt_label is None,
        final(ui_state).inline_prompt_value@.len() == 0,
        final(ui_state).tab == old(ui_state).tab,
        final(ui_state).active_index == old(ui_state).active_index,
        final(ui_state).output_offset == old(ui_state).output_offset,
        final(ui_state).output_search == old(ui_state).output_search,
{
    ui_state.inline_prompt_label = None;
    ui_state.inline_prompt_value = String::new();
}

/// The prompt's response to `key`: Enter commits the typed text, Esc and
/// Ctrl-C commit nothing, Backspace removes the last character and other
/// characters are appended.
pub open spec fn prompt_effect(old_v: Seq<char>, new_v: Seq<char>, key: KeyInput, r: PromptStep) -> bool {
    match key {
        KeyInput::Enter => new_v == old_v && (r matches PromptStep::Commit(s) && s@ == old_v),
        KeyInput::Esc => new_v == old_v && (r matches PromptStep::Commit(s) && s@.len() == 0),
        KeyInput::CtrlChar(c) => new_v == old_v && if c == 'c' {
            r matches PromptStep::Commit(s) && s@.len() == 0
        } else {
            r == PromptStep::Ignore
        },
        KeyInput::Backspace => r == PromptStep::Redraw && new_v == if old_v.len() == 0 {
            old_v
        } else {
            old_v.drop_last()
        },
        KeyInput::Char(c) => r == PromptStep::Redraw && new_v == old_v.push(c),
        KeyInput::Resize => r == PromptStep::Redraw && new_v == old_v,
        _ => r == PromptStep::Ignore && new_v == old_v,
    }
}

/// Applies one key to the open inline prompt.
pub fn prompt_key(ui_state: &mut UiState, key: KeyInput) -> (r: PromptStep)
    ensures
        prompt_effect(old(ui_state).inline_prompt_value@, final(ui_state).inline_prompt_value@, key, r),
        final(ui_state).inline_prompt_label == old(ui_state).inline_prompt_label,
        final(ui_state).tab == old(ui_state).tab,
        final(ui_state).active_index == old(ui_state).active_index,
        final(ui_state).output_offset == old(ui_state).output_offset,
        final(ui_state).output_search == old(ui_state).output_search,
{
    match key {
        KeyInput::Enter => PromptStep::Commit(ui_state.inline_prompt_value.clone()),
        KeyInput::Esc => PromptStep::Commit(String::new()),
        KeyInput::CtrlChar(c) => {
            if c == 'c' {
                PromptStep::Commit(String::new())
            } else {
                PromptStep::Ignore
            }
        },
        KeyInput::Backspace => {
            let v = chars_of(ui_state.inline_prompt_value.as_str());
            if v.len() > 0 {
                let kept = crate::text::copy_range(v.as_slice(), 0, v.len() - 1);
                assert(v@.subrange(0, v@.len() - 1) =~= v@.drop_last());
                ui_state.inline_prompt_value = string_of(kept.as_slice());
            }
            PromptStep::Redraw
        },
        KeyInput::Char(c) => {
            ui_state.inline_prompt_value.push(c);
            PromptStep::Redraw
        },
        KeyInput::Resize => PromptStep::Redraw,
        _ => PromptStep::Ignore,
    }
}

/// A committed prompt value: the typed text, or the previous value (or
/// nothing) when only whitespace was typed.
pub open spec fn committed_value(typed: Seq<char>, previous: Option<Seq<char>>) -> Seq<char> {
    if trim(typed).len() == 0 {
        match previous {
            Some(p) => p,
            None => Seq::empty(),
        }
    } else {
        typed
    }
}

pub fn resolve_prompt_value(typed: &str, previous: Option<&str>) -> (r: String)
    ensures
        r@ == committed_value(
            typed@,
            match previous {
                Some(p) => Some(p@),
                None => None,
            },
        ),
{
    let tv = chars_of(typed);
    let t = trim_chars(tv.as_slice());
    if t.len() == 0 {
        match previous {
            Some(p) => String::from_str(p),
            None => String::new(),
        }
    } else {
        String::from_str(typed)
    }
}

/// The label of the prompt that asks for the value of action `key`, if it
/// takes one.
pub open spec fn prompt_label_spec(key: Seq<char>) -> Option<Seq<char>> {
    if key == "1"@ {
        Some("Search query"@)
    } else if key == "2"@ {
        Some("Location (blank for worldwide)"@)
    } else if key == "3"@ {
        Some("Username (@optional)"@)
    } else if key == "4"@ {
        Some("Tweet ID or URL"@)
    } else if key == "5"@ {
        Some("Article URL or Tweet URL"@)
    } else {
        None
    }
}

fn is_lit(a: &str, lit: &str) -> (r: bool)
    ensures
        r == (a@ == lit@),
{
    let av = chars_of(a);
    let lv = chars_of(lit);
    crate::text::chars_eq(av.as_slice(), lv.as_slice())
}

pub fn prompt_label(key: &str) -> (r: Option<&'static str>)
    ensures
        r is Some == prompt_label_spec(key@) is Some,
        r is Some ==> r->0@ == prompt_label_spec(key@)->0,
{
    if is_lit(key, "1") {
        Some("Search query")
    } else if is_lit(key, "2") {
        Some("Location (blank for worldwide)")
    } else if is_lit(key, "3") {
        Some("Username (@optional)")
    } else if is_lit(key, "4") {
        Some("Tweet ID or URL")
    } else if is_lit(key, "5") {
        Some("Article URL or Tweet URL")
    } else {
        None
    }
}

/// The value the session last used for action `key`.
pub open spec fn previous_spec(s: SessionState, key: Seq<char>) -> Option<Seq<char>> {
    if key == "1"@ {
        opt_view(s.last_search)
    } else if key == "2"@ {
        opt_view(s.last_location)
    } else if key == "3"@ {
        opt_view(s.last_username)
    } else if key == "4"@ {
        opt_view(s.last_tweet_ref)
    } else if key == "5"@ {
        opt_view(s.last_article_url)
    } else {
        None
    }
}

fn opt_clone(o: &Option<String>) -> (r: Option<String>)
    ensures
        opt_view(r) == opt_view(*o),
{
    match o {
        Some(s) => Some(s.clone()),
        None => None,
    }
}

pub fn previous_value(session: &SessionState, key: &str) -> (r: Option<String>)
    ensures
        opt_view(r) == previous_spec(*session, key@),
{
    if is_lit(key, "1") {
        opt_clone(&session.last_search)
    } else if is_lit(key, "2") {
        opt_clone(&session.last_location)
    } else if is_lit(key, "3") {
        opt_clone(&session.last_username)
    } else if is_lit(key, "4") {
        opt_clone(&session.last_tweet_ref)
    } else if is_lit(key, "5") {
        opt_clone(&session.last_article_url)
    } else {
        None
    }
}

/// The value kept for action `key`: a username loses its leading `@`s.
pub open spec fn kept_value(key: Seq<char>, value: Seq<char>) -> Seq<char> {
    if key == "3"@ {
        strip_at(value)
    } else {
        value
    }
}

/// The status shown when action `key` got no value though it needs one.
pub open spec fn required_message(key: Seq<char>) -> Option<Seq<char>> {
    if key == "1"@ {
        Some("query is required"@)
    } else if key == "3"@ {
        Some("username is required"@)
    } else if key == "4"@ {
        Some("tweet id/url is required"@)
    } else if key == "5"@ {
        Some("article url is required"@)
    } else {
        None
    }
}

/// The session fields other than the last value of each action are untouched,
/// except those named by `status` and `command`.
pub open spec fn values_kept_but(old_s: SessionState, new_s: SessionState, key: Seq<char>) -> bool {
    &&& key != "1"@ ==> new_s.last_search == old_s.last_search
    &&& key != "2"@ ==> new_s.last_location == old_s.last_location
    &&& key != "3"@ ==> new_s.last_username == old_s.last_username
    &&& key != "4"@ ==> new_s.last_tweet_ref == old_s.last_tweet_ref
    &&& key != "5"@ ==> new_s.last_article_url == old_s.last_article_url
    &&& new_s.last_output_lines == old_s.last_output_lines
}

fn remember_value(session: &mut SessionState, key: &str, value: &Vec<char>)
    ensures
        values_kept_but(*old(session), *final(session), key@),
        final(session).last_command == old(session).last_command,
        final(session).last_status == old(session).last_status,
        previous_spec(*final(session), key@) == if prompt_label_spec(key@) is Some {
            Some(value@)
        } else {
            None::<Seq<char>>
        },
{
    let v = string_of(value.as_slice());
    if is_lit(key, "1") {
        session.last_search = Some(v);
    } else if is_lit(key, "2") {
        session.last_location = Some(v);
    } else if is_lit(key, "3") {
        session.last_username = Some(v);
    } else if is_lit(key, "4") {
        session.last_tweet_ref = Some(v);
    } else if is_lit(key, "5") {
        session.last_article_url = Some(v);
    }
}

/// Takes the committed `value` for action `key`: reports a missing required
/// value, else remembers it and asks for a plan. A plan failure becomes the
/// status; a plan's display command becomes the last command, and the plan
/// is returned for running.
pub fn take_action_value(session: &mut SessionState, key: &str, value: &str) -> (r: Option<TuiExecutionPlan>)
    ensures
        values_kept_but(*old(session), *final(session), key@),
        ({
            let kv = kept_value(key@, value@);
            if required_message(key@) is Some && kv.len() == 0 {
                &&& r is None
                &&& opt_view(final(session).last_status) == required_message(key@)
                &&& final(session).last_command == old(session).last_command
                &&& previous_spec(*final(session), key@) == previous_spec(*old(session), key@)
            } else {
                &&& previous_spec(*final(session), key@) == if prompt_label_spec(key@) is Some {
                    Some(kv)
                } else {
                    None::<Seq<char>>
                }
                &&& match plan_for(key@, kv) {
                    Ok((m, c, a)) => {
                        &&& r is Some
                        &&& r->0.command@ == c
                        &&& arg_views(r->0) == a
                        &&& opt_view(final(session).last_command) == Some(c)
                        &&& final(session).last_status == old(session).last_status
                    },
                    Err(m) => {
                        &&& r is None
                        &&& opt_view(final(session).last_status) == Some(m)
                        &&& final(session).last_command == old(session).last_command
                    },
                }
            }
        }),
{
    let raw = chars_of(value);
    let mut start: usize = 0;
    if is_lit(key, "3") {
        assert(raw@.subrange(0, raw@.len() as int) == raw@);
        while start < raw.len() && raw[start] == '@'
            invariant
                start <= raw@.len(),
                strip_at(raw@) == strip_at(raw@.subrange(start as int, raw@.len() as int)),
            decreases raw@.len() - start,
        {
            assert(raw@.subrange(start as int, raw@.len() as int).drop_first() == raw@.subrange(
                start as int + 1,
                raw@.len() as int,
            ));
            start = start + 1;
        }
    }
    let kept = crate::text::copy_range(raw.as_slice(), start, raw.len());
    assert(kept@ == kept_value(key@, value@)) by {
        assert(raw@.subrange(0, raw@.len() as int) == raw@);
    }
    let message: Option<&str> = if is_lit(key, "1") {
        Some("query is required")
    } else if is_lit(key, "3") {
        Some("username is required")
    } else if is_lit(key, "4") {
        Some("tweet id/url is required")
    } else if is_lit(key, "5") {
        Some("article url is required")
    } else {
        None
    };
    if let Some(m) = message {
        if kept.len() == 0 {
            session.last_status = Some(String::from_str(m));
            return None;
        }
    }
    remember_value(session, key, &kept);
    let kept_text = string_of(kept.as_slice());
    let plan_result = if prompt_label(key).is_some() {
        build_tui_execution_plan(key, Some(kept_text.as_str()))
    } else {
        build_tui_execution_plan(key, None)
    };
    assert(prompt_label_spec(key@) is None ==> plan_for(key@, kept@) == plan_for(key@, Seq::<char>::empty())) by {
        reveal_strlit("1");
        reveal_strlit("2");
        reveal_strlit("3");
        reveal_strlit("4");
        reveal_strlit("5");
        reveal_strlit("6");
    }
    match plan_result.data {
        Some(plan) => {
            session.last_command = Some(plan.command.clone());
            Some(plan)
        },
        None => {
            session.last_status = Some(plan_result.message);
            None
        },
    }
}

/// Resolves a palette query: the best-scoring action becomes the selection
/// and its key is returned; with no match the status says so.
pub fn apply_palette_query(ui_state: &mut UiState, session: &mut SessionState, query: &str) -> (r: Option<&'static str>)
    ensures
        match r {
            Some(k) => {
                &&& 0 <= final(ui_state).active_index < catalog_len()
                &&& k@ == catalog_keys()[final(ui_state).active_index as int]
                &&& catalog_score(final(ui_state).active_index as int, trim(query@)) > 0
                &&& forall|j: int| 0 <= j < catalog_len() ==> #[trigger] catalog_score(j, trim(query@))
                    <= catalog_score(final(ui_state).active_index as int, trim(query@))
                &&& forall|j: int| 0 <= j < final(ui_state).active_index ==> #[trigger] catalog_score(j, trim(query@))
                    < catalog_score(final(ui_state).active_index as int, trim(query@))
                &&& final(ui_state).tab == DashboardTab::Output
                &&& final(session).last_status == old(session).last_status
            },
            None => {
                &&& (trim(query@).len() == 0 || forall|i: int| 0 <= i < catalog_len() ==> #[trigger] catalog_score(i, trim(query@)) == 0)
                &&& final(ui_state).active_index == old(ui_state).active_index
                &&& final(ui_state).tab == old(ui_state).tab
                &&& opt_view(final(session).last_status) == Some("no palette match: "@ + if trim(query@).len() == 0 {
                    "(empty)"@
                } else {
                    trim(query@)
                })
            },
        },
        final(ui_state).output_offset == old(ui_state).output_offset,
        final(ui_state).output_search == old(ui_state).output_search,
        final(ui_state).inline_prompt_label == old(ui_state).inline_prompt_label,
        final(session).last_output_lines == old(session).last_output_lines,
        final(session).last_command == old(session).last_command,
{
    match match_palette(query) {
        Some(index) => {
            let actions = interactive_actions();
            assert(is_catalog_entry(actions@[index as int], index as int));
            ui_state.active_index = index;
            ui_state.tab = DashboardTab::Output;
            Some(actions[index].key)
        },
        None => {
            let qv = chars_of(query);
            let t = trim_chars(qv.as_slice());
            let mut status = String::from_str("no palette match: ");
            if t.len() == 0 {
                status.append("(empty)");
            } else {
                crate::text::push_all(&mut status, t.as_slice());
            }
            session.last_status = Some(status);
            None
        },
    }
}

} // verus!
