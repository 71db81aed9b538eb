//! The pieces of a dashboard frame: tab strip, focus tracker, hero banner,
//! phase badge, menu, command drawer, output view and status line.
use vstd::prelude::*;
use crate::actions::{
    alias_views, catalog_aliases, catalog_costs, catalog_examples, catalog_keys, catalog_labels,
    catalog_len, catalog_summaries, catalog_hints, interactive_actions, is_catalog_entry,
    InteractiveAction,
};
use crate::state::{phase_spec, resolve_ui_phase, DashboardTab, SessionState, UiPhase, UiState};
use crate::output::{
    clamp_output_offset, clamped_offset, filter_output_lines, filter_query, filtered,
    output_window, window_end, window_start,
};
use crate::state::lines_view;
use crate::text::{chars_of, dec, pad, pad_text, push_all, repeat, repeat_chars, trim, trim_chars, usize_text};

verus! {

pub open spec fn tab_title(t: DashboardTab) -> Seq<char> {
    match t {
        DashboardTab::Commands => "1:Commands"@,
        DashboardTab::Output => "2:Output"@,
        DashboardTab::Help => "3:Help"@,
    }
}

/// A tab's chip: the active tab in angle quotes, the others in brackets.
pub open spec fn tab_chip(t: DashboardTab, active: DashboardTab) -> Seq<char> {
    if t == active {
        "‹"@ + tab_title(t) + "›"@
    } else {
        "["@ + tab_title(t) + "]"@
    }
}

pub open spec fn tabs_text(active: DashboardTab) -> Seq<char> {
    tab_chip(DashboardTab::Commands, active) + " "@ + tab_chip(DashboardTab::Output, active) + " "@
        + tab_chip(DashboardTab::Help, active)
}

fn tab_chip_exec(t: DashboardTab, active: DashboardTab) -> (r: String)
    ensures
        r@ == tab_chip(t, active),
{
    let title = match t {
        DashboardTab::Commands => "1:Commands",
        DashboardTab::Output => "2:Output",
        DashboardTab::Help => "3:Help",
    };
    let mut r = if t == active {
        String::from_str("‹")
    } else {
        String::from_str("[")
    };
    r.append(title);
    if t == active {
        r.append("›");
    } else {
        r.append("]");
    }
    r
}

/// The tab strip, e.g. `[1:Commands] ‹2:Output› [3:Help]`.
pub fn build_tabs(ui_state: &UiState) -> (r: String)
    ensures
        r@ == tabs_text(ui_state.tab),
{
    let mut r = tab_chip_exec(DashboardTab::Commands, ui_state.tab);
    r.append(" ");
    let b = tab_chip_exec(DashboardTab::Output, ui_state.tab);
    r.append(b.as_str());
    r.append(" ");
    let c = tab_chip_exec(DashboardTab::Help, ui_state.tab);
    r.append(c.as_str());
    r
}

/// Width of the tracker rail: `width` brought into `[8, 18]`.
pub open spec fn rail_width(width: nat) -> nat {
    if width < 8 {
        8
    } else if width > 18 {
        18
    } else {
        width
    }
}

pub open spec fn sat_add(a: nat, b: nat) -> nat {
    if a + b > usize::MAX {
        usize::MAX as nat
    } else {
        a + b
    }
}

/// Where the tracker's cursor stands before wrapping: the prompt's length
/// while a prompt is open, else four steps per selected action plus the
/// scroll offset (saturating).
pub open spec fn tracker_basis(ui: UiState) -> nat {
    if ui.inline_prompt_label is Some {
        ui.inline_prompt_value@.len()
    } else {
        sat_add(sat_add(0, ui.active_index as nat * 4), ui.output_offset as nat)
    }
}

pub open spec fn tracker_text(ui: UiState, width: nat) -> Seq<char> {
    let rail = rail_width(width);
    let pos = tracker_basis(ui) % rail;
    "focus "@ + repeat('·', pos) + seq!['●'] + repeat('·', (rail - pos - 1) as nat)
}

/// The focus tracker: a cursor on a rail of dots.
pub fn build_header_tracker(ui_state: &UiState, width: usize) -> (r: String)
    ensures
        r@ == tracker_text(*ui_state, width as nat),
{
    let rail: usize = if width < 8 {
        8
    } else if width > 18 {
        18
    } else {
        width
    };
    let basis: usize = if ui_state.inline_prompt_label.is_some() {
        ui_state.inline_prompt_value.unicode_len()
    } else {
        let steps: usize = if ui_state.active_index > usize::MAX / 4 {
            usize::MAX
        } else {
            ui_state.active_index * 4
        };
        if ui_state.output_offset > usize::MAX - steps {
            usize::MAX
        } else {
            steps + ui_state.output_offset
        }
    };
    proof {
        if ui_state.inline_prompt_label is None {
            if ui_state.active_index > usize::MAX / 4 {
                assert(ui_state.active_index as nat * 4 > usize::MAX) by (nonlinear_arith)
                    requires ui_state.active_index > usize::MAX / 4;
            }
        }
    }
    let pos = basis % rail;
    let mut r = String::from_str("focus ");
    let left = repeat_chars('·', pos);
    push_all(&mut r, left.as_slice());
    r.push('●');
    let right = repeat_chars('·', rail - pos - 1);
    push_all(&mut r, right.as_slice());
    r
}

/// The spinner glyph for step `i`.
pub open spec fn spinner_frame(i: nat) -> Seq<char> {
    if i % 4 == 0 {
        "|"@
    } else if i % 4 == 1 {
        "/"@
    } else if i % 4 == 2 {
        "-"@
    } else {
        "\\"@
    }
}

pub fn spinner_frame_exec(i: u64) -> (r: &'static str)
    ensures
        r@ == spinner_frame(i as nat),
{
    let k = i % 4;
    if k == 0 {
        "|"
    } else if k == 1 {
        "/"
    } else if k == 2 {
        "-"
    } else {
        "\\"
    }
}

/// The badge of a phase; while running, the spinner advances every 120 ms.
pub open spec fn badge_text(phase: UiPhase, millis: nat) -> Seq<char> {
    match phase {
        UiPhase::Running => "[RUNNING "@ + spinner_frame(millis / 120) + "]"@,
        UiPhase::Input => "[INPUT <>]"@,
        UiPhase::Done => "[DONE ok]"@,
        UiPhase::Error => "[ERROR !!]"@,
        UiPhase::Idle => "[IDLE]"@,
    }
}

/// The badge of `phase` at wall-clock time `millis` (milliseconds).
pub fn phase_badge(phase: UiPhase, millis: u64) -> (r: String)
    ensures
        r@ == badge_text(phase, millis as nat),
{
    match phase {
        UiPhase::Running => {
            let mut r = String::from_str("[RUNNING ");
            r.append(spinner_frame_exec(millis / 120));
            r.append("]");
            r
        },
        UiPhase::Input => String::from_str("[INPUT <>]"),
        UiPhase::Done => String::from_str("[DONE ok]"),
        UiPhase::Error => String::from_str("[ERROR !!]"),
        UiPhase::Idle => String::from_str("[IDLE]"),
    }
}

pub open spec fn running_glyphs() -> Seq<char> {
    seq!['▁', '▂', '▃', '▄', '▅', '▆', '▇']
}

pub open spec fn idle_glyphs() -> Seq<char> {
    seq!['·', '•', '·', '•', '·']
}

/// Twelve glyphs of the hero wave at tick `tick`, from the running palette
/// while running and from the idle palette otherwise.
pub open spec fn wave(running: bool, tick: nat) -> Seq<char> {
    let g = if running {
        running_glyphs()
    } else {
        idle_glyphs()
    };
    Seq::new(12, |i: int| g[(tick + i) % (g.len() as int)])
}

/// The hero banner, padded to `width`; the wave moves every 110 ms.
pub open spec fn hero_text(phase: UiPhase, millis: nat, width: nat) -> Seq<char> {
    pad(" xint intelligence console  "@ + wave(phase == UiPhase::Running, millis / 110), width)
}

pub fn build_hero_line(ui_state: &UiState, session: &SessionState, width: usize, millis: u64) -> (r: String)
    ensures
        r@ == hero_text(phase_spec(*session, *ui_state), millis as nat, width as nat),
{
    let phase = resolve_ui_phase(session, ui_state);
    let running = phase == UiPhase::Running;
    let glyphs: Vec<char> = if running {
        vec!['▁', '▂', '▃', '▄', '▅', '▆', '▇']
    } else {
        vec!['·', '•', '·', '•', '·']
    };
    let ghost g = if running {
        running_glyphs()
    } else {
        idle_glyphs()
    };
    assert(glyphs@ =~= g);
    let tick = millis / 110;
    let n = glyphs.len() as u64;
    let mut out = chars_of(" xint intelligence console  ");
    let ghost head = out@;
    let mut i: u64 = 0;
    while i < 12
        invariant
            glyphs@ == g,
            n == g.len(),
            n == 5 || n == 7,
            tick == millis / 110,
            i <= 12,
            out@ == head + Seq::new(i as nat, |k: int| g[(tick + k) % (g.len() as int)]),
        decreases 12 - i,
    {
        let idx = (tick + i) % n;
        out.push(glyphs[idx as usize]);
        assert(out@ =~= head + Seq::new((i + 1) as nat, |k: int| g[(tick + k) % (g.len() as int)]));
        i = i + 1;
    }
    assert(out@ =~= " xint intelligence console  "@ + wave(running, millis as nat / 110));
    let line = crate::text::string_of(out.as_slice());
    pad_text(line.as_str(), width)
}

/// Catalog index shown as selected: the active index, or the first entry
/// when it is out of range.
pub open spec fn shown_index(i: nat) -> int {
    if i < catalog_len() {
        i as int
    } else {
        0
    }
}

fn selected_action(index: usize) -> (r: InteractiveAction)
    ensures
        is_catalog_entry(r, shown_index(index as nat)),
{
    let actions = interactive_actions();
    if index < actions.len() {
        actions[index]
    } else {
        assert(is_catalog_entry(actions@[0], 0));
        actions[0]
    }
}

pub open spec fn drawer_lines(index: nat) -> Seq<Seq<char>> {
    let i = shown_index(index);
    seq![
        "Command details"@,
        Seq::empty(),
        "Selected: "@ + catalog_labels()[i],
        "Summary: "@ + catalog_summaries()[i],
        "Example: "@ + catalog_examples()[i],
        "Cost: "@ + catalog_costs()[i],
    ]
}

fn labeled(prefix: &str, value: &str) -> (r: String)
    ensures
        r@ == prefix@ + value@,
{
    let mut r = String::from_str(prefix);
    r.append(value);
    r
}

/// The command drawer: details of the selected action.
pub fn build_command_drawer(active_index: usize) -> (r: Vec<String>)
    ensures
        crate::state::lines_view(r@) == drawer_lines(active_index as nat),
{
    let selected = selected_action(active_index);
    let r = vec![
        String::from_str("Command details"),
        String::new(),
        labeled("Selected: ", selected.label),
        labeled("Summary: ", selected.summary),
        labeled("Example: ", selected.example),
        labeled("Cost: ", selected.cost_hint),
    ];
    assert(crate::state::lines_view(r@) =~= drawer_lines(active_index as nat));
    r
}

/// The glyph shown before an action's label.
pub open spec fn icon(key: Seq<char>) -> Seq<char> {
    if key == "1"@ {
        "⌕ "@
    } else if key == "2"@ {
        "◍ "@
    } else if key == "3"@ {
        "◉ "@
    } else if key == "4"@ {
        "↳ "@
    } else if key == "5"@ {
        "✦ "@
    } else if key == "6"@ {
        "? "@
    } else {
        Seq::empty()
    }
}

/// The items joined by ", ".
pub open spec fn join_comma(items: Seq<Seq<char>>) -> Seq<char>
    decreases items.len(),
{
    if items.len() == 0 {
        Seq::empty()
    } else if items.len() == 1 {
        items[0]
    } else {
        join_comma(items.drop_last()) + ", "@ + items.last()
    }
}

pub open spec fn alias_suffix(aliases: Seq<Seq<char>>) -> Seq<char> {
    if aliases.len() == 0 {
        Seq::empty()
    } else {
        " ("@ + join_comma(aliases) + ")"@
    }
}

/// The menu line of catalog entry `i`, marked with `>` when it is selected.
pub open spec fn menu_entry(i: int, active: nat) -> Seq<char> {
    (if i == active {
        ">"@
    } else {
        " "@
    }) + " "@ + catalog_keys()[i] + ") "@ + icon(catalog_keys()[i]) + catalog_labels()[i]
        + alias_suffix(catalog_aliases()[i])
}

/// The menu: a title, a blank line, then for each action its line and its hint.
pub open spec fn menu_lines(active: nat) -> Seq<Seq<char>> {
    seq!["Menu"@, Seq::empty()] + Seq::new(2 * catalog_len(), |k: int| menu_row(k, active))
}

/// Row `k` of the menu body: entry lines and hint lines alternate.
pub open spec fn menu_row(k: int, active: nat) -> Seq<char> {
    if k % 2 == 0 {
        menu_entry(k / 2, active)
    } else {
        "    "@ + catalog_hints()[k / 2]
    }
}

fn same(a: &str, lit: &str) -> (r: bool)
    ensures
        r == (a@ == lit@),
{
    let av = chars_of(a);
    let lv = chars_of(lit);
    crate::text::chars_eq(av.as_slice(), lv.as_slice())
}

fn icon_for_key(key: &str) -> (r: &'static str)
    ensures
        r@ == icon(key@),
{
    if same(key, "1") {
        "⌕ "
    } else if same(key, "2") {
        "◍ "
    } else if same(key, "3") {
        "◉ "
    } else if same(key, "4") {
        "↳ "
    } else if same(key, "5") {
        "✦ "
    } else if same(key, "6") {
        "? "
    } else {
        proof {
            reveal_strlit("");
        }
        ""
    }
}

fn alias_suffix_exec(action: &InteractiveAction) -> (r: String)
    ensures
        r@ == alias_suffix(alias_views(*action)),
{
    let aliases = action.aliases;
    let n = aliases.len();
    if n == 0 {
        return String::new();
    }
    let mut r = String::from_str(" (");
    let ghost head = r@;
    let mut j: usize = 0;
    while j < n
        invariant
            aliases == action.aliases,
            n == aliases@.len(),
            n > 0,
            j <= n,
            r@ == head + join_comma(alias_views(*action).take(j as int)),
        decreases n - j,
    {
        let ghost al = alias_views(*action);
        assert(al.take(j as int + 1).drop_last() =~= al.take(j as int));
        assert(al[j as int] == aliases@[j as int]@);
        if j > 0 {
            r.append(", ");
        } else {
            assert(al.take(1) =~= seq![al[0]]);
            assert(al.take(0) =~= Seq::<Seq<char>>::empty());
        }
        r.append(aliases[j]);
        j = j + 1;
    }
    assert(alias_views(*action).take(n as int) =~= alias_views(*action));
    r.append(")");
    r
}

/// The menu of actions with the one at `active_index` marked.
pub fn build_menu_lines(active_index: usize) -> (r: Vec<String>)
    ensures
        crate::state::lines_view(r@) == menu_lines(active_index as nat),
{
    let mut lines: Vec<String> = vec![String::from_str("Menu"), String::new()];
    let actions = interactive_actions();
    let mut i: usize = 0;
    while i < actions.len()
        invariant
            actions@.len() == catalog_len(),
            forall|k: int| 0 <= k < catalog_len() ==> is_catalog_entry(#[trigger] actions@[k], k),
            i <= catalog_len(),
            crate::state::lines_view(lines@) == seq!["Menu"@, Seq::<char>::empty()] + Seq::new(2 * i as nat, |k: int| menu_row(k, active_index as nat)),
        decreases catalog_len() - i,
    {
        let option = actions[i];
        assert(is_catalog_entry(actions@[i as int], i as int));
        let mut line = if i == active_index {
            String::from_str(">")
        } else {
            String::from_str(" ")
        };
        line.append(" ");
        line.append(option.key);
        line.append(") ");
        line.append(icon_for_key(option.key));
        line.append(option.label);
        let suffix = alias_suffix_exec(&option);
        line.append(suffix.as_str());
        let mut hint_line = String::from_str("    ");
        hint_line.append(option.hint);
        let ghost before = crate::state::lines_view(lines@);
        lines.push(line);
        lines.push(hint_line);
        proof {
            assert(line@ == menu_entry(i as int, active_index as nat));
            assert(hint_line@ == "    "@ + catalog_hints()[i as int]);
            assert((2 * i) / 2 == i);
            assert((2 * i + 1) / 2 == i);
            assert((2 * i) % 2 == 0);
            assert((2 * i + 1) % 2 == 1);
            assert(menu_row(2 * i, active_index as nat) == line@);
            assert(menu_row(2 * i + 1, active_index as nat) == hint_line@);
            let f = |k: int| menu_row(k, active_index as nat);
            let prev = Seq::new(2 * i as nat, f);
            let next = Seq::new(2 * (i + 1) as nat, f);
            assert(crate::state::lines_view(lines@) =~= before.push(line@).push(hint_line@));
            assert(next =~= prev.push(line@).push(hint_line@));
            assert(crate::state::lines_view(lines@) =~= seq!["Menu"@, Seq::<char>::empty()] + next);
        }
        i = i + 1;
    }
    lines
}

pub open spec fn status_of(session: SessionState) -> Seq<char> {
    match session.last_status {
        Some(s) => s@,
        None => "-"@,
    }
}

pub open spec fn focus_of(ui: UiState) -> Seq<char> {
    match ui.inline_prompt_label {
        Some(l) => "input:"@ + l@,
        None => "tab:"@ + ui.tab.label_spec(),
    }
}

/// The status line: phase badge, selected action, focus and last status,
/// padded to `width` (at least one).
pub open spec fn status_line(session: SessionState, ui: UiState, width: nat, millis: nat) -> Seq<char> {
    let i = shown_index(ui.active_index as nat);
    pad(
        " "@ + badge_text(phase_spec(session, ui), millis) + " "@ + catalog_keys()[i] + ":"@
            + catalog_labels()[i] + " | "@ + focus_of(ui) + " | "@ + status_of(session) + " "@,
        if width == 0 {
            1
        } else {
            width
        },
    )
}

pub fn build_status_line(session: &SessionState, ui_state: &UiState, width: usize, millis: u64) -> (r: String)
    ensures
        r@ == status_line(*session, *ui_state, width as nat, millis as nat),
{
    let selected = selected_action(ui_state.active_index);
    let phase = resolve_ui_phase(session, ui_state);
    let mut line = String::from_str(" ");
    let badge = phase_badge(phase, millis);
    line.append(badge.as_str());
    line.append(" ");
    line.append(selected.key);
    line.append(":");
    line.append(selected.label);
    line.append(" | ");
    match &ui_state.inline_prompt_label {
        Some(label) => {
            line.append("input:");
            line.append(label.as_str());
        },
        None => {
            line.append("tab:");
            line.append(ui_state.tab.label());
        },
    }
    line.append(" | ");
    match &session.last_status {
        Some(s) => line.append(s.as_str()),
        None => line.append("-"),
    }
    line.append(" ");
    let w: usize = if width == 0 {
        1
    } else {
        width
    };
    pad_text(line.as_str(), w)
}

pub open spec fn help_lines() -> Seq<Seq<char>> {
    seq![
        "Help"@,
        Seq::empty(),
        "Hotkeys"@,
        "  Up/Down: Move selection"@,
        "  Enter: Run selected command"@,
        "  Tab: Switch tabs"@,
        "  F: Output search (filter)"@,
        "  PgUp/PgDn: Scroll output"@,
        "  /: Command palette"@,
        "  ?: Open Help tab"@,
        "  q or Esc: Exit"@,
    ]
}

/// The Help tab: a title, a blank line and the hotkeys.
pub fn build_help_lines() -> (r: Vec<String>)
    ensures
        lines_view(r@) == help_lines(),
{
    let r = vec![
        String::from_str("Help"),
        String::new(),
        String::from_str("Hotkeys"),
        String::from_str("  Up/Down: Move selection"),
        String::from_str("  Enter: Run selected command"),
        String::from_str("  Tab: Switch tabs"),
        String::from_str("  F: Output search (filter)"),
        String::from_str("  PgUp/PgDn: Scroll output"),
        String::from_str("  /: Command palette"),
        String::from_str("  ?: Open Help tab"),
        String::from_str("  q or Esc: Exit"),
    ];
    assert(lines_view(r@) =~= help_lines());
    r
}

pub open spec fn filter_label(search: Seq<char>) -> Seq<char> {
    if trim(search).len() == 0 {
        "(none)"@
    } else {
        trim(search)
    }
}

/// The head of the output view: phase, command, status and filter.
pub open spec fn view_header(session: SessionState, ui: UiState, millis: nat) -> Seq<Seq<char>> {
    seq![
        "Last run"@,
        Seq::empty(),
        "phase: "@ + badge_text(phase_spec(session, ui), millis),
        "command: "@ + match session.last_command {
            Some(c) => c@,
            None => "-"@,
        },
        "status: "@ + status_of(session),
        "filter: "@ + filter_label(ui.output_search@),
        Seq::empty(),
        "output:"@,
    ]
}

/// The open prompt, if any: its label and the text typed so far.
pub open spec fn prompt_block(ui: UiState) -> Seq<Seq<char>> {
    match ui.inline_prompt_label {
        Some(l) => seq![Seq::empty(), l@, "> "@ + ui.inline_prompt_value@ + "█"@, Seq::empty()],
        None => Seq::empty(),
    }
}

/// The window of filtered lines, or a note that none match.
pub open spec fn view_body(f: Seq<Seq<char>>, start: nat, end: nat) -> Seq<Seq<char>> {
    if start >= end {
        seq!["(no output lines for current filter)"@]
    } else {
        f.subrange(start as int, end as int)
    }
}

pub open spec fn view_footer(total: nat, start: nat, end: nat, offset: nat) -> Seq<char> {
    "view "@ + dec(if total == 0 { 0 } else { start + 1 }) + "-"@ + dec(if total == 0 { 0 } else { end })
        + " of "@ + dec(total) + " | offset "@ + dec(offset)
}

/// The Output tab for a session and view whose offset is already clamped.
pub open spec fn view_lines(session: SessionState, ui: UiState, viewport: nat, millis: nat) -> Seq<Seq<char>> {
    let f = filtered(lines_view(session.last_output_lines@), filter_query(ui.output_search@));
    let n = f.len();
    let off = ui.output_offset as nat;
    let start = window_start(n, viewport, off);
    let end = window_end(n, viewport, off);
    view_header(session, ui, millis) + prompt_block(ui) + view_body(f, start, end) + seq![
        Seq::empty(),
        view_footer(n, start, end, off),
    ]
}

/// Only the scroll offset changes: it is clamped to the filtered line count.
pub open spec fn offset_clamped(old_ui: UiState, new_ui: UiState, session: SessionState, viewport: nat) -> bool {
    &&& new_ui.output_offset == clamped_offset(
        old_ui.output_offset as nat,
        filtered(lines_view(session.last_output_lines@), filter_query(old_ui.output_search@)).len(),
        viewport,
    )
    &&& new_ui.active_index == old_ui.active_index
    &&& new_ui.tab == old_ui.tab
    &&& new_ui.output_search == old_ui.output_search
    &&& new_ui.inline_prompt_label == old_ui.inline_prompt_label
    &&& new_ui.inline_prompt_value == old_ui.inline_prompt_value
}

/// The Output tab: clamps the scroll offset to the filtered buffer, then lists
/// the header, the open prompt, the visible window and a position footer.
pub fn output_view_lines(session: &SessionState, ui_state: &mut UiState, viewport: usize, millis: u64) -> (r: Vec<String>)
    ensures
        offset_clamped(*old(ui_state), *final(ui_state), *session, viewport as nat),
        lines_view(r@) == view_lines(*session, *final(ui_state), viewport as nat, millis as nat),
{
    let filtered_lines = filter_output_lines(&session.last_output_lines, ui_state.output_search.as_str());
    let total = filtered_lines.len();
    ui_state.output_offset = clamp_output_offset(ui_state.output_offset, total, viewport);
    let (start, end) = output_window(total, viewport, ui_state.output_offset);
    let phase = resolve_ui_phase(session, ui_state);
    let badge = phase_badge(phase, millis);
    let mut command = String::from_str("command: ");
    match &session.last_command {
        Some(c) => command.append(c.as_str()),
        None => command.append("-"),
    }
    let mut status = String::from_str("status: ");
    match &session.last_status {
        Some(s) => status.append(s.as_str()),
        None => status.append("-"),
    }
    let sv = chars_of(ui_state.output_search.as_str());
    let st = trim_chars(sv.as_slice());
    let mut filter = String::from_str("filter: ");
    if st.len() == 0 {
        filter.append("(none)");
    } else {
        push_all(&mut filter, st.as_slice());
    }
    let mut lines: Vec<String> = vec![
        String::from_str("Last run"),
        String::new(),
        labeled("phase: ", badge.as_str()),
        command,
        status,
        filter,
        String::new(),
        String::from_str("output:"),
    ];
    assert(lines_view(lines@) =~= view_header(*session, *ui_state, millis as nat));
    let ghost head = lines_view(lines@);
    match &ui_state.inline_prompt_label {
        Some(label) => {
            lines.push(String::new());
            lines.push(label.clone());
            let mut typed = String::from_str("> ");
            typed.append(ui_state.inline_prompt_value.as_str());
            typed.append("█");
            lines.push(typed);
            lines.push(String::new());
        },
        None => {},
    }
    assert(lines_view(lines@) =~= head + prompt_block(*ui_state));
    let ghost with_prompt = lines_view(lines@);
    let ghost f = lines_view(filtered_lines@);
    if start >= end {
        lines.push(String::from_str("(no output lines for current filter)"));
        assert(lines_view(lines@) =~= with_prompt + view_body(f, start as nat, end as nat));
    } else {
        let mut k: usize = start;
        while k < end
            invariant
                start <= k <= end <= filtered_lines@.len(),
                f == lines_view(filtered_lines@),
                lines_view(lines@) == with_prompt + f.subrange(start as int, k as int),
            decreases end - k,
        {
            let ghost before = lines_view(lines@);
            lines.push(filtered_lines[k].clone());
            assert(f.subrange(start as int, k as int + 1) =~= f.subrange(start as int, k as int).push(f[k as int]));
            assert(lines_view(lines@) =~= before.push(f[k as int]));
            k = k + 1;
        }
    }
    let ghost with_body = lines_view(lines@);
    let from: usize = if total == 0 {
        0
    } else {
        start + 1
    };
    let to: usize = if total == 0 {
        0
    } else {
        end
    };
    let mut footer = String::from_str("view ");
    let a = usize_text(from);
    footer.append(a.as_str());
    footer.append("-");
    let b = usize_text(to);
    footer.append(b.as_str());
    footer.append(" of ");
    let c = usize_text(total);
    footer.append(c.as_str());
    footer.append(" | offset ");
    let d = usize_text(ui_state.output_offset);
    footer.append(d.as_str());
    lines.push(String::new());
    lines.push(footer);
    assert(lines_view(lines@) =~= with_body + seq![Seq::<char>::empty(), view_footer(total as nat, start as nat, end as nat, ui_state.output_offset as nat)]);
    lines
}

/// The lines of the active tab: the hotkeys, the command drawer, or the
/// output view (which clamps the scroll offset).
pub fn build_tab_lines(session: &SessionState, ui_state: &mut UiState, viewport: usize, millis: u64) -> (r: Vec<String>)
    ensures
        old(ui_state).tab == DashboardTab::Output ==> offset_clamped(*old(ui_state), *final(ui_state), *session, viewport as nat),
        old(ui_state).tab != DashboardTab::Output ==> *final(ui_state) == *old(ui_state),
        lines_view(r@) == match old(ui_state).tab {
            DashboardTab::Help => help_lines(),
            DashboardTab::Commands => drawer_lines(old(ui_state).active_index as nat),
            DashboardTab::Output => view_lines(*session, *final(ui_state), viewport as nat, millis as nat),
        },
{
    match ui_state.tab {
        DashboardTab::Help => build_help_lines(),
        DashboardTab::Commands => build_command_drawer(ui_state.active_index),
        DashboardTab::Output => output_view_lines(session, ui_state, viewport, millis),
    }
}

} // verus!
