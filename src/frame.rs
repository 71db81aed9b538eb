//! Whole dashboard frames: the rows to draw, in the double-pane layout for
//! wide terminals and the single-pane layout otherwise.
use vstd::prelude::*;
use crate::dashboard::{
    build_hero_line, build_header_tracker, build_menu_lines, build_command_drawer,
    build_status_line, build_tab_lines, build_tabs, drawer_lines, help_lines, hero_text, menu_lines,
    offset_clamped, status_line, tabs_text, tracker_text, view_lines,
};
use crate::state::{lines_view, phase_spec, DashboardTab, SessionState, UiState};
use crate::text::{chars_of, has_prefix, pad, pad_text, push_all, repeat, repeat_chars, starts_with_chars};
use crate::theme::Theme;

verus! {

/// Terminals at least this wide get the double-pane layout.
pub const DOUBLE_PANE_MIN_COLS: usize = 110;

pub open spec fn sat_sub(a: nat, b: nat) -> nat {
    if a > b {
        (a - b) as nat
    } else {
        0
    }
}

pub open spec fn at_least(a: nat, b: nat) -> nat {
    if a > b {
        a
    } else {
        b
    }
}

/// A horizontal rule `+---+` of `n` dashes.
pub open spec fn rule(t: Theme, n: nat) -> Seq<char> {
    t.border@ + "+"@ + repeat('-', n) + "+"@ + t.reset@
}

/// A boxed row with the content in the default style.
pub open spec fn boxed(t: Theme, inner: Seq<char>) -> Seq<char> {
    t.border@ + "|"@ + t.reset@ + inner + t.border@ + "|"@ + t.reset@
}

/// A boxed row with the content in `style`.
pub open spec fn boxed_styled(t: Theme, style: Seq<char>, inner: Seq<char>) -> Seq<char> {
    t.border@ + "|"@ + t.reset@ + style + inner + t.reset@ + "|"@ + t.border@
}

pub open spec fn footer_text(double: bool) -> Seq<char> {
    if double {
        " ↑↓ Move • Enter Run • Tab Views • f Filter • / Palette • PgUp/PgDn Scroll • q Quit "@
    } else {
        " Enter Run • Tab Views • f Filter • / Palette • PgUp/PgDn • q Quit "@
    }
}

/// The rows above the panes: a rule, the hero banner when enabled, the
/// title with the tab strip and the focus tracker.
pub open spec fn frame_head(
    t: Theme,
    session: SessionState,
    ui: UiState,
    hero: bool,
    millis: nat,
    width: nat,
) -> Seq<Seq<char>> {
    seq![rule(t, width)] + (if hero {
        seq![boxed_styled(t, t.hero@, hero_text(phase_spec(session, ui), millis, width))]
    } else {
        Seq::empty()
    }) + seq![
        boxed(t, pad(" xint dashboard "@ + tabs_text(ui.tab), width)),
        boxed_styled(t, t.accent@, pad(" "@ + tracker_text(ui, 16), width)),
    ]
}

/// The rows below the panes (after the closing rule of the panes).
pub open spec fn frame_tail(t: Theme, session: SessionState, ui: UiState, millis: nat, width: nat, double: bool) -> Seq<Seq<char>> {
    seq![
        boxed_styled(t, t.accent@, status_line(session, ui, width, millis)),
        boxed(t, pad(footer_text(double), width)),
        rule(t, width),
    ]
}

pub open spec fn line_at(lines: Seq<Seq<char>>, i: int) -> Seq<char> {
    if 0 <= i < lines.len() {
        lines[i]
    } else {
        Seq::empty()
    }
}

pub open spec fn last_rows(lines: Seq<Seq<char>>, n: nat) -> Seq<Seq<char>> {
    if lines.len() > n {
        lines.subrange(lines.len() - n, lines.len() as int)
    } else {
        lines
    }
}

/// The rule between the head and the two panes.
pub open spec fn split_rule(t: Theme, left_box: nat, right_box: nat) -> Seq<char> {
    t.border@ + "+"@ + repeat('-', sat_sub(left_box, 2)) + "+ +"@ + repeat('-', sat_sub(right_box, 2))
        + "+"@ + t.reset@
}

/// One row of the two panes: the menu line on the left (highlighted when
/// selected) and the tab's line on the right.
pub open spec fn pane_row(t: Theme, left_raw: Seq<char>, right_raw: Seq<char>, left_inner: nat, right_inner: nat) -> Seq<char> {
    let style = if has_prefix(left_raw, "> "@) {
        t.accent@
    } else {
        t.muted@
    };
    t.border@ + "|"@ + t.reset@ + style + pad(left_raw, left_inner) + t.reset@ + t.border@ + "|"@
        + t.reset@ + " "@ + t.border@ + "|"@ + t.muted@ + pad(right_raw, right_inner) + t.border@ + "|"@
        + t.reset@
}

pub open spec fn double_rows(rows: nat, hero: bool) -> nat {
    at_least(sat_sub(rows, if hero { 10 } else { 9 }), 12)
}

pub open spec fn left_box_width(cols: nat) -> nat {
    at_least(cols * 45 / 100, 46)
}

pub open spec fn right_box_width(cols: nat) -> nat {
    at_least(sat_sub(cols, left_box_width(cols) + 1), 30)
}

/// The tab's lines as the right pane of a double-pane frame gets them.
pub open spec fn right_pane(session: SessionState, ui: UiState, viewport: nat, millis: nat) -> Seq<Seq<char>> {
    match ui.tab {
        DashboardTab::Help => help_lines(),
        DashboardTab::Commands => drawer_lines(ui.active_index as nat),
        DashboardTab::Output => view_lines(session, ui, viewport, millis),
    }
}

/// The double-pane frame, for a view whose scroll offset is already clamped.
pub open spec fn double_frame(
    t: Theme,
    session: SessionState,
    ui: UiState,
    hero: bool,
    millis: nat,
    cols: nat,
    rows: nat,
) -> Seq<Seq<char>> {
    let total = double_rows(rows, hero);
    let lbw = left_box_width(cols);
    let rbw = right_box_width(cols);
    let li = at_least(sat_sub(lbw, 2), 20);
    let ri = at_least(sat_sub(rbw, 2), 20);
    let width = sat_sub(cols, 2);
    let left = menu_lines(ui.active_index as nat);
    let right = last_rows(right_pane(session, ui, total, millis), total);
    frame_head(t, session, ui, hero, millis, width) + seq![split_rule(t, lbw, rbw)] + pane_rows(
        t,
        left,
        right,
        li,
        ri,
        total,
    ) + seq![split_rule(t, lbw, rbw)] + frame_tail(t, session, ui, millis, width, true)
}

/// The first `n` rows of the two panes.
pub open spec fn pane_rows(
    t: Theme,
    left: Seq<Seq<char>>,
    right: Seq<Seq<char>>,
    li: nat,
    ri: nat,
    n: nat,
) -> Seq<Seq<char>> {
    Seq::new(n, |row: int| pane_row(t, line_at(left, row), line_at(right, row), li, ri))
}

pub open spec fn single_rows(rows: nat, hero: bool) -> nat {
    at_least(sat_sub(rows, if hero { 9 } else { 8 }), 10)
}

/// The content of the single pane: the menu and the drawer on the Commands
/// tab, else the tab's lines with twice the rows as viewport.
pub open spec fn single_content(session: SessionState, ui: UiState, total: nat, millis: nat) -> Seq<Seq<char>> {
    if ui.tab == DashboardTab::Commands {
        menu_lines(ui.active_index as nat) + seq![Seq::empty()] + drawer_lines(ui.active_index as nat)
    } else {
        right_pane(session, ui, total * 2, millis)
    }
}

pub open spec fn single_row(t: Theme, line: Seq<char>, width: nat) -> Seq<char> {
    boxed_styled(
        t,
        if has_prefix(line, "> "@) {
            t.accent@
        } else {
            t.muted@
        },
        pad(line, width),
    )
}

pub open spec fn blank_row(t: Theme, width: nat) -> Seq<char> {
    t.border@ + "|"@ + t.reset@ + repeat(' ', width) + "|"@ + t.border@
}

/// The single-pane frame, for a view whose scroll offset is already clamped.
pub open spec fn single_frame(
    t: Theme,
    session: SessionState,
    ui: UiState,
    hero: bool,
    millis: nat,
    cols: nat,
    rows: nat,
) -> Seq<Seq<char>> {
    let width = at_least(sat_sub(cols, 2), 30);
    let total = single_rows(rows, hero);
    let shown = last_rows(single_content(session, ui, total, millis), total);
    frame_head(t, session, ui, hero, millis, width) + seq![rule(t, width)] + Seq::new(
        shown.len(),
        |i: int| single_row(t, shown[i], width),
    ) + Seq::new((total - shown.len()) as nat, |i: int| blank_row(t, width)) + seq![rule(t, width)]
        + frame_tail(t, session, ui, millis, width, false)
}

fn rule_exec(t: &Theme, n: usize) -> (r: String)
    ensures
        r@ == rule(*t, n as nat),
{
    let mut r = t.border.clone();
    r.append("+");
    let dashes = repeat_chars('-', n);
    push_all(&mut r, dashes.as_slice());
    r.append("+");
    r.append(t.reset.as_str());
    r
}

fn boxed_exec(t: &Theme, inner: &str) -> (r: String)
    ensures
        r@ == boxed(*t, inner@),
{
    let mut r = t.border.clone();
    r.append("|");
    r.append(t.reset.as_str());
    r.append(inner);
    r.append(t.border.as_str());
    r.append("|");
    r.append(t.reset.as_str());
    r
}

fn boxed_styled_exec(t: &Theme, style: &str, inner: &str) -> (r: String)
    ensures
        r@ == boxed_styled(*t, style@, inner@),
{
    let mut r = t.border.clone();
    r.append("|");
    r.append(t.reset.as_str());
    r.append(style);
    r.append(inner);
    r.append(t.reset.as_str());
    r.append("|");
    r.append(t.border.as_str());
    r
}

fn head_rows(t: &Theme, session: &SessionState, ui_state: &UiState, hero: bool, millis: u64, width: usize) -> (r: Vec<String>)
    ensures
        lines_view(r@) == frame_head(*t, *session, *ui_state, hero, millis as nat, width as nat),
{
    let mut out: Vec<String> = Vec::new();
    out.push(rule_exec(t, width));
    if hero {
        let h = build_hero_line(ui_state, session, width, millis);
        out.push(boxed_styled_exec(t, t.hero.as_str(), h.as_str()));
    }
    let tabs = build_tabs(ui_state);
    let mut title = String::from_str(" xint dashboard ");
    title.append(tabs.as_str());
    let title_row = pad_text(title.as_str(), width);
    out.push(boxed_exec(t, title_row.as_str()));
    let tracker = build_header_tracker(ui_state, 16);
    let mut tr = String::from_str(" ");
    tr.append(tracker.as_str());
    let tracker_row = pad_text(tr.as_str(), width);
    out.push(boxed_styled_exec(t, t.accent.as_str(), tracker_row.as_str()));
    assert(lines_view(out@) =~= frame_head(*t, *session, *ui_state, hero, millis as nat, width as nat));
    out
}

fn tail_rows(t: &Theme, session: &SessionState, ui_state: &UiState, millis: u64, width: usize, double: bool) -> (r: Vec<String>)
    ensures
        lines_view(r@) == frame_tail(*t, *session, *ui_state, millis as nat, width as nat, double),
{
    let status = build_status_line(session, ui_state, width, millis);
    let footer = if double {
        " ↑↓ Move • Enter Run • Tab Views • f Filter • / Palette • PgUp/PgDn Scroll • q Quit "
    } else {
        " Enter Run • Tab Views • f Filter • / Palette • PgUp/PgDn • q Quit "
    };
    let footer_row = pad_text(footer, width);
    let out = vec![
        boxed_styled_exec(t, t.accent.as_str(), status.as_str()),
        boxed_exec(t, footer_row.as_str()),
        rule_exec(t, width),
    ];
    assert(lines_view(out@) =~= frame_tail(*t, *session, *ui_state, millis as nat, width as nat, double));
    out
}

fn append_rows(out: &mut Vec<String>, more: Vec<String>)
    ensures
        lines_view(final(out)@) == lines_view(old(out)@) + lines_view(more@),
{
    let mut i: usize = 0;
    let ghost base = lines_view(out@);
    while i < more.len()
        invariant
            i <= more@.len(),
            lines_view(out@) == base + lines_view(more@).take(i as int),
        decreases more@.len() - i,
    {
        let ghost before = lines_view(out@);
        out.push(more[i].clone());
        assert(lines_view(more@).take(i as int + 1) =~= lines_view(more@).take(i as int).push(more@[i as int]@));
        assert(lines_view(out@) =~= before.push(more@[i as int]@));
        i = i + 1;
    }
    assert(lines_view(more@).take(more@.len() as int) =~= lines_view(more@));
}

fn line_or_empty(lines: &Vec<String>, i: usize) -> (r: String)
    ensures
        r@ == line_at(lines_view(lines@), i as int),
{
    if i < lines.len() {
        lines[i].clone()
    } else {
        String::new()
    }
}

fn keep_last(lines: Vec<String>, n: usize) -> (r: Vec<String>)
    ensures
        lines_view(r@) == last_rows(lines_view(lines@), n as nat),
{
    if lines.len() > n {
        let mut r: Vec<String> = Vec::new();
        let start = lines.len() - n;
        let mut i: usize = start;
        while i < lines.len()
            invariant
                start == lines@.len() - n,
                start <= i <= lines@.len(),
                lines_view(r@) == lines_view(lines@).subrange(start as int, i as int),
            decreases lines@.len() - i,
        {
            let ghost before = lines_view(r@);
            r.push(lines[i].clone());
            assert(lines_view(r@) =~= before.push(lines@[i as int]@));
            assert(lines_view(lines@).subrange(start as int, i as int + 1) =~= lines_view(lines@).subrange(start as int, i as int).push(lines@[i as int]@));
            i = i + 1;
        }
        r
    } else {
        lines
    }
}

fn pane_row_exec(t: &Theme, left_raw: &str, right_raw: &str, left_inner: usize, right_inner: usize) -> (r: String)
    ensures
        r@ == pane_row(*t, left_raw@, right_raw@, left_inner as nat, right_inner as nat),
{
    let lv = chars_of(left_raw);
    let marker = chars_of("> ");
    let left = pad_text(left_raw, left_inner);
    let right = pad_text(right_raw, right_inner);
    let mut r = t.border.clone();
    r.append("|");
    r.append(t.reset.as_str());
    if starts_with_chars(lv.as_slice(), marker.as_slice()) {
        r.append(t.accent.as_str());
    } else {
        r.append(t.muted.as_str());
    }
    r.append(left.as_str());
    r.append(t.reset.as_str());
    r.append(t.border.as_str());
    r.append("|");
    r.append(t.reset.as_str());
    r.append(" ");
    r.append(t.border.as_str());
    r.append("|");
    r.append(t.muted.as_str());
    r.append(right.as_str());
    r.append(t.border.as_str());
    r.append("|");
    r.append(t.reset.as_str());
    r
}

fn split_exec(t: &Theme, left_box: usize, right_box: usize) -> (r: String)
    ensures
        r@ == split_rule(*t, left_box as nat, right_box as nat),
{
    let mut s = t.border.clone();
    s.append("+");
    let a = repeat_chars('-', if left_box > 2 { left_box - 2 } else { 0 });
    push_all(&mut s, a.as_slice());
    s.append("+ +");
    let b = repeat_chars('-', if right_box > 2 { right_box - 2 } else { 0 });
    push_all(&mut s, b.as_slice());
    s.append("+");
    s.append(t.reset.as_str());
    s
}

fn pane_body(t: &Theme, left: &Vec<String>, right: &Vec<String>, left_inner: usize, right_inner: usize, total: usize) -> (r: Vec<String>)
    ensures
        lines_view(r@) == pane_rows(*t, lines_view(left@), lines_view(right@), left_inner as nat, right_inner as nat, total as nat),
{
    let ghost lv = lines_view(left@);
    let ghost rv = lines_view(right@);
    let mut out: Vec<String> = Vec::new();
    let mut row: usize = 0;
    while row < total
        invariant
            row <= total,
            lv == lines_view(left@),
            rv == lines_view(right@),
            lines_view(out@) == pane_rows(*t, lv, rv, left_inner as nat, right_inner as nat, row as nat),
        decreases total - row,
    {
        let l = line_or_empty(left, row);
        let r = line_or_empty(right, row);
        let ghost before = lines_view(out@);
        out.push(pane_row_exec(t, l.as_str(), r.as_str(), left_inner, right_inner));
        let ghost this_row = pane_row(*t, line_at(lv, row as int), line_at(rv, row as int), left_inner as nat, right_inner as nat);
        assert(pane_rows(*t, lv, rv, left_inner as nat, right_inner as nat, (row + 1) as nat) =~= pane_rows(*t, lv, rv, left_inner as nat, right_inner as nat, row as nat).push(this_row));
        assert(lines_view(out@) =~= before.push(this_row));
        row = row + 1;
    }
    out
}

/// The double-pane frame: menu on the left, the active tab on the right.
pub fn double_pane_frame(
    ui_state: &mut UiState,
    session: &SessionState,
    theme: &Theme,
    hero: bool,
    millis: u64,
    cols: usize,
    rows: usize,
) -> (r: Vec<String>)
    requires
        cols <= 65535,
        rows <= 65535,
    ensures
        old(ui_state).tab == DashboardTab::Output ==> offset_clamped(
            *old(ui_state),
            *final(ui_state),
            *session,
            double_rows(rows as nat, hero),
        ),
        old(ui_state).tab != DashboardTab::Output ==> *final(ui_state) == *old(ui_state),
        lines_view(r@) == double_frame(*theme, *session, *final(ui_state), hero, millis as nat, cols as nat, rows as nat),
{
    let back: usize = if hero {
        10
    } else {
        9
    };
    let total_rows: usize = if rows > back && rows - back > 12 {
        rows - back
    } else {
        12
    };
    let left_box: usize = if cols * 45 / 100 > 46 {
        cols * 45 / 100
    } else {
        46
    };
    let right_box: usize = if cols > left_box + 1 && cols - (left_box + 1) > 30 {
        cols - (left_box + 1)
    } else {
        30
    };
    let left_inner: usize = if left_box > 2 && left_box - 2 > 20 {
        left_box - 2
    } else {
        20
    };
    let right_inner: usize = if right_box > 2 && right_box - 2 > 20 {
        right_box - 2
    } else {
        20
    };
    let width: usize = if cols > 2 {
        cols - 2
    } else {
        0
    };
    let left_lines = build_menu_lines(ui_state.active_index);
    let tab_lines = build_tab_lines(session, ui_state, total_rows, millis);
    let ghost tab_view = lines_view(tab_lines@);
    let right_lines = keep_last(tab_lines, total_rows);
    let mut out = head_rows(theme, session, ui_state, hero, millis, width);
    let split = split_exec(theme, left_box, right_box);
    let body = pane_body(theme, &left_lines, &right_lines, left_inner, right_inner, total_rows);
    let tail = tail_rows(theme, session, ui_state, millis, width, true);
    let ghost head = lines_view(out@);
    let ghost body_v = lines_view(body@);
    let ghost tail_v = lines_view(tail@);
    let ghost split_v = split@;
    out.push(split.clone());
    assert(lines_view(out@) =~= head + seq![split_v]);
    append_rows(&mut out, body);
    let ghost s2 = lines_view(out@);
    out.push(split);
    assert(lines_view(out@) =~= s2 + seq![split_v]);
    append_rows(&mut out, tail);
    assert(lines_view(out@) =~= head + seq![split_v] + body_v + seq![split_v] + tail_v);
    proof {
        let fu = *final(ui_state);
        assert(right_pane(*session, fu, total_rows as nat, millis as nat) == tab_view);
        assert(total_rows as nat == double_rows(rows as nat, hero));
        assert(left_box as nat == left_box_width(cols as nat));
        assert(right_box as nat == right_box_width(cols as nat));
        assert(left_inner as nat == at_least(sat_sub(left_box as nat, 2), 20));
        assert(right_inner as nat == at_least(sat_sub(right_box as nat, 2), 20));
        assert(width as nat == sat_sub(cols as nat, 2));
        assert(fu.active_index == old(ui_state).active_index);
        assert(lines_view(left_lines@) == menu_lines(fu.active_index as nat));
        assert(lines_view(right_lines@) == last_rows(right_pane(*session, fu, total_rows as nat, millis as nat), total_rows as nat));
        assert(head == frame_head(*theme, *session, fu, hero, millis as nat, sat_sub(cols as nat, 2)));
        assert(lines_view(out@) =~= double_frame(*theme, *session, fu, hero, millis as nat, cols as nat, rows as nat));
    }
    out
}

fn single_rows_exec(t: &Theme, shown: &Vec<String>, width: usize) -> (r: Vec<String>)
    ensures
        lines_view(r@) == Seq::new(lines_view(shown@).len(), |i: int| single_row(*t, lines_view(shown@)[i], width as nat)),
{
    let ghost sv = lines_view(shown@);
    let marker = chars_of("> ");
    let mut out: Vec<String> = Vec::new();
    let mut i: usize = 0;
    while i < shown.len()
        invariant
            i <= shown@.len(),
            sv == lines_view(shown@),
            marker@ == "> "@,
            lines_view(out@) == Seq::new(i as nat, |k: int| single_row(*t, sv[k], width as nat)),
        decreases shown@.len() - i,
    {
        let line = &shown[i];
        let lv = chars_of(line.as_str());
        let row = pad_text(line.as_str(), width);
        let styled = if starts_with_chars(lv.as_slice(), marker.as_slice()) {
            boxed_styled_exec(t, t.accent.as_str(), row.as_str())
        } else {
            boxed_styled_exec(t, t.muted.as_str(), row.as_str())
        };
        let ghost before = lines_view(out@);
        out.push(styled);
        assert(sv[i as int] == line@);
        assert(Seq::new((i + 1) as nat, |k: int| single_row(*t, sv[k], width as nat)) =~= Seq::new(i as nat, |k: int| single_row(*t, sv[k], width as nat)).push(single_row(*t, sv[i as int], width as nat)));
        assert(lines_view(out@) =~= before.push(single_row(*t, sv[i as int], width as nat)));
        i = i + 1;
    }
    out
}

fn blank_rows_exec(t: &Theme, n: usize, width: usize) -> (r: Vec<String>)
    ensures
        lines_view(r@) == Seq::new(n as nat, |i: int| blank_row(*t, width as nat)),
{
    let mut row = t.border.clone();
    row.append("|");
    row.append(t.reset.as_str());
    let spaces = repeat_chars(' ', width);
    push_all(&mut row, spaces.as_slice());
    row.append("|");
    row.append(t.border.as_str());
    let mut out: Vec<String> = Vec::new();
    let mut i: usize = 0;
    while i < n
        invariant
            i <= n,
            row@ == blank_row(*t, width as nat),
            lines_view(out@) == Seq::new(i as nat, |k: int| blank_row(*t, width as nat)),
        decreases n - i,
    {
        let ghost before = lines_view(out@);
        out.push(row.clone());
        assert(lines_view(out@) =~= before.push(row@));
        assert(Seq::new((i + 1) as nat, |k: int| blank_row(*t, width as nat)) =~= Seq::new(i as nat, |k: int| blank_row(*t, width as nat)).push(row@));
        i = i + 1;
    }
    out
}

/// The single-pane frame: the menu and drawer on the Commands tab, else the
/// active tab alone.
pub fn single_pane_frame(
    ui_state: &mut UiState,
    session: &SessionState,
    theme: &Theme,
    hero: bool,
    millis: u64,
    cols: usize,
    rows: usize,
) -> (r: Vec<String>)
    requires
        cols <= 65535,
        rows <= 65535,
    ensures
        old(ui_state).tab == DashboardTab::Output ==> offset_clamped(
            *old(ui_state),
            *final(ui_state),
            *session,
            single_rows(rows as nat, hero) * 2,
        ),
        old(ui_state).tab != DashboardTab::Output ==> *final(ui_state) == *old(ui_state),
        lines_view(r@) == single_frame(*theme, *session, *final(ui_state), hero, millis as nat, cols as nat, rows as nat),
{
    let width: usize = if cols > 2 && cols - 2 > 30 {
        cols - 2
    } else {
        30
    };
    let back: usize = if hero {
        9
    } else {
        8
    };
    let total_rows: usize = if rows > back && rows - back > 10 {
        rows - back
    } else {
        10
    };
    let content = if ui_state.tab == DashboardTab::Commands {
        let mut merged = build_menu_lines(ui_state.active_index);
        let ghost m = lines_view(merged@);
        merged.push(String::new());
        let drawer = build_command_drawer(ui_state.active_index);
        assert(lines_view(merged@) =~= m + seq![Seq::<char>::empty()]);
        append_rows(&mut merged, drawer);
        merged
    } else {
        build_tab_lines(session, ui_state, total_rows * 2, millis)
    };
    let ghost content_v = lines_view(content@);
    let shown = keep_last(content, total_rows);
    let mut out = head_rows(theme, session, ui_state, hero, millis, width);
    let rule_row = rule_exec(theme, width);
    let body = single_rows_exec(theme, &shown, width);
    let blanks = blank_rows_exec(theme, total_rows - shown.len(), width);
    let tail = tail_rows(theme, session, ui_state, millis, width, false);
    let ghost head = lines_view(out@);
    let ghost body_v = lines_view(body@);
    let ghost blanks_v = lines_view(blanks@);
    let ghost tail_v = lines_view(tail@);
    let ghost rule_v = rule_row@;
    out.push(rule_row.clone());
    assert(lines_view(out@) =~= head + seq![rule_v]);
    append_rows(&mut out, body);
    append_rows(&mut out, blanks);
    let ghost s3 = lines_view(out@);
    out.push(rule_row);
    assert(lines_view(out@) =~= s3 + seq![rule_v]);
    append_rows(&mut out, tail);
    assert(lines_view(out@) =~= head + seq![rule_v] + body_v + blanks_v + seq![rule_v] + tail_v);
    proof {
        let fu = *final(ui_state);
        assert(total_rows as nat == single_rows(rows as nat, hero));
        assert(width as nat == at_least(sat_sub(cols as nat, 2), 30));
        assert(content_v == single_content(*session, fu, total_rows as nat, millis as nat));
        assert(lines_view(shown@) == last_rows(content_v, total_rows as nat));
        assert(lines_view(out@) =~= single_frame(*theme, *session, fu, hero, millis as nat, cols as nat, rows as nat));
    }
    out
}

/// The frame for a terminal of `cols` by `rows` cells: double-pane from
/// `DOUBLE_PANE_MIN_COLS` columns up, single-pane below.
pub fn dashboard_frame(
    ui_state: &mut UiState,
    session: &SessionState,
    theme: &Theme,
    hero: bool,
    millis: u64,
    cols: usize,
    rows: usize,
) -> (r: Vec<String>)
    requires
        cols <= 65535,
        rows <= 65535,
    ensures
        old(ui_state).tab == DashboardTab::Output ==> offset_clamped(
            *old(ui_state),
            *final(ui_state),
            *session,
            if cols < DOUBLE_PANE_MIN_COLS {
                single_rows(rows as nat, hero) * 2
            } else {
                double_rows(rows as nat, hero)
            },
        ),
        old(ui_state).tab != DashboardTab::Output ==> *final(ui_state) == *old(ui_state),
        lines_view(r@) == if cols < DOUBLE_PANE_MIN_COLS {
            single_frame(*theme, *session, *final(ui_state), hero, millis as nat, cols as nat, rows as nat)
        } else {
            double_frame(*theme, *session, *final(ui_state), hero, millis as nat, cols as nat, rows as nat)
        },
{
    if cols < DOUBLE_PANE_MIN_COLS {
        single_pane_frame(ui_state, session, theme, hero, millis, cols, rows)
    } else {
        double_pane_frame(ui_state, session, theme, hero, millis, cols, rows)
    }
}

} // verus!
