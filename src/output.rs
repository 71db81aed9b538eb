//! The output buffer: a sanitizer that strips terminal control sequences, a
//! ring of at most `OUTPUT_CAP` lines, and the filtered, clamped view of it.
use vstd::prelude::*;
use crate::state::{lines_view, SessionState, UiState, DashboardTab};
use crate::text::{
    chars_of, contains_chars, has_infix, lower, lower_chars, string_of, trim, trim_chars,
    trim_end, trim_end_chars,
};

verus! {

/// Most lines the output buffer keeps.
pub const OUTPUT_CAP: usize = 1200;

#[derive(Debug, Clone, Copy, PartialEq, Eq, Structural)]
pub enum ScanState {
    /// Ordinary text.
    Text,
    /// Just after an escape character.
    Escape,
    /// Inside a control sequence (`ESC [`), up to its final byte.
    Csi,
    /// Inside an operating-system command (`ESC ]`), up to BEL or `ESC \`.
    Osc,
    /// Inside an operating-system command, just after an escape character.
    OscEscape,
}

/// Characters kept in ordinary text: newline, tab and everything that is not a
/// control character (general category Cc).
pub open spec fn is_kept(c: char) -> bool {
    c == '\n' || c == '\t' || !(c <= '\u{1f}' || ('\u{7f}' <= c && c <= '\u{9f}'))
}

pub open spec fn text_char(out: Seq<char>, c: char) -> (ScanState, Seq<char>) {
    if c == '\u{1b}' {
        (ScanState::Escape, out)
    } else if is_kept(c) {
        (ScanState::Text, out.push(c))
    } else {
        (ScanState::Text, out)
    }
}

pub open spec fn osc_char(out: Seq<char>, c: char) -> (ScanState, Seq<char>) {
    if c == '\u{7}' {
        (ScanState::Text, out)
    } else if c == '\u{1b}' {
        (ScanState::OscEscape, out)
    } else {
        (ScanState::Osc, out)
    }
}

/// One character of the sanitizer: the next state and the kept text.
pub open spec fn scan_step(st: ScanState, out: Seq<char>, c: char) -> (ScanState, Seq<char>) {
    match st {
        ScanState::Text => text_char(out, c),
        ScanState::Escape => if c == '[' {
            (ScanState::Csi, out)
        } else if c == ']' {
            (ScanState::Osc, out)
        } else {
            text_char(out, c)
        },
        ScanState::Csi => if '@' <= c && c <= '~' {
            (ScanState::Text, out)
        } else {
            (ScanState::Csi, out)
        },
        ScanState::Osc => osc_char(out, c),
        ScanState::OscEscape => if c == '\\' {
            (ScanState::Text, out)
        } else {
            osc_char(out, c)
        },
    }
}

pub open spec fn scan_from(st: ScanState, out: Seq<char>, s: Seq<char>) -> (ScanState, Seq<char>)
    decreases s.len(),
{
    if s.len() == 0 {
        (st, out)
    } else {
        let (st2, out2) = scan_from(st, out, s.drop_last());
        scan_step(st2, out2, s.last())
    }
}

/// The visible text of a raw line.
pub open spec fn sanitize(s: Seq<char>) -> Seq<char> {
    scan_from(ScanState::Text, Seq::empty(), s).1
}

/// A raw line as the buffer stores it: sanitized, trailing whitespace removed.
pub open spec fn clean_line(raw: Seq<char>) -> Seq<char> {
    trim_end(sanitize(raw))
}

pub open spec fn last_n(s: Seq<Seq<char>>, n: nat) -> Seq<Seq<char>> {
    if s.len() <= n {
        s
    } else {
        s.subrange(s.len() - n, s.len() as int)
    }
}

/// The buffer after one raw line is appended: an empty cleaned line is
/// dropped, otherwise it is added and only the newest `OUTPUT_CAP` lines stay.
pub open spec fn appended(buf: Seq<Seq<char>>, raw: Seq<char>) -> Seq<Seq<char>> {
    if clean_line(raw).len() == 0 {
        buf
    } else {
        last_n(buf.push(clean_line(raw)), OUTPUT_CAP as nat)
    }
}

/// The buffer after each of `raws` is appended in turn.
pub open spec fn appended_all(buf: Seq<Seq<char>>, raws: Seq<Seq<char>>) -> Seq<Seq<char>>
    decreases raws.len(),
{
    if raws.len() == 0 {
        buf
    } else {
        appended(appended_all(buf, raws.drop_last()), raws.last())
    }
}

/// Strips CSI and OSC sequences and control characters from a line, keeping
/// newlines and tabs.
pub fn sanitize_output_line(raw: &str) -> (r: String)
    ensures
        r@ == sanitize(raw@),
{
    let v = chars_of(raw);
    let mut out: Vec<char> = Vec::new();
    let mut st = ScanState::Text;
    let mut i: usize = 0;
    while i < v.len()
        invariant
            v@ == raw@,
            i <= v@.len(),
            (st, out@) == scan_from(ScanState::Text, Seq::empty(), v@.take(i as int)),
        decreases v@.len() - i,
    {
        let c = v[i];
        assert(v@.take(i as int + 1).drop_last() == v@.take(i as int));
        let text_mode = match st {
            ScanState::Text => true,
            ScanState::Escape => {
                if c == '[' {
                    st = ScanState::Csi;
                    false
                } else if c == ']' {
                    st = ScanState::Osc;
                    false
                } else {
                    true
                }
            },
            ScanState::Csi => {
                if '@' <= c && c <= '~' {
                    st = ScanState::Text;
                }
                false
            },
            ScanState::Osc => {
                st = osc_next(c);
                false
            },
            ScanState::OscEscape => {
                if c == '\\' {
                    st = ScanState::Text;
                } else {
                    st = osc_next(c);
                }
                false
            },
        };
        if text_mode {
            if c == '\u{1b}' {
                st = ScanState::Escape;
            } else {
                st = ScanState::Text;
                if c == '\n' || c == '\t' || !(c <= '\u{1f}' || ('\u{7f}' <= c && c <= '\u{9f}')) {
                    out.push(c);
                }
            }
        }
        i = i + 1;
    }
    assert(v@.take(v@.len() as int) == v@);
    string_of(out.as_slice())
}

fn osc_next(c: char) -> (r: ScanState)
    ensures
        r == osc_char(Seq::empty(), c).0,
{
    if c == '\u{7}' {
        ScanState::Text
    } else if c == '\u{1b}' {
        ScanState::OscEscape
    } else {
        ScanState::Osc
    }
}

/// Appends one raw line of subcommand output to the session buffer.
pub fn append_output(session: &mut SessionState, line: String)
    ensures
        lines_view(final(session).last_output_lines@) == appended(
            lines_view(old(session).last_output_lines@),
            line@,
        ),
        final(session).last_search == old(session).last_search,
        final(session).last_location == old(session).last_location,
        final(session).last_username == old(session).last_username,
        final(session).last_tweet_ref == old(session).last_tweet_ref,
        final(session).last_article_url == old(session).last_article_url,
        final(session).last_command == old(session).last_command,
        final(session).last_status == old(session).last_status,
{
    let s = sanitize_output_line(line.as_str());
    let sv = chars_of(s.as_str());
    let tv = trim_end_chars(sv.as_slice());
    if tv.len() == 0 {
        return;
    }
    let trimmed = string_of(tv.as_slice());
    let ghost pushed = lines_view(old(session).last_output_lines@).push(trimmed@);
    session.last_output_lines.push(trimmed);
    assert(lines_view(session.last_output_lines@) =~= pushed);
    let ghost total = session.last_output_lines@.len();
    while session.last_output_lines.len() > OUTPUT_CAP
        invariant
            total == pushed.len(),
            session.last_output_lines@.len() >= OUTPUT_CAP || session.last_output_lines@.len() == total,
            total >= session.last_output_lines@.len(),
            lines_view(session.last_output_lines@) == pushed.subrange(
                total - session.last_output_lines@.len(),
                total as int,
            ),
            session.last_search == old(session).last_search,
            session.last_location == old(session).last_location,
            session.last_username == old(session).last_username,
            session.last_tweet_ref == old(session).last_tweet_ref,
            session.last_article_url == old(session).last_article_url,
            session.last_command == old(session).last_command,
            session.last_status == old(session).last_status,
        decreases session.last_output_lines@.len(),
    {
        let ghost before = session.last_output_lines@;
        session.last_output_lines.remove(0);
        assert(lines_view(session.last_output_lines@) =~= lines_view(before).subrange(1, before.len() as int));
    }
    assert(pushed.subrange(0, total as int) == pushed);
}

/// Every appended line beyond the cap evicts the oldest: after appending
/// lines that each keep some visible text, the buffer holds the newest
/// `OUTPUT_CAP` lines of the old buffer followed by the cleaned new lines, in
/// the order they were appended.
pub proof fn lemma_append_keeps_newest(buf: Seq<Seq<char>>, raws: Seq<Seq<char>>)
    requires
        buf.len() <= OUTPUT_CAP,
        forall|i: int| 0 <= i < raws.len() ==> clean_line(#[trigger] raws[i]).len() > 0,
    ensures
        appended_all(buf, raws) == last_n(buf + raws.map_values(|r: Seq<char>| clean_line(r)), OUTPUT_CAP as nat),
        appended_all(buf, raws).len() == if buf.len() + raws.len() <= OUTPUT_CAP {
            (buf.len() + raws.len()) as nat
        } else {
            OUTPUT_CAP as nat
        },
    decreases raws.len(),
{
    let cleaned = raws.map_values(|r: Seq<char>| clean_line(r));
    if raws.len() == 0 {
        assert(buf + cleaned =~= buf);
    } else {
        let init = raws.drop_last();
        assert forall|i: int| 0 <= i < init.len() implies clean_line(#[trigger] init[i]).len() > 0 by {
            assert(init[i] == raws[i]);
        }
        lemma_append_keeps_newest(buf, init);
        let cinit = init.map_values(|r: Seq<char>| clean_line(r));
        let prev = last_n(buf + cinit, OUTPUT_CAP as nat);
        assert(raws.last() == raws[raws.len() - 1]);
        let x = clean_line(raws.last());
        assert(buf + cleaned =~= (buf + cinit).push(x));
        let whole = (buf + cinit).push(x);
        if (buf + cinit).len() <= OUTPUT_CAP {
            assert(prev == buf + cinit);
        } else {
            assert(last_n(prev.push(x), OUTPUT_CAP as nat) =~= last_n(whole, OUTPUT_CAP as nat));
        }
    }
}

/// A filter query as it is applied: trimmed and lower-cased.
pub open spec fn filter_query(search: Seq<char>) -> Seq<char> {
    lower(trim(search))
}

/// Whether a buffered line passes the (already trimmed and lower-cased) filter.
pub open spec fn line_matches(line: Seq<char>, q: Seq<char>) -> bool {
    q.len() == 0 || has_infix(lower(line), q)
}

/// The buffered lines that pass the filter, in buffer order.
pub open spec fn filtered(lines: Seq<Seq<char>>, q: Seq<char>) -> Seq<Seq<char>>
    decreases lines.len(),
{
    if lines.len() == 0 {
        Seq::empty()
    } else if line_matches(lines.last(), q) {
        filtered(lines.drop_last(), q).push(lines.last())
    } else {
        filtered(lines.drop_last(), q)
    }
}

/// Lines a viewport shows: at least one.
pub open spec fn visible_rows(viewport: nat) -> nat {
    if viewport == 0 {
        1
    } else {
        viewport
    }
}

/// The largest scroll offset: the filtered count less the visible rows, or 0.
pub open spec fn max_offset(count: nat, viewport: nat) -> nat {
    if count > visible_rows(viewport) {
        (count - visible_rows(viewport)) as nat
    } else {
        0
    }
}

pub open spec fn clamped_offset(offset: nat, count: nat, viewport: nat) -> nat {
    if offset > max_offset(count, viewport) {
        max_offset(count, viewport)
    } else {
        offset
    }
}

/// First shown index: the window ends `offset` lines before the newest.
pub open spec fn window_start(count: nat, viewport: nat, offset: nat) -> nat {
    if count > visible_rows(viewport) + offset {
        (count - (visible_rows(viewport) + offset)) as nat
    } else {
        0
    }
}

pub open spec fn window_end(count: nat, viewport: nat, offset: nat) -> nat {
    if window_start(count, viewport, offset) + visible_rows(viewport) < count {
        window_start(count, viewport, offset) + visible_rows(viewport)
    } else {
        count
    }
}

/// The buffered lines that contain the trimmed `search`, ignoring case; all
/// lines when it is blank.
pub fn filter_output_lines(lines: &Vec<String>, search: &str) -> (r: Vec<String>)
    ensures
        lines_view(r@) == filtered(lines_view(lines@), filter_query(search@)),
{
    let sv = chars_of(search);
    let st = trim_chars(sv.as_slice());
    let q = lower_chars(st.as_slice());
    let mut r: Vec<String> = Vec::new();
    let mut i: usize = 0;
    while i < lines.len()
        invariant
            q@ == filter_query(search@),
            i <= lines@.len(),
            lines_view(r@) == filtered(lines_view(lines@).take(i as int), q@),
        decreases lines@.len() - i,
    {
        let line = &lines[i];
        let lv = chars_of(line.as_str());
        let ll = lower_chars(lv.as_slice());
        assert(lines_view(lines@).take(i as int + 1).drop_last() =~= lines_view(lines@).take(i as int));
        assert(lines_view(lines@).take(i as int + 1).last() == line@);
        if q.len() == 0 || contains_chars(ll.as_slice(), q.as_slice()) {
            let ghost before = lines_view(r@);
            r.push(line.clone());
            assert(lines_view(r@) =~= before.push(line@));
        }
        i = i + 1;
    }
    assert(lines_view(lines@).take(lines@.len() as int) =~= lines_view(lines@));
    r
}

/// The scroll offset brought into `[0, max(0, count - rows)]`, where `rows` is
/// the viewport height, at least one.
pub fn clamp_output_offset(offset: usize, count: usize, viewport: usize) -> (r: usize)
    ensures
        r == clamped_offset(offset as nat, count as nat, viewport as nat),
        r <= max_offset(count as nat, viewport as nat),
        offset > max_offset(count as nat, viewport as nat) ==> r == max_offset(count as nat, viewport as nat),
        offset <= max_offset(count as nat, viewport as nat) ==> r == offset,
        count <= visible_rows(viewport as nat) ==> r == 0,
{
    let visible: usize = if viewport == 0 {
        1
    } else {
        viewport
    };
    let max_off: usize = if count > visible {
        count - visible
    } else {
        0
    };
    if offset > max_off {
        max_off
    } else {
        offset
    }
}

/// The half-open range of filtered lines that the viewport shows; empty when
/// there are no lines.
pub fn output_window(count: usize, viewport: usize, offset: usize) -> (r: (usize, usize))
    ensures
        r.0 == window_start(count as nat, viewport as nat, offset as nat),
        r.1 == window_end(count as nat, viewport as nat, offset as nat),
        r.0 <= r.1 <= count,
        r.1 - r.0 <= visible_rows(viewport as nat),
        count == 0 ==> r.0 == r.1,
{
    let visible: usize = if viewport == 0 {
        1
    } else {
        viewport
    };
    let reach: usize = if offset > usize::MAX - visible {
        usize::MAX
    } else {
        visible + offset
    };
    let start: usize = if count > reach {
        count - reach
    } else {
        0
    };
    let end: usize = if count - start > visible {
        start + visible
    } else {
        count
    };
    (start, end)
}

/// Applies a new output filter: the trimmed query becomes the filter, the
/// scroll offset returns to 0, the Output tab is shown and the status says
/// whether a filter is active.
pub fn apply_output_filter(ui_state: &mut UiState, session: &mut SessionState, query: &str)
    ensures
        final(ui_state).output_search@ == trim(query@),
        final(ui_state).output_offset == 0,
        final(ui_state).tab == DashboardTab::Output,
        final(ui_state).active_index == old(ui_state).active_index,
        final(ui_state).inline_prompt_label == old(ui_state).inline_prompt_label,
        final(ui_state).inline_prompt_value == old(ui_state).inline_prompt_value,
        final(session).last_status is Some,
        final(session).last_status->0@ == if trim(query@).len() == 0 {
            "output filter cleared"@
        } else {
            "output filter active: "@ + trim(query@)
        },
        final(session).last_output_lines == old(session).last_output_lines,
        final(session).last_command == old(session).last_command,
{
    let qv = chars_of(query);
    let t = trim_chars(qv.as_slice());
    ui_state.output_search = string_of(t.as_slice());
    ui_state.output_offset = 0;
    ui_state.tab = DashboardTab::Output;
    if t.len() == 0 {
        session.last_status = Some(String::from_str("output filter cleared"));
    } else {
        let mut status = String::from_str("output filter active: ");
        crate::text::push_all(&mut status, t.as_slice());
        session.last_status = Some(status);
    }
}

/// Applying a filter resets the scroll offset, so the next view starts at the
/// newest matching lines whatever the buffer, query and viewport are.
pub proof fn lemma_filter_resets_offset(count: nat, viewport: nat)
    ensures
        clamped_offset(0, count, viewport) == 0,
        window_start(count, viewport, clamped_offset(0, count, viewport)) == max_offset(count, viewport),
{
}

/// Text with no escape character and no dropped control character.
pub open spec fn is_plain(t: Seq<char>) -> bool {
    forall|i: int| 0 <= i < t.len() ==> #[trigger] t[i] != '\u{1b}' && is_kept(t[i])
}

/// A control sequence: `ESC [`, parameter characters, and a final character
/// in `@`..=`~`.
pub open spec fn csi_seq(params: Seq<char>, fin: char) -> Seq<char> {
    seq!['\u{1b}', '['] + params + seq![fin]
}

pub open spec fn is_csi_params(params: Seq<char>) -> bool {
    forall|i: int| 0 <= i < params.len() ==> !('@' <= #[trigger] params[i] && params[i] <= '~')
}

/// An operating-system command: `ESC ]`, a body, and BEL or `ESC \`.
pub open spec fn osc_seq(body: Seq<char>, bell: bool) -> Seq<char> {
    seq!['\u{1b}', ']'] + body + if bell {
        seq!['\u{7}']
    } else {
        seq!['\u{1b}', '\\']
    }
}

pub open spec fn is_osc_body(body: Seq<char>) -> bool {
    forall|i: int| 0 <= i < body.len() ==> #[trigger] body[i] != '\u{7}' && body[i] != '\u{1b}'
}

proof fn lemma_scan_concat(st: ScanState, out: Seq<char>, a: Seq<char>, b: Seq<char>)
    ensures
        scan_from(st, out, a + b) == scan_from(scan_from(st, out, a).0, scan_from(st, out, a).1, b),
    decreases b.len(),
{
    if b.len() == 0 {
        assert(a + b =~= a);
    } else {
        assert((a + b).drop_last() =~= a + b.drop_last());
        assert((a + b).last() == b.last());
        lemma_scan_concat(st, out, a, b.drop_last());
    }
}

proof fn lemma_scan_plain(out: Seq<char>, t: Seq<char>)
    requires
        is_plain(t),
    ensures
        scan_from(ScanState::Text, out, t) == (ScanState::Text, out + t),
    decreases t.len(),
{
    if t.len() == 0 {
        assert(out + t =~= out);
    } else {
        assert(t.last() == t[t.len() - 1]);
        lemma_scan_plain(out, t.drop_last());
        assert((out + t.drop_last()).push(t.last()) =~= out + t);
    }
}

proof fn lemma_scan_csi_body(out: Seq<char>, p: Seq<char>)
    requires
        is_csi_params(p),
    ensures
        scan_from(ScanState::Csi, out, p) == (ScanState::Csi, out),
    decreases p.len(),
{
    if p.len() > 0 {
        assert(p.last() == p[p.len() - 1]);
        lemma_scan_csi_body(out, p.drop_last());
    }
}

proof fn lemma_scan_osc_body(out: Seq<char>, b: Seq<char>)
    requires
        is_osc_body(b),
    ensures
        scan_from(ScanState::Osc, out, b) == (ScanState::Osc, out),
    decreases b.len(),
{
    if b.len() > 0 {
        assert(b.last() == b[b.len() - 1]);
        lemma_scan_osc_body(out, b.drop_last());
    }
}

proof fn lemma_scan_two(st: ScanState, out: Seq<char>, c1: char, c2: char)
    ensures
        scan_from(st, out, seq![c1, c2]) == {
            let (s1, o1) = scan_step(st, out, c1);
            scan_step(s1, o1, c2)
        },
{
    assert(seq![c1, c2].drop_last() =~= seq![c1]);
    assert(seq![c1, c2].last() == c2);
    lemma_scan_one(st, out, c1);
}

proof fn lemma_scan_one(st: ScanState, out: Seq<char>, c: char)
    ensures
        scan_from(st, out, seq![c]) == scan_step(st, out, c),
{
    assert(seq![c].drop_last() =~= Seq::<char>::empty());
    assert(seq![c].last() == c);
    reveal_with_fuel(scan_from, 2);
}

proof fn lemma_scan_csi(out: Seq<char>, p: Seq<char>, f: char)
    requires
        is_csi_params(p),
        '@' <= f && f <= '~',
    ensures
        scan_from(ScanState::Text, out, csi_seq(p, f)) == (ScanState::Text, out),
{
    let head = seq!['\u{1b}', '['];
    lemma_scan_two(ScanState::Text, out, '\u{1b}', '[');
    lemma_scan_concat(ScanState::Text, out, head, p);
    lemma_scan_csi_body(out, p);
    lemma_scan_concat(ScanState::Text, out, head + p, seq![f]);
    lemma_scan_one(ScanState::Csi, out, f);
}

proof fn lemma_scan_osc(out: Seq<char>, b: Seq<char>, bell: bool)
    requires
        is_osc_body(b),
    ensures
        scan_from(ScanState::Text, out, osc_seq(b, bell)) == (ScanState::Text, out),
{
    let head = seq!['\u{1b}', ']'];
    let tail = if bell {
        seq!['\u{7}']
    } else {
        seq!['\u{1b}', '\\']
    };
    lemma_scan_two(ScanState::Text, out, '\u{1b}', ']');
    lemma_scan_concat(ScanState::Text, out, head, b);
    lemma_scan_osc_body(out, b);
    lemma_scan_concat(ScanState::Text, out, head + b, tail);
    if bell {
        lemma_scan_one(ScanState::Osc, out, '\u{7}');
    } else {
        lemma_scan_two(ScanState::Osc, out, '\u{1b}', '\\');
    }
}

/// Color codes around visible text leave only the text: a control sequence,
/// plain text and another control sequence sanitize to the text.
pub proof fn lemma_sanitize_strips_color(
    open_params: Seq<char>,
    open_final: char,
    t: Seq<char>,
    close_params: Seq<char>,
    close_final: char,
)
    requires
        is_csi_params(open_params),
        is_csi_params(close_params),
        '@' <= open_final && open_final <= '~',
        '@' <= close_final && close_final <= '~',
        is_plain(t),
    ensures
        sanitize(csi_seq(open_params, open_final) + t + csi_seq(close_params, close_final)) == t,
{
    let e = Seq::<char>::empty();
    lemma_scan_csi(e, open_params, open_final);
    lemma_scan_concat(ScanState::Text, e, csi_seq(open_params, open_final), t);
    lemma_scan_plain(e, t);
    lemma_scan_concat(ScanState::Text, e, csi_seq(open_params, open_final) + t, csi_seq(close_params, close_final));
    lemma_scan_csi(e + t, close_params, close_final);
    assert(e + t =~= t);
}

/// A hyperlink keeps only its visible text: an operating-system command, plain
/// text and a closing operating-system command sanitize to the text, with
/// either terminator.
pub proof fn lemma_sanitize_strips_hyperlink(
    open_body: Seq<char>,
    open_bell: bool,
    t: Seq<char>,
    close_body: Seq<char>,
    close_bell: bool,
)
    requires
        is_osc_body(open_body),
        is_osc_body(close_body),
        is_plain(t),
    ensures
        sanitize(osc_seq(open_body, open_bell) + t) == t,
        sanitize(osc_seq(open_body, open_bell) + t + osc_seq(close_body, close_bell)) == t,
{
    let e = Seq::<char>::empty();
    lemma_scan_osc(e, open_body, open_bell);
    lemma_scan_concat(ScanState::Text, e, osc_seq(open_body, open_bell), t);
    lemma_scan_plain(e, t);
    lemma_scan_concat(ScanState::Text, e, osc_seq(open_body, open_bell) + t, osc_seq(close_body, close_bell));
    lemma_scan_osc(e + t, close_body, close_bell);
    assert(e + t =~= t);
}

/// Single characters: newline and tab survive, every other control character
/// is dropped, and printable characters are kept.
pub proof fn lemma_sanitize_char(c: char)
    requires
        c != '\u{1b}',
    ensures
        sanitize(seq![c]) == if is_kept(c) {
            seq![c]
        } else {
            Seq::<char>::empty()
        },
        is_kept('\n') && is_kept('\t'),
        c <= '\u{1f}' && c != '\n' && c != '\t' ==> sanitize(seq![c]).len() == 0,
{
    lemma_scan_one(ScanState::Text, Seq::empty(), c);
    assert(Seq::<char>::empty().push(c) =~= seq![c]);
}

} // verus!
