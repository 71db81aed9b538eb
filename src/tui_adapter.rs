//! Turns a chosen action and its typed value into an execution plan: the
//! command line to display and the argument vector to run.
use vstd::prelude::*;
use crate::action_result::{action_error, action_success, ActionExecutionResult, ActionResultType};
use crate::text::{chars_eq, chars_of, is_ws, is_ws_exec, push_all, trim, trim_chars};

verus! {

#[derive(Debug, Clone, PartialEq, Eq)]
pub struct TuiExecutionPlan {
    pub command: String,
    pub args: Vec<String>,
}

pub open spec fn arg_views(p: TuiExecutionPlan) -> Seq<Seq<char>> {
    p.args@.map_values(|s: String| s@)
}

/// A search token as it is passed on: a lone `&` becomes `AND`.
pub open spec fn subst_token(tok: Seq<char>) -> Seq<char> {
    if tok == seq!['&'] {
        "AND"@
    } else {
        tok
    }
}

/// Appends a finished token, separated from what precedes it by one space.
pub open spec fn flush_token(out: Seq<char>, cur: Seq<char>) -> Seq<char> {
    if cur.len() == 0 {
        out
    } else if out.len() == 0 {
        subst_token(cur)
    } else {
        out.push(' ') + subst_token(cur)
    }
}

/// Words emitted so far and the word being read, after the characters of `s`.
pub open spec fn query_scan(s: Seq<char>) -> (Seq<char>, Seq<char>)
    decreases s.len(),
{
    if s.len() == 0 {
        (Seq::empty(), Seq::empty())
    } else {
        let (out, cur) = query_scan(s.drop_last());
        if is_ws(s.last()) {
            (flush_token(out, cur), Seq::empty())
        } else {
            (out, cur.push(s.last()))
        }
    }
}

/// The whitespace-separated words of `s`, each lone `&` replaced by `AND`,
/// joined by single spaces.
pub open spec fn normalized_query(s: Seq<char>) -> Seq<char> {
    flush_token(query_scan(s).0, query_scan(s).1)
}

/// The value with every leading `@` removed.
pub open spec fn strip_at(s: Seq<char>) -> Seq<char>
    decreases s.len(),
{
    if s.len() > 0 && s[0] == '@' {
        strip_at(s.drop_first())
    } else {
        s
    }
}

/// Message, display command and arguments of a plan, or the error message.
pub open spec fn plan_for(key: Seq<char>, value: Seq<char>) -> Result<
    (Seq<char>, Seq<char>, Seq<Seq<char>>),
    Seq<char>,
> {
    let v = trim(value);
    if key == "1"@ {
        if v.len() == 0 {
            Err("Query is required."@)
        } else {
            let q = normalized_query(v);
            Ok(("Search plan ready."@, "xint search "@ + q, seq!["search"@, q]))
        }
    } else if key == "2"@ {
        if v.len() == 0 {
            Ok(("Trends plan ready."@, "xint trends"@, seq!["trends"@]))
        } else {
            Ok(("Trends plan ready."@, "xint trends "@ + v, seq!["trends"@, v]))
        }
    } else if key == "3"@ {
        let u = strip_at(v);
        if u.len() == 0 {
            Err("Username is required."@)
        } else {
            Ok(("Profile plan ready."@, "xint profile "@ + u, seq!["profile"@, u]))
        }
    } else if key == "4"@ {
        if v.len() == 0 {
            Err("Tweet ID/URL is required."@)
        } else {
            Ok(("Thread plan ready."@, "xint thread "@ + v, seq!["thread"@, v]))
        }
    } else if key == "5"@ {
        if v.len() == 0 {
            Err("Article URL is required."@)
        } else {
            Ok(("Article plan ready."@, "xint article "@ + v, seq!["article"@, v]))
        }
    } else if key == "6"@ {
        Ok(("Help plan ready."@, "xint --help"@, seq!["--help"@]))
    } else {
        Err("Unsupported action key: "@ + key)
    }
}

/// The result envelope holds exactly the outcome `o`.
pub open spec fn plan_result_is(
    r: ActionExecutionResult<TuiExecutionPlan>,
    o: Result<(Seq<char>, Seq<char>, Seq<Seq<char>>), Seq<char>>,
) -> bool {
    match o {
        Ok((m, c, a)) => {
            &&& r.result_type == ActionResultType::Success
            &&& r.message@ == m
            &&& r.data is Some
            &&& r.data->0.command@ == c
            &&& arg_views(r.data->0) == a
        },
        Err(m) => {
            &&& r.result_type == ActionResultType::Error
            &&& r.message@ == m
            &&& r.data is None
        },
    }
}

fn append_token(out: &mut Vec<char>, cur: &Vec<char>)
    ensures
        final(out)@ == flush_token(old(out)@, cur@),
{
    if cur.len() == 0 {
        return;
    }
    if out.len() > 0 {
        out.push(' ');
    }
    let amp: Vec<char> = vec!['&'];
    assert(amp@ =~= seq!['&']);
    let ghost spaced = out@;
    if chars_eq(cur.as_slice(), amp.as_slice()) {
        out.push('A');
        out.push('N');
        out.push('D');
        proof {
            reveal_strlit("AND");
            assert(out@ =~= spaced + "AND"@);
        }
    } else {
        let mut i: usize = 0;
        let ghost base = out@;
        while i < cur.len()
            invariant
                i <= cur@.len(),
                out@ == base + cur@.take(i as int),
            decreases cur@.len() - i,
        {
            out.push(cur[i]);
            assert(cur@.take(i as int + 1) == cur@.take(i as int).push(cur@[i as int]));
            i = i + 1;
        }
        assert(cur@.take(cur@.len() as int) == cur@);
    }
    assert(flush_token(old(out)@, cur@) =~= out@);
}

/// The whitespace-separated words of `value` joined by single spaces, with
/// each lone `&` replaced by `AND`.
pub fn normalize_search_query(value: &str) -> (r: String)
    ensures
        r@ == normalized_query(value@),
{
    let v = chars_of(value);
    let mut out: Vec<char> = Vec::new();
    let mut cur: Vec<char> = Vec::new();
    let mut i: usize = 0;
    while i < v.len()
        invariant
            v@ == value@,
            i <= v@.len(),
            (out@, cur@) == query_scan(v@.take(i as int)),
        decreases v@.len() - i,
    {
        let c = v[i];
        assert(v@.take(i as int + 1).drop_last() == v@.take(i as int));
        if is_ws_exec(c) {
            append_token(&mut out, &cur);
            cur = Vec::new();
        } else {
            cur.push(c);
        }
        i = i + 1;
    }
    assert(v@.take(v@.len() as int) == v@);
    append_token(&mut out, &cur);
    let mut r = String::new();
    push_all(&mut r, out.as_slice());
    r
}

fn strip_at_index(v: &[char]) -> (i: usize)
    ensures
        i <= v@.len(),
        strip_at(v@) == v@.subrange(i as int, v@.len() as int),
{
    let mut i: usize = 0;
    assert(v@.subrange(0, v@.len() as int) == v@);
    while i < v.len() && v[i] == '@'
        invariant
            i <= v@.len(),
            strip_at(v@) == strip_at(v@.subrange(i as int, v@.len() as int)),
        decreases v@.len() - i,
    {
        assert(v@.subrange(i as int, v@.len() as int).drop_first() == v@.subrange(
            i as int + 1,
            v@.len() as int,
        ));
        i = i + 1;
    }
    i
}

fn text_with(prefix: &str, tail: &[char]) -> (r: String)
    ensures
        r@ == prefix@ + tail@,
{
    let mut r = String::from_str(prefix);
    push_all(&mut r, tail);
    r
}

fn is_key(key: &[char], lit: &str) -> (r: bool)
    ensures
        r == (key@ == lit@),
{
    let l = chars_of(lit);
    chars_eq(key, l.as_slice())
}

fn plan_ok(message: &str, command: String, args: Vec<String>) -> (r: ActionExecutionResult<
    TuiExecutionPlan,
>)
    ensures
        r.result_type == ActionResultType::Success,
        r.message@ == message@,
        r.data == Some(TuiExecutionPlan { command, args }),
{
    action_success(message, Some(TuiExecutionPlan { command, args }))
}

/// The plan for action `action_key` with the typed `value` (absent reads as
/// blank): the display command and the argument vector, or the reason there
/// is none.
pub fn build_tui_execution_plan(action_key: &str, value: Option<&str>) -> (r: ActionExecutionResult<
    TuiExecutionPlan,
>)
    ensures
        plan_result_is(
            r,
            plan_for(
                action_key@,
                match value {
                    Some(v) => v@,
                    None => Seq::<char>::empty(),
                },
            ),
        ),
{
    let raw = match value {
        Some(v) => chars_of(v),
        None => Vec::new(),
    };
    let normalized = trim_chars(raw.as_slice());
    let key = chars_of(action_key);
    proof {
        reveal_strlit("search");
        reveal_strlit("trends");
        reveal_strlit("profile");
        reveal_strlit("thread");
        reveal_strlit("article");
        reveal_strlit("--help");
    }
    if is_key(key.as_slice(), "1") {
        if normalized.len() == 0 {
            return action_error("Query is required.");
        }
        let q = normalize_search_query(string_view(&normalized).as_str());
        let qv = chars_of(q.as_str());
        let command = text_with("xint search ", qv.as_slice());
        let args = vec![String::from_str("search"), q];
        let r = plan_ok("Search plan ready.", command, args);
        assert(arg_views(r.data->0) =~= seq!["search"@, qv@]);
        r
    } else if is_key(key.as_slice(), "2") {
        if normalized.len() == 0 {
            let r = plan_ok("Trends plan ready.", String::from_str("xint trends"), vec![String::from_str("trends")]);
            assert(arg_views(r.data->0) =~= seq!["trends"@]);
            return r;
        }
        let command = text_with("xint trends ", normalized.as_slice());
        let args = vec![String::from_str("trends"), string_view(&normalized)];
        let r = plan_ok("Trends plan ready.", command, args);
        assert(arg_views(r.data->0) =~= seq!["trends"@, normalized@]);
        r
    } else if is_key(key.as_slice(), "3") {
        let start = strip_at_index(normalized.as_slice());
        if start == normalized.len() {
            return action_error("Username is required.");
        }
        let u = crate::text::copy_range(normalized.as_slice(), start, normalized.len());
        let command = text_with("xint profile ", u.as_slice());
        let args = vec![String::from_str("profile"), string_view(&u)];
        let r = plan_ok("Profile plan ready.", command, args);
        assert(arg_views(r.data->0) =~= seq!["profile"@, u@]);
        r
    } else if is_key(key.as_slice(), "4") {
        if normalized.len() == 0 {
            return action_error("Tweet ID/URL is required.");
        }
        let command = text_with("xint thread ", normalized.as_slice());
        let args = vec![String::from_str("thread"), string_view(&normalized)];
        let r = plan_ok("Thread plan ready.", command, args);
        assert(arg_views(r.data->0) =~= seq!["thread"@, normalized@]);
        r
    } else if is_key(key.as_slice(), "5") {
        if normalized.len() == 0 {
            return action_error("Article URL is required.");
        }
        let command = text_with("xint article ", normalized.as_slice());
        let args = vec![String::from_str("article"), string_view(&normalized)];
        let r = plan_ok("Article plan ready.", command, args);
        assert(arg_views(r.data->0) =~= seq!["article"@, normalized@]);
        r
    } else if is_key(key.as_slice(), "6") {
        let r = plan_ok("Help plan ready.", String::from_str("xint --help"), vec![String::from_str("--help")]);
        assert(arg_views(r.data->0) =~= seq!["--help"@]);
        r
    } else {
        let message = text_with("Unsupported action key: ", key.as_slice());
        action_error(message.as_str())
    }
}

fn string_view(v: &Vec<char>) -> (r: String)
    ensures
        r@ == v@,
{
    crate::text::string_of(v.as_slice())
}

} // verus!
