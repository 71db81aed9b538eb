//! The action catalog, lookup of a typed choice by key or alias, and the
//! tiered scoring behind the command palette.
use vstd::prelude::*;
use crate::text::{
    chars_eq, chars_of, contains_chars, has_infix, has_prefix, lower, lower_chars,
    starts_with_chars, trim, trim_chars,
};

verus! {

#[derive(Debug, Clone, Copy, PartialEq, Eq, Structural)]
pub enum ActionResultType {
    Success,
    Error,
    Confirm,
    Choice,
    Input,
    Info,
    Progress,
    Navigation,
}

#[derive(Debug, Clone, Copy, PartialEq, Eq)]
pub struct InteractiveAction {
    pub key: &'static str,
    pub label: &'static str,
    pub aliases: &'static [&'static str],
    pub hint: &'static str,
    pub summary: &'static str,
    pub example: &'static str,
    pub cost_hint: &'static str,
}

pub open spec fn catalog_len() -> nat {
    7
}

pub open spec fn catalog_keys() -> Seq<Seq<char>> {
    seq!["1"@, "2"@, "3"@, "4"@, "5"@, "6"@, "0"@]
}

pub open spec fn catalog_labels() -> Seq<Seq<char>> {
    seq!["Search"@, "Trends"@, "Profile"@, "Thread"@, "Article"@, "Help"@, "Exit"@]
}

pub open spec fn catalog_aliases() -> Seq<Seq<Seq<char>>> {
    seq![
        seq!["search"@, "s"@],
        seq!["trends"@, "trend"@, "t"@],
        seq!["profile"@, "user"@, "p"@],
        seq!["thread"@, "th"@],
        seq!["article"@, "a"@],
        seq!["help"@, "h"@, "?"@],
        seq!["exit"@, "quit"@, "q"@],
    ]
}

pub open spec fn catalog_hints() -> Seq<Seq<char>> {
    seq![
        "keyword, topic, or boolean query"@,
        "location name or blank for global"@,
        "username (without @)"@,
        "tweet id or tweet url"@,
        "article url or tweet url"@,
        "show full CLI help"@,
        "close interactive mode"@,
    ]
}

pub open spec fn catalog_summaries() -> Seq<Seq<char>> {
    seq![
        "Discover relevant posts with ranked result quality."@,
        "Surface current trend clusters globally or by location."@,
        "Inspect profile metadata and recent activity context."@,
        "Expand a tweet into threaded conversation context."@,
        "Fetch article content from URL or tweet-linked article."@,
        "Display full command reference and flags."@,
        "Exit interactive dashboard."@,
    ]
}

pub open spec fn catalog_examples() -> Seq<Seq<char>> {
    seq![
        "xint search \"open-source ai agents\""@,
        "xint trends \"San Francisco\""@,
        "xint profile 0xNyk"@,
        "xint thread https://x.com/.../status/..."@,
        "xint article https://x.com/.../status/..."@,
        "xint --help"@,
        "q"@,
    ]
}

pub open spec fn catalog_costs() -> Seq<Seq<char>> {
    seq![
        "Low-medium (depends on query depth)"@,
        "Low"@,
        "Low"@,
        "Medium"@,
        "Medium-high (fetch + parse)"@,
        "None"@,
        "None"@,
    ]
}

pub open spec fn alias_views(a: InteractiveAction) -> Seq<Seq<char>> {
    a.aliases@.map_values(|s: &str| s@)
}

/// The action is the catalog entry at index `i`, as far as lookup and scoring see it.
pub open spec fn is_catalog_entry(a: InteractiveAction, i: int) -> bool {
    &&& 0 <= i < catalog_len()
    &&& a.key@ == catalog_keys()[i]
    &&& a.label@ == catalog_labels()[i]
    &&& alias_views(a) == catalog_aliases()[i]
    &&& a.hint@ == catalog_hints()[i]
    &&& a.summary@ == catalog_summaries()[i]
    &&& a.example@ == catalog_examples()[i]
    &&& a.cost_hint@ == catalog_costs()[i]
}

/// The ordered action catalog.
pub fn interactive_actions() -> (r: Vec<InteractiveAction>)
    ensures
        r@.len() == catalog_len(),
        forall|i: int| 0 <= i < catalog_len() ==> is_catalog_entry(#[trigger] r@[i], i),
{
    let r = vec![
        InteractiveAction {
            key: "1",
            label: "Search",
            aliases: &["search", "s"],
            hint: "keyword, topic, or boolean query",
            summary: "Discover relevant posts with ranked result quality.",
            example: "xint search \"open-source ai agents\"",
            cost_hint: "Low-medium (depends on query depth)",
        },
        InteractiveAction {
            key: "2",
            label: "Trends",
            aliases: &["trends", "trend", "t"],
            hint: "location name or blank for global",
            summary: "Surface current trend clusters globally or by location.",
            example: "xint trends \"San Francisco\"",
            cost_hint: "Low",
        },
        InteractiveAction {
            key: "3",
            label: "Profile",
            aliases: &["profile", "user", "p"],
            hint: "username (without @)",
            summary: "Inspect profile metadata and recent activity context.",
            example: "xint profile 0xNyk",
            cost_hint: "Low",
        },
        InteractiveAction {
            key: "4",
            label: "Thread",
            aliases: &["thread", "th"],
            hint: "tweet id or tweet url",
            summary: "Expand a tweet into threaded conversation context.",
            example: "xint thread https://x.com/.../status/...",
            cost_hint: "Medium",
        },
        InteractiveAction {
            key: "5",
            label: "Article",
            aliases: &["article", "a"],
            hint: "article url or tweet url",
            summary: "Fetch article content from URL or tweet-linked article.",
            example: "xint article https://x.com/.../status/...",
            cost_hint: "Medium-high (fetch + parse)",
        },
        InteractiveAction {
            key: "6",
            label: "Help",
            aliases: &["help", "h", "?"],
            hint: "show full CLI help",
            summary: "Display full command reference and flags.",
            example: "xint --help",
            cost_hint: "None",
        },
        InteractiveAction {
            key: "0",
            label: "Exit",
            aliases: &["exit", "quit", "q"],
            hint: "close interactive mode",
            summary: "Exit interactive dashboard.",
            example: "q",
            cost_hint: "None",
        },
    ];
    proof {
        assert forall|i: int| 0 <= i < catalog_len() implies is_catalog_entry(#[trigger] r@[i], i) by {
            assert(alias_views(r@[i]) =~= catalog_aliases()[i]);
        }
    }
    r
}

/// Whether some alias, lower-cased, equals `q`.
pub open spec fn alias_eq(aliases: Seq<Seq<char>>, q: Seq<char>) -> bool {
    exists|j: int| 0 <= j < aliases.len() && lower(#[trigger] aliases[j]) == q
}

pub open spec fn alias_prefix(aliases: Seq<Seq<char>>, q: Seq<char>) -> bool {
    exists|j: int| 0 <= j < aliases.len() && has_prefix(lower(#[trigger] aliases[j]), q)
}

/// Catalog entry `i` answers to the lower-cased choice `v` by its key or an alias.
pub open spec fn entry_matches(i: int, v: Seq<char>) -> bool {
    catalog_keys()[i] == v || alias_eq(catalog_aliases()[i], v)
}

pub open spec fn first_match_from(v: Seq<char>, i: int) -> Option<int>
    decreases catalog_len() - i,
{
    if i < 0 || i >= catalog_len() {
        None
    } else if entry_matches(i, v) {
        Some(i)
    } else {
        first_match_from(v, i + 1)
    }
}

/// The catalog index that a typed choice selects: the first entry whose key or
/// alias equals the trimmed, lower-cased input.
pub open spec fn choice_index(raw: Seq<char>) -> Option<int> {
    let v = lower(trim(raw));
    if v.len() == 0 {
        None
    } else {
        first_match_from(v, 0)
    }
}

/// The fixed points of scoring tier `t`, highest tier first.
pub open spec fn tier_weight(t: int) -> nat {
    if t == 0 {
        100
    } else if t == 1 {
        90
    } else if t == 2 {
        80
    } else if t == 3 {
        70
    } else if t == 4 {
        60
    } else if t == 5 {
        40
    } else if t == 6 {
        20
    } else {
        0
    }
}

/// Whether tier `t` matches the lower-cased query `q`: exact key, exact label,
/// exact alias, label prefix, alias prefix, label substring, hint substring.
pub open spec fn tier_hit(
    key: Seq<char>,
    label: Seq<char>,
    aliases: Seq<Seq<char>>,
    hint: Seq<char>,
    q: Seq<char>,
    t: int,
) -> bool {
    if t == 0 {
        key == q
    } else if t == 1 {
        lower(label) == q
    } else if t == 2 {
        alias_eq(aliases, q)
    } else if t == 3 {
        has_prefix(lower(label), q)
    } else if t == 4 {
        alias_prefix(aliases, q)
    } else if t == 5 {
        has_infix(lower(label), q)
    } else if t == 6 {
        has_infix(lower(hint), q)
    } else {
        false
    }
}

pub open spec fn tier_points(
    key: Seq<char>,
    label: Seq<char>,
    aliases: Seq<Seq<char>>,
    hint: Seq<char>,
    q: Seq<char>,
    t: int,
) -> nat {
    if tier_hit(key, label, aliases, hint, q, t) {
        tier_weight(t)
    } else {
        0
    }
}

/// Points gained from tiers `t`, `t + 1`, ..., up to the last tier.
pub open spec fn points_from(
    key: Seq<char>,
    label: Seq<char>,
    aliases: Seq<Seq<char>>,
    hint: Seq<char>,
    q: Seq<char>,
    t: int,
) -> nat
    decreases 7 - t,
{
    if t < 0 || t >= 7 {
        0
    } else {
        tier_points(key, label, aliases, hint, q, t) + points_from(key, label, aliases, hint, q, t + 1)
    }
}

/// Palette score of an action for a query: zero for an empty query, otherwise
/// the sum of the weights of every matching tier.
pub open spec fn score_of(
    key: Seq<char>,
    label: Seq<char>,
    aliases: Seq<Seq<char>>,
    hint: Seq<char>,
    query: Seq<char>,
) -> nat {
    let q = lower(query);
    if q.len() == 0 {
        0
    } else {
        points_from(key, label, aliases, hint, q, 0)
    }
}

pub open spec fn score_spec(a: InteractiveAction, query: Seq<char>) -> nat {
    score_of(a.key@, a.label@, alias_views(a), a.hint@, query)
}

pub open spec fn catalog_score(i: int, query: Seq<char>) -> nat {
    score_of(catalog_keys()[i], catalog_labels()[i], catalog_aliases()[i], catalog_hints()[i], query)
}

/// Whether an alias of `action`, lower-cased, equals `q` (`prefix == false`)
/// or begins with `q` (`prefix == true`).
fn alias_test(action: &InteractiveAction, q: &[char], prefix: bool) -> (r: bool)
    ensures
        !prefix ==> r == alias_eq(alias_views(*action), q@),
        prefix ==> r == alias_prefix(alias_views(*action), q@),
{
    let aliases = action.aliases;
    let n = aliases.len();
    let mut j: usize = 0;
    while j < n
        invariant
            n == aliases@.len(),
            aliases == action.aliases,
            j <= n,
            forall|k: int| 0 <= k < j ==> {
                let l = lower(#[trigger] alias_views(*action)[k]);
                if prefix { !has_prefix(l, q@) } else { l != q@ }
            },
        decreases n - j,
    {
        let av = chars_of(aliases[j]);
        let lv = lower_chars(av.as_slice());
        assert(alias_views(*action)[j as int] == aliases@[j as int]@);
        let hit = if prefix {
            starts_with_chars(lv.as_slice(), q)
        } else {
            chars_eq(lv.as_slice(), q)
        };
        if hit {
            return true;
        }
        j = j + 1;
    }
    false
}

/// Catalog key selected by a typed choice: a key or an alias, ignoring case and
/// surrounding whitespace; `None` for blank or unknown input.
pub fn normalize_interactive_choice(raw: &str) -> (r: Option<&'static str>)
    ensures
        r is Some == choice_index(raw@) is Some,
        r is Some ==> r->0@ == catalog_keys()[choice_index(raw@)->0],
{
    let rv = chars_of(raw);
    let t = trim_chars(rv.as_slice());
    let value = lower_chars(t.as_slice());
    if value.len() == 0 {
        return None;
    }
    let actions = interactive_actions();
    let mut i: usize = 0;
    while i < actions.len()
        invariant
            value@ == lower(trim(raw@)),
            value@.len() > 0,
            actions@.len() == catalog_len(),
            forall|k: int| 0 <= k < catalog_len() ==> is_catalog_entry(#[trigger] actions@[k], k),
            i <= catalog_len(),
            first_match_from(value@, 0) == first_match_from(value@, i as int),
        decreases catalog_len() - i,
    {
        let action = actions[i];
        assert(is_catalog_entry(actions@[i as int], i as int));
        let kv = chars_of(action.key);
        if chars_eq(kv.as_slice(), value.as_slice()) || alias_test(&action, value.as_slice(), false) {
            return Some(action.key);
        }
        i = i + 1;
    }
    None
}

fn score_chars(action: &InteractiveAction, query: &[char]) -> (r: usize)
    ensures
        r == score_spec(*action, query@),
{
    let q = lower_chars(query);
    if q.len() == 0 {
        return 0;
    }
    let key = chars_of(action.key);
    let label = chars_of(action.label);
    let label_l = lower_chars(label.as_slice());
    let hint = chars_of(action.hint);
    let hint_l = lower_chars(hint.as_slice());
    let mut score: usize = 0;
    if chars_eq(key.as_slice(), q.as_slice()) {
        score = score + 100;
    }
    if chars_eq(label_l.as_slice(), q.as_slice()) {
        score = score + 90;
    }
    if alias_test(action, q.as_slice(), false) {
        score = score + 80;
    }
    if starts_with_chars(label_l.as_slice(), q.as_slice()) {
        score = score + 70;
    }
    if alias_test(action, q.as_slice(), true) {
        score = score + 60;
    }
    if contains_chars(label_l.as_slice(), q.as_slice()) {
        score = score + 40;
    }
    if contains_chars(hint_l.as_slice(), q.as_slice()) {
        score = score + 20;
    }
    proof {
        reveal_with_fuel(points_from, 8);
    }
    score
}

/// Palette score of `action` for `query` (see `score_of`).
pub fn score_interactive_action(action: &InteractiveAction, query: &str) -> (r: usize)
    ensures
        r == score_spec(*action, query@),
{
    let qv = chars_of(query);
    score_chars(action, qv.as_slice())
}

/// Index of the catalog entry with the strictly highest palette score for the
/// trimmed query (the earliest on a tie); `None` when the query is blank or
/// nothing scores.
pub fn match_palette(query: &str) -> (r: Option<usize>)
    ensures
        r is None <==> (trim(query@).len() == 0 || forall|i: int|
            0 <= i < catalog_len() ==> #[trigger] catalog_score(i, trim(query@)) == 0),
        r is Some ==> {
            let b = r->0 as int;
            &&& 0 <= b < catalog_len()
            &&& catalog_score(b, trim(query@)) > 0
            &&& forall|j: int| 0 <= j < catalog_len() ==> #[trigger] catalog_score(j, trim(query@)) <= catalog_score(b, trim(query@))
            &&& forall|j: int| 0 <= j < b ==> #[trigger] catalog_score(j, trim(query@)) < catalog_score(b, trim(query@))
        },
{
    let qv = chars_of(query);
    let trimmed = trim_chars(qv.as_slice());
    if trimmed.len() == 0 {
        return None;
    }
    let actions = interactive_actions();
    let ghost q = trimmed@;
    let mut best_index: Option<usize> = None;
    let mut best_score: usize = 0;
    let mut i: usize = 0;
    while i < actions.len()
        invariant
            q == trim(query@),
            trimmed@ == q,
            actions@.len() == catalog_len(),
            forall|k: int| 0 <= k < catalog_len() ==> is_catalog_entry(#[trigger] actions@[k], k),
            i <= catalog_len(),
            forall|j: int| 0 <= j < i ==> #[trigger] catalog_score(j, q) <= best_score,
            best_index is None ==> best_score == 0,
            best_index is Some ==> {
                let b = best_index->0 as int;
                &&& 0 <= b < i
                &&& best_score == catalog_score(b, q)
                &&& best_score > 0
                &&& forall|j: int| 0 <= j < b ==> #[trigger] catalog_score(j, q) < best_score
            },
        decreases catalog_len() - i,
    {
        let action = actions[i];
        assert(is_catalog_entry(actions@[i as int], i as int));
        let score = score_chars(&action, trimmed.as_slice());
        assert(score == catalog_score(i as int, q));
        if score > best_score {
            best_score = score;
            best_index = Some(i);
        }
        i = i + 1;
    }
    if best_score > 0 {
        best_index
    } else {
        None
    }
}

/// Palette scoring is tiered: the tier weights fall strictly from the exact-key
/// tier to the hint-substring tier, and for a non-empty query the score is the
/// sum of the weights of every tier that matches, so each matching tier adds
/// its full weight.
pub proof fn lemma_score_tiers(action: InteractiveAction, query: Seq<char>)
    requires
        lower(query).len() > 0,
    ensures
        forall|t1: int, t2: int| 0 <= t1 < t2 < 7 ==> #[trigger] tier_weight(t1) > #[trigger] tier_weight(t2),
        score_spec(action, query) == {
            let (k, l, al, h, q) = (action.key@, action.label@, alias_views(action), action.hint@, lower(query));
            tier_points(k, l, al, h, q, 0) + tier_points(k, l, al, h, q, 1) + tier_points(k, l, al, h, q, 2)
                + tier_points(k, l, al, h, q, 3) + tier_points(k, l, al, h, q, 4)
                + tier_points(k, l, al, h, q, 5) + tier_points(k, l, al, h, q, 6)
        },
        forall|t: int| 0 <= t < 7 && tier_hit(action.key@, action.label@, alias_views(action), action.hint@, lower(query), t)
            ==> score_spec(action, query) >= #[trigger] tier_weight(t),
{
    reveal_with_fuel(points_from, 8);
}

/// The catalog entry that a key or alias belongs to, told apart by its
/// length and first two characters.
spec fn name_owner(v: Seq<char>) -> int {
    if v.len() == 1 {
        let c = v[0];
        if c == '1' || c == 's' {
            0
        } else if c == '2' || c == 't' {
            1
        } else if c == '3' || c == 'p' {
            2
        } else if c == '4' {
            3
        } else if c == '5' || c == 'a' {
            4
        } else if c == '6' || c == 'h' || c == '?' {
            5
        } else {
            6
        }
    } else if v.len() == 2 {
        3
    } else if v.len() == 4 {
        if v[0] == 'u' {
            2
        } else if v[0] == 'h' {
            5
        } else {
            6
        }
    } else if v.len() == 5 {
        1
    } else if v.len() == 6 {
        if v[0] == 's' {
            0
        } else if v[1] == 'r' {
            1
        } else {
            3
        }
    } else if v[0] == 'p' {
        2
    } else {
        4
    }
}

proof fn lemma_matches_owner(k: int, v: Seq<char>)
    requires
        0 <= k < catalog_len(),
        entry_matches(k, v),
    ensures
        name_owner(v) == k,
        v.len() > 0,
{
    reveal_strlit("1");
    reveal_strlit("2");
    reveal_strlit("3");
    reveal_strlit("4");
    reveal_strlit("5");
    reveal_strlit("6");
    reveal_strlit("0");
    reveal_strlit("search");
    reveal_strlit("s");
    reveal_strlit("trends");
    reveal_strlit("trend");
    reveal_strlit("t");
    reveal_strlit("profile");
    reveal_strlit("user");
    reveal_strlit("p");
    reveal_strlit("thread");
    reveal_strlit("th");
    reveal_strlit("article");
    reveal_strlit("a");
    reveal_strlit("help");
    reveal_strlit("h");
    reveal_strlit("?");
    reveal_strlit("exit");
    reveal_strlit("quit");
    reveal_strlit("q");
    assert(lower("search"@) =~= "search"@);
    assert(lower("s"@) =~= "s"@);
    assert(lower("trends"@) =~= "trends"@);
    assert(lower("trend"@) =~= "trend"@);
    assert(lower("t"@) =~= "t"@);
    assert(lower("profile"@) =~= "profile"@);
    assert(lower("user"@) =~= "user"@);
    assert(lower("p"@) =~= "p"@);
    assert(lower("thread"@) =~= "thread"@);
    assert(lower("th"@) =~= "th"@);
    assert(lower("article"@) =~= "article"@);
    assert(lower("a"@) =~= "a"@);
    assert(lower("help"@) =~= "help"@);
    assert(lower("h"@) =~= "h"@);
    assert(lower("?"@) =~= "?"@);
    assert(lower("exit"@) =~= "exit"@);
    assert(lower("quit"@) =~= "quit"@);
    assert(lower("q"@) =~= "q"@);
    if catalog_keys()[k] != v {
        let j = choose|j: int| 0 <= j < catalog_aliases()[k].len() && lower(#[trigger] catalog_aliases()[k][j]) == v;
        assert(v == catalog_aliases()[k][j]);
    }
}

proof fn lemma_first_match(v: Seq<char>, start: int, i: int)
    requires
        0 <= start <= i < catalog_len(),
        entry_matches(i, v),
        forall|k: int| start <= k < i ==> !#[trigger] entry_matches(k, v),
    ensures
        first_match_from(v, start) == Some(i),
    decreases i - start,
{
    if start < i {
        lemma_first_match(v, start + 1, i);
    }
}

proof fn lemma_no_match(v: Seq<char>, start: int)
    requires
        0 <= start,
        forall|k: int| start <= k < catalog_len() ==> !#[trigger] entry_matches(k, v),
    ensures
        first_match_from(v, start) is None,
    decreases catalog_len() - start,
{
    if start < catalog_len() {
        lemma_no_match(v, start + 1);
    }
}

/// Lookup by key or alias is total and ignores case: a choice whose trimmed,
/// lower-cased text is an entry's key or one of its aliases (which are all
/// lower case) selects exactly that entry, and a choice that names no entry
/// selects nothing.
pub proof fn lemma_choice_lookup(raw: Seq<char>, i: int)
    requires
        0 <= i < catalog_len(),
    ensures
        entry_matches(i, lower(trim(raw))) ==> choice_index(raw) == Some(i),
        (forall|k: int| 0 <= k < catalog_len() ==> !#[trigger] entry_matches(k, lower(trim(raw))))
            ==> choice_index(raw) is None,
{
    let v = lower(trim(raw));
    if entry_matches(i, v) {
        lemma_matches_owner(i, v);
        assert forall|k: int| 0 <= k < i implies !#[trigger] entry_matches(k, v) by {
            if entry_matches(k, v) {
                lemma_matches_owner(k, v);
            }
        }
        lemma_first_match(v, 0, i);
    }
    if forall|k: int| 0 <= k < catalog_len() ==> !#[trigger] entry_matches(k, v) {
        lemma_no_match(v, 0);
    }
}

} // verus!
