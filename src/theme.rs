//! Dashboard colors: five style tokens taken from a named preset, each of
//! which a JSON override document may replace.
use vstd::prelude::*;
use crate::state::opt_view;
use crate::text::{chars_eq, chars_of, lower, lower_chars};

verus! {

/// The style tokens written around the parts of a frame.
pub struct Theme {
    pub accent: String,
    pub border: String,
    pub muted: String,
    pub hero: String,
    pub reset: String,
}

/// The tokens of a preset: accent, border, muted, hero, reset.
pub open spec fn preset_tokens(name: Seq<char>) -> (Seq<char>, Seq<char>, Seq<char>, Seq<char>, Seq<char>) {
    let n = lower(name);
    if n == "minimal"@ {
        ("\x1b[1m"@, ""@, ""@, "\x1b[1m"@, "\x1b[0m"@)
    } else if n == "ocean"@ {
        ("\x1b[1;96m"@, "\x1b[38;5;39m"@, "\x1b[38;5;244m"@, "\x1b[1;94m"@, "\x1b[0m"@)
    } else if n == "amber"@ {
        ("\x1b[1;33m"@, "\x1b[38;5;214m"@, "\x1b[38;5;244m"@, "\x1b[1;33m"@, "\x1b[0m"@)
    } else if n == "neon"@ {
        ("\x1b[1;95m"@, "\x1b[38;5;45m"@, "\x1b[38;5;244m"@, "\x1b[1;92m"@, "\x1b[0m"@)
    } else {
        ("\x1b[1;36m"@, "\x1b[2m"@, "\x1b[2m"@, "\x1b[1;34m"@, "\x1b[0m"@)
    }
}

pub open spec fn theme_tokens(t: Theme) -> (Seq<char>, Seq<char>, Seq<char>, Seq<char>, Seq<char>) {
    (t.accent@, t.border@, t.muted@, t.hero@, t.reset@)
}

fn make_theme(accent: &str, border: &str, muted: &str, hero: &str, reset: &str) -> (r: Theme)
    ensures
        theme_tokens(r) == (accent@, border@, muted@, hero@, reset@),
{
    Theme {
        accent: String::from_str(accent),
        border: String::from_str(border),
        muted: String::from_str(muted),
        hero: String::from_str(hero),
        reset: String::from_str(reset),
    }
}

fn named(n: &Vec<char>, lit: &str) -> (r: bool)
    ensures
        r == (n@ == lit@),
{
    let l = chars_of(lit);
    chars_eq(n.as_slice(), l.as_slice())
}

/// The preset called `name`, ignoring ASCII case; "classic" for any other name.
pub fn theme_preset(name: &str) -> (r: Theme)
    ensures
        theme_tokens(r) == preset_tokens(name@),
{
    let raw = chars_of(name);
    let n = lower_chars(raw.as_slice());
    if named(&n, "minimal") {
        make_theme("\x1b[1m", "", "", "\x1b[1m", "\x1b[0m")
    } else if named(&n, "ocean") {
        make_theme("\x1b[1;96m", "\x1b[38;5;39m", "\x1b[38;5;244m", "\x1b[1;94m", "\x1b[0m")
    } else if named(&n, "amber") {
        make_theme("\x1b[1;33m", "\x1b[38;5;214m", "\x1b[38;5;244m", "\x1b[1;33m", "\x1b[0m")
    } else if named(&n, "neon") {
        make_theme("\x1b[1;95m", "\x1b[38;5;45m", "\x1b[38;5;244m", "\x1b[1;92m", "\x1b[0m")
    } else {
        make_theme("\x1b[1;36m", "\x1b[2m", "\x1b[2m", "\x1b[1;34m", "\x1b[0m")
    }
}

pub open spec fn or_keep(found: Option<Seq<char>>, current: Seq<char>) -> Seq<char> {
    match found {
        Some(v) => v,
        None => current,
    }
}

fn keep_or(found: Option<String>, current: String) -> (r: String)
    ensures
        r@ == or_keep(opt_view(found), current@),
{
    match found {
        Some(v) => v,
        None => current,
    }
}

impl Theme {
    /// The theme with each token that an override gives replaced.
    pub fn with_overrides(
        self,
        accent: Option<String>,
        border: Option<String>,
        muted: Option<String>,
        hero: Option<String>,
        reset: Option<String>,
    ) -> (r: Theme)
        ensures
            r.accent@ == or_keep(opt_view(accent), self.accent@),
            r.border@ == or_keep(opt_view(border), self.border@),
            r.muted@ == or_keep(opt_view(muted), self.muted@),
            r.hero@ == or_keep(opt_view(hero), self.hero@),
            r.reset@ == or_keep(opt_view(reset), self.reset@),
    {
        Theme {
            accent: keep_or(accent, self.accent),
            border: keep_or(border, self.border),
            muted: keep_or(muted, self.muted),
            hero: keep_or(hero, self.hero),
            reset: keep_or(reset, self.reset),
        }
    }
}

/// The string member `key` of the JSON object that `raw` holds, if `raw`
/// parses as an object and that member is a string.
pub uninterp spec fn json_string_member(raw: Seq<char>, key: Seq<char>) -> Option<Seq<char>>;

/// Relies on `serde_json::from_str` into `serde_json::Value` and on
/// `serde_json::Map::get`: parses `raw` and reads one string member of the
/// top-level object; the outcome depends on `raw` and `key` alone.
#[verifier::external_body]
fn json_string_field(raw: &str, key: &str) -> (r: Option<String>)
    ensures
        opt_view(r) == json_string_member(raw@, key@),
{
    match serde_json::from_str::<serde_json::Value>(raw) {
        Ok(serde_json::Value::Object(map)) => match map.get(key) {
            Some(serde_json::Value::String(v)) => Some(v.clone()),
            _ => None,
        },
        _ => None,
    }
}

/// The preset `name`, with the tokens that the JSON document `overrides`
/// names as string members replaced.
pub fn configured_theme(name: &str, overrides: Option<&str>) -> (r: Theme)
    ensures
        overrides is None ==> theme_tokens(r) == preset_tokens(name@),
        overrides is Some ==> {
            let raw = overrides->0@;
            let p = preset_tokens(name@);
            theme_tokens(r) == (
                or_keep(json_string_member(raw, "accent"@), p.0),
                or_keep(json_string_member(raw, "border"@), p.1),
                or_keep(json_string_member(raw, "muted"@), p.2),
                or_keep(json_string_member(raw, "hero"@), p.3),
                or_keep(json_string_member(raw, "reset"@), p.4),
            )
        },
{
    let theme = theme_preset(name);
    match overrides {
        None => theme,
        Some(raw) => theme.with_overrides(
            json_string_field(raw, "accent"),
            json_string_field(raw, "border"),
            json_string_field(raw, "muted"),
            json_string_field(raw, "hero"),
            json_string_field(raw, "reset"),
        ),
    }
}

} // verus!
