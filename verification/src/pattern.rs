//! Regular expressions, through the `regex` crate.
//!
//! Each call compiles its pattern and then searches the text. What the
//! search finds is not stated here: it is named, and the contracts of the
//! parsers speak of these names.
use vstd::prelude::*;

verus! {

/// What `regex::Regex::new(pattern)` and then `captures(text)` give: `None`
/// when the pattern does not compile or does not match; otherwise one entry
/// per capture group of the leftmost-first match, group 0 first, `None` for
/// a group that took no part in the match.
pub uninterp spec fn regex_first_match(pattern: Seq<char>, text: Seq<char>) -> Option<
    Seq<Option<Seq<char>>>,
>;

/// What `regex::Regex::new(pattern)` and then `replace_all(text, replacement)`
/// give: `None` when the pattern does not compile, otherwise the text with
/// every non-overlapping match replaced.
pub uninterp spec fn regex_replaced(pattern: Seq<char>, text: Seq<char>, replacement: Seq<char>) -> Option<Seq<char>>;

/// Calls `regex::Regex::new` and `Regex::captures`; claims that the groups
/// it hands back, as texts, are `regex_first_match(pattern, text)`, and that
/// a short pattern of letters, digits and spaces only, which stands for
/// itself and compiles, matches exactly where it occurs in the text.
#[verifier::external_body]
pub(crate) fn regex_captures(pattern: &str, text: &str) -> (caps: Option<Vec<Option<String>>>)
    ensures
        caps.deep_view() == regex_first_match(pattern@, text@),
        is_literal_pattern(pattern@) ==> (caps is Some <==> occurs_in(pattern@, text@)),
{
    let re = match regex::Regex::new(pattern) {
        Ok(re) => re,
        Err(_) => return None,
    };
    let found = re.captures(text)?;
    let mut groups = Vec::new();
    for i in 0..found.len() {
        groups.push(match found.get(i) {
            Some(m) => Some(m.as_str().to_string()),
            None => None,
        });
    }
    Some(groups)
}

/// Calls `regex::Regex::new` and `Regex::replace_all`; claims only that the
/// text it hands back is `regex_replaced(pattern, text, replacement)`.
#[verifier::external_body]
pub(crate) fn regex_replace_all(pattern: &str, text: &str, replacement: &str) -> (r: Option<String>)
    ensures
        r.deep_view() == regex_replaced(pattern@, text@, replacement@),
{
    match regex::Regex::new(pattern) {
        Ok(re) => Some(re.replace_all(text, replacement).into_owned()),
        Err(_) => None,
    }
}

/// Letters, digits and spaces, which stand for themselves in a pattern.
pub open spec fn is_literal_char(c: char) -> bool {
    ('a' <= c && c <= 'z') || ('A' <= c && c <= 'Z') || ('0' <= c && c <= '9') || c == ' '
}

/// The longest pattern that is treated as standing for itself: far below
/// the size at which `Regex::new` refuses to compile a literal.
pub const LITERAL_PATTERN_MAX: usize = 100;

/// A pattern that stands for itself: one to `LITERAL_PATTERN_MAX`
/// characters, each a letter, a digit or a space.
pub open spec fn is_literal_pattern(p: Seq<char>) -> bool {
    0 < p.len() <= LITERAL_PATTERN_MAX && forall|i: int| 0 <= i < p.len() ==> is_literal_char(#[trigger] p[i])
}

/// Whether `needle` occurs in `hay` as a run of consecutive characters.
pub open spec fn occurs_in(needle: Seq<char>, hay: Seq<char>) -> bool {
    exists|i: int| 0 <= i && i + needle.len() <= hay.len() && #[trigger] hay.subrange(i, i + needle.len()) == needle
}

/// Whether `pattern` matches somewhere in `text`.
pub open spec fn has_match(pattern: Seq<char>, text: Seq<char>) -> bool {
    regex_first_match(pattern, text) is Some
}

/// Group `i` of a match, `None` where the match has no such group.
pub open spec fn cap_group(caps: Seq<Option<Seq<char>>>, i: int) -> Option<Seq<char>> {
    if 0 <= i < caps.len() {
        caps[i]
    } else {
        None
    }
}

/// Whether `pattern` matches somewhere in `text`.
pub fn is_match(pattern: &str, text: &str) -> (b: bool)
    ensures
        b == has_match(pattern@, text@),
{
    regex_captures(pattern, text).is_some()
}

/// Whether a pattern that stands for itself occurs in `text`, found by
/// searching for the pattern.
pub fn contains_text(pattern: &str, text: &str) -> (b: bool)
    requires
        is_literal_pattern(pattern@),
    ensures
        b == occurs_in(pattern@, text@),
{
    regex_captures(pattern, text).is_some()
}

/// A copy of group `i` of a match.
pub fn capture_group(caps: &Vec<Option<String>>, i: usize) -> (g: Option<String>)
    ensures
        g.deep_view() == cap_group(caps.deep_view(), i as int),
{
    if i < caps.len() {
        match &caps[i] {
            Some(s) => Some(s.clone()),
            None => None,
        }
    } else {
        None
    }
}

} // verus!
