//! Modifier lines of an item: their text with the numbers taken out, and
//! the numbers.
use vstd::prelude::*;
use crate::pattern::{cap_group, capture_group, regex_captures, regex_first_match, regex_replace_all, regex_replaced};
use crate::records::{map_all, result_view, ModView, RustMod};
use crate::text::{debug_string, debug_text, decimal_i16, parse_i16};

verus! {

/// A number in a modifier, with an optional `to` and a second number, or a
/// line without any digit.
pub const MOD_PATTERN: &'static str = "(?:([0-9]+)(?:(?: to ([0-9]+))|%)?)|(?:^[^0-9]+$)";
/// A line that starts with a number, maybe after a `+`.
pub const LEADING_NUMBER_PATTERN: &'static str = "^\\+?([0-9]+)%?.*";
/// A line with a number somewhere.
pub const ANY_NUMBER_PATTERN: &'static str = ".*([0-9]+).*([0-9]+)?.*";
/// Any line.
pub const ANY_TEXT_PATTERN: &'static str = ".*";
/// A run of digits.
pub const NUMBER_PATTERN: &'static str = "[0-9]+";
/// What each run of digits becomes in the text of a modifier.
pub const NUMBER_MARK: &'static str = "##";

pub const MOD_NOT_PARSED: &'static str = "could not parse this mod";
pub const MOD_NOT_PARSED_PREFIX: &'static str = "could not parse this mod ";
pub const MOD_VALUE_OUT_OF_RANGE: &'static str = "mod value is not a number in the range of i16";

/// A captured number of a modifier: absent, or read as an `i16`.
pub open spec fn mod_value(g: Option<Seq<char>>) -> Result<Option<i16>, Seq<char>> {
    match g {
        None => Ok(None),
        Some(t) => match decimal_i16(t) {
            Some(v) => Ok(Some(v)),
            None => Err(MOD_VALUE_OUT_OF_RANGE@),
        },
    }
}

/// A modifier with the given text and the numbers read from two captures.
pub open spec fn mod_view_from(name: Seq<char>, g1: Option<Seq<char>>, g2: Option<Seq<char>>) -> Result<
    ModView,
    Seq<char>,
> {
    match mod_value(g1) {
        Err(e) => Err(e),
        Ok(v1) => match mod_value(g2) {
            Err(e) => Err(e),
            Ok(v2) => Ok(ModView { name, val1: v1, val2: v2 }),
        },
    }
}

pub open spec fn mod_error(m: Seq<char>) -> Seq<char> {
    MOD_NOT_PARSED_PREFIX@ + debug_text(m)
}

/// A single modifier line: its text with each run of digits turned into
/// `##`, and the numbers of the first match of `MOD_PATTERN`.
pub open spec fn single_mod(m: Seq<char>) -> Result<ModView, Seq<char>> {
    match regex_first_match(MOD_PATTERN@, m) {
        None => Err(mod_error(m)),
        Some(caps) => match regex_replaced(NUMBER_PATTERN@, m, NUMBER_MARK@) {
            None => Err(mod_error(m)),
            Some(name) => mod_view_from(name, cap_group(caps, 1), cap_group(caps, 2)),
        },
    }
}

/// A modifier from the match of one of the line patterns: the matched text
/// with its digits marked, and the numbers of groups 1 and 2.
pub open spec fn line_from_match(caps: Seq<Option<Seq<char>>>) -> Result<ModView, Seq<char>> {
    match cap_group(caps, 0) {
        None => Err(MOD_NOT_PARSED@),
        Some(whole) => match regex_replaced(NUMBER_PATTERN@, whole, NUMBER_MARK@) {
            None => Err(MOD_NOT_PARSED@),
            Some(name) => mod_view_from(name, cap_group(caps, 1), cap_group(caps, 2)),
        },
    }
}

/// A modifier line, read with the first of the line patterns that matches.
pub open spec fn mod_line(m: Seq<char>) -> Result<ModView, Seq<char>> {
    match regex_first_match(LEADING_NUMBER_PATTERN@, m) {
        Some(caps) => line_from_match(caps),
        None => match regex_first_match(ANY_NUMBER_PATTERN@, m) {
            Some(caps) => line_from_match(caps),
            None => match regex_first_match(ANY_TEXT_PATTERN@, m) {
                Some(caps) => line_from_match(caps),
                None => Err(MOD_NOT_PARSED@),
            },
        },
    }
}

pub open spec fn mod_line_fn() -> spec_fn(Seq<char>) -> Result<ModView, Seq<char>> {
    |m: Seq<char>| mod_line(m)
}

/// All modifier lines of a list, in order; no list gives no modifiers.
pub open spec fn mod_lines(mods: Option<Seq<Seq<char>>>) -> Result<Seq<ModView>, Seq<char>> {
    match mods {
        None => Ok(Seq::empty()),
        Some(v) => map_all(v, mod_line_fn()),
    }
}

fn read_mod_value(g: Option<String>) -> (r: Result<Option<i16>, String>)
    ensures
        result_view_value(r) == mod_value(g.deep_view()),
{
    match g {
        None => Ok(None),
        Some(t) => match parse_i16(t.as_str()) {
            Some(v) => Ok(Some(v)),
            None => Err(MOD_VALUE_OUT_OF_RANGE.to_owned()),
        },
    }
}

pub open spec fn result_view_value<T>(r: Result<T, String>) -> Result<T, Seq<char>> {
    match r {
        Ok(v) => Ok(v),
        Err(e) => Err(e@),
    }
}

/// A modifier with the text `name` and the numbers read from the captured
/// texts `g1` and `g2`.
pub fn mod_from_groups(name: String, g1: Option<String>, g2: Option<String>) -> (r: Result<
    RustMod,
    String,
>)
    ensures
        result_view(r) == mod_view_from(name@, g1.deep_view(), g2.deep_view()),
{
    let val1 = match read_mod_value(g1) {
        Ok(v) => v,
        Err(e) => return Err(e),
    };
    let val2 = match read_mod_value(g2) {
        Ok(v) => v,
        Err(e) => return Err(e),
    };
    Ok(RustMod { name, val1, val2 })
}

/// Reads one modifier line: the line with every run of digits replaced by
/// `##`, and the first number (and the one after a `to`) of the line.
pub fn parse_mod(modification: String) -> (r: Result<RustMod, String>)
    ensures
        result_view(r) == single_mod(modification@),
{
    let m = modification.as_str();
    let caps = match regex_captures(MOD_PATTERN, m) {
        Some(caps) => caps,
        None => {
            let mut msg = MOD_NOT_PARSED_PREFIX.to_owned();
            msg.append(debug_string(m).as_str());
            return Err(msg);
        },
    };
    let name = match regex_replace_all(NUMBER_PATTERN, m, NUMBER_MARK) {
        Some(name) => name,
        None => {
            let mut msg = MOD_NOT_PARSED_PREFIX.to_owned();
            msg.append(debug_string(m).as_str());
            return Err(msg);
        },
    };
    mod_from_groups(name, capture_group(&caps, 1), capture_group(&caps, 2))
}

/// A modifier from the groups of a match of one of the line patterns.
pub fn mod_from_line_match(caps: &Vec<Option<String>>) -> (r: Result<RustMod, String>)
    ensures
        result_view(r) == line_from_match(caps.deep_view()),
{
    let whole = match capture_group(caps, 0) {
        Some(w) => w,
        None => return Err(MOD_NOT_PARSED.to_owned()),
    };
    let name = match regex_replace_all(NUMBER_PATTERN, whole.as_str(), NUMBER_MARK) {
        Some(name) => name,
        None => return Err(MOD_NOT_PARSED.to_owned()),
    };
    mod_from_groups(name, capture_group(caps, 1), capture_group(caps, 2))
}

/// Reads one modifier line of a list, as `mod_line` states.
pub fn parse_mod_line(m: &str) -> (r: Result<RustMod, String>)
    ensures
        result_view(r) == mod_line(m@),
{
    if let Some(caps) = regex_captures(LEADING_NUMBER_PATTERN, m) {
        return mod_from_line_match(&caps);
    }
    if let Some(caps) = regex_captures(ANY_NUMBER_PATTERN, m) {
        return mod_from_line_match(&caps);
    }
    if let Some(caps) = regex_captures(ANY_TEXT_PATTERN, m) {
        return mod_from_line_match(&caps);
    }
    Err(MOD_NOT_PARSED.to_owned())
}

/// Reads every modifier line of a list, in order; the first line that
/// cannot be read gives the error.
pub fn parse_mods(mods: Option<Vec<String>>) -> (r: Result<Vec<RustMod>, String>)
    ensures
        result_view(r) == mod_lines(mods.deep_view()),
{
    let ghost given = mods.deep_view();
    match mods {
        None => {
            let empty: Vec<RustMod> = Vec::new();
            assert(empty.deep_view() =~= Seq::<ModView>::empty());
            Ok(empty)
        },
        Some(v) => {
            let mut result: Vec<RustMod> = Vec::new();
            let ghost lines = v.deep_view();
            assert(given == Some(lines));
            assert(result.deep_view() =~= Seq::<ModView>::empty());
            let mut i: usize = 0;
            while i < v.len()
                invariant
                    i <= v.len(),
                    lines == v.deep_view(),
                    given == Some(lines),
                    given == mods.deep_view(),
                    map_all(lines, mod_line_fn()) == crate::records::map_from(
                        lines,
                        mod_line_fn(),
                        i as int,
                        result.deep_view(),
                    ),
                decreases v.len() - i,
            {
                assert(lines[i as int] == v[i as int]@);
                match parse_mod_line(v[i].as_str()) {
                    Ok(m) => {
                        let ghost before = result.deep_view();
                        result.push(m);
                        assert(result.deep_view() =~= before.push(m.deep_view()));
                    },
                    Err(e) => {
                        assert((mod_line_fn())(lines[i as int]) == mod_line(lines[i as int]));
                        return Err(e);
                    },
                }
                i = i + 1;
            }
            assert(crate::records::map_from(lines, mod_line_fn(), i as int, result.deep_view())
                == Ok::<Seq<ModView>, Seq<char>>(result.deep_view()));
            Ok(result)
        },
    }
}

} // verus!
