//! Prices written in stash tab names and item notes.
use vstd::prelude::*;
use crate::pattern::{cap_group, capture_group, regex_captures, regex_first_match};
use crate::records::{result_view, Price, PriceView};
use crate::text::{is_decimal, is_decimal_text};

verus! {

/// `~`, a prefix of letters and slashes, a number, and a suffix of at least
/// three letters, such as `~b/o 5 chaos`.
pub const PRICE_PATTERN: &'static str = "^~([a-z/]+)\\s([0-9\\.]+)\\s([a-z]{3,})$";

pub const NO_PRICE: &'static str = "no price";
pub const PRICE_INCOMPLETE: &'static str = "price is missing a part";
pub const PRICE_NOT_A_NUMBER: &'static str = "price value is not a number";

/// A price from the groups of a match of `PRICE_PATTERN`.
pub open spec fn price_from_match(caps: Seq<Option<Seq<char>>>) -> Result<PriceView, Seq<char>> {
    match (cap_group(caps, 1), cap_group(caps, 2), cap_group(caps, 3)) {
        (Some(prefix), Some(value), Some(suffix)) => if is_decimal_text(value) {
            Ok(PriceView { prefix, value, suffix })
        } else {
            Err(PRICE_NOT_A_NUMBER@)
        },
        _ => Err(PRICE_INCOMPLETE@),
    }
}

/// The price that a text states, or why it states none.
pub open spec fn price_of(s: Seq<char>) -> Result<PriceView, Seq<char>> {
    match regex_first_match(PRICE_PATTERN@, s) {
        None => Err(NO_PRICE@),
        Some(caps) => price_from_match(caps),
    }
}

/// A price from the groups of a match of `PRICE_PATTERN`.
pub fn price_from_captures(caps: &Vec<Option<String>>) -> (r: Result<Price, String>)
    ensures
        result_view(r) == price_from_match(caps.deep_view()),
{
    let prefix = capture_group(caps, 1);
    let value = capture_group(caps, 2);
    let suffix = capture_group(caps, 3);
    match (prefix, value, suffix) {
        (Some(prefix), Some(value), Some(suffix)) => {
            if is_decimal(value.as_str()) {
                Ok(Price { prefix, value, suffix })
            } else {
                Err(PRICE_NOT_A_NUMBER.to_owned())
            }
        },
        _ => Err(PRICE_INCOMPLETE.to_owned()),
    }
}

/// Reads a price such as `~b/o 5 chaos` out of a text.
pub fn parse_price(s: &String) -> (r: Result<Price, String>)
    ensures
        result_view(r) == price_of(s@),
{
    match regex_captures(PRICE_PATTERN, s.as_str()) {
        Some(caps) => price_from_captures(&caps),
        None => Err(NO_PRICE.to_owned()),
    }
}

} // verus!
