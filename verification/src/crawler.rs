//! Addresses of the public stash tab service, and the change id that links
//! one page to the next.
use vstd::prelude::*;
use crate::pattern::{cap_group, capture_group, regex_captures, regex_first_match};

verus! {

pub const STASH_TABS_URL: &'static str = "http://api.pathofexile.com/public-stash-tabs";
pub const ID_QUERY: &'static str = "?id=";
/// Five runs of digits joined by `-`, such as `7222850-7781124-7106063-8472575-7898327`.
pub const CHANGE_ID_PATTERN: &'static str = "[0-9]*-[0-9]*-[0-9]*-[0-9]*-[0-9]*";

/// The change id found at the start of a page: the first match of
/// `CHANGE_ID_PATTERN`.
pub open spec fn change_id_in(text: Seq<char>) -> Option<Seq<char>> {
    match regex_first_match(CHANGE_ID_PATTERN@, text) {
        Some(caps) => cap_group(caps, 0),
        None => None,
    }
}

/// The least time between two requests, in nanoseconds: one second.
pub const MIN_REQUEST_INTERVAL_NS: u64 = 1_000_000_000;

/// How long the crawler waits after a request that took `elapsed_ns`
/// nanoseconds: the rest of a second, and not at all once a second is over.
pub fn park_time(elapsed_ns: u64) -> (wait: Option<u64>)
    ensures
        elapsed_ns < MIN_REQUEST_INTERVAL_NS ==> wait == Some((MIN_REQUEST_INTERVAL_NS - elapsed_ns) as u64),
        elapsed_ns >= MIN_REQUEST_INTERVAL_NS ==> wait is None,
{
    if elapsed_ns < MIN_REQUEST_INTERVAL_NS {
        Some(MIN_REQUEST_INTERVAL_NS - elapsed_ns)
    } else {
        None
    }
}

/// The address of the page that follows the change id `next_id`.
pub fn build_new_url(next_id: &String) -> (url: String)
    ensures
        url@ == STASH_TABS_URL@ + ID_QUERY@ + next_id@,
{
    let mut url = STASH_TABS_URL.to_owned();
    url.append(ID_QUERY);
    url.append(next_id.as_str());
    url
}

/// The change id of the next page, read from the start of the current one.
pub fn get_next_id(s: &String) -> (id: Option<String>)
    ensures
        id.deep_view() == change_id_in(s@),
{
    match regex_captures(CHANGE_ID_PATTERN, s.as_str()) {
        Some(caps) => capture_group(&caps, 0),
        None => None,
    }
}

} // verus!
