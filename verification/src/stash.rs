//! Stash tabs and pages of the public stash tab service.
use vstd::prelude::*;
use crate::input::{Item, JsonSite, Stash};
use crate::item::{item_view_of, parse_item};
use crate::price::{parse_price, price_of};
use crate::records::{map_all, map_from, result_view, ItemView, Price, PriceView, RustItem, RustStash, StashView};

verus! {

/// The price that a stash tab name states, if any.
pub open spec fn stash_price(name: Seq<char>) -> Option<PriceView> {
    match price_of(name) {
        Ok(p) => Some(p),
        Err(_) => None,
    }
}

pub open spec fn item_fn(s_id: Seq<char>, price: Option<PriceView>) -> spec_fn(Item) -> Result<
    ItemView,
    Seq<char>,
> {
    |i: Item| item_view_of(i, s_id, price)
}

pub open spec fn text_or_empty(t: Option<String>) -> Seq<char> {
    match t {
        Some(s) => s@,
        None => Seq::empty(),
    }
}

/// A stash tab with all its items parsed; the first item that cannot be
/// parsed gives the error.
pub open spec fn stash_view_of(stash: Stash) -> Result<StashView, Seq<char>> {
    let name = text_or_empty(stash.stash_name);
    match map_all(stash.items@, item_fn(stash.stash_id@, stash_price(name))) {
        Err(e) => Err(e),
        Ok(items) => Ok(
            StashView {
                stash_id: stash.stash_id@,
                acc_name: text_or_empty(stash.acc_name),
                last_char_name: stash.last_char_name@,
                stash_type: stash.stash_type@,
                stash_name: name,
                is_public: stash.is_public,
                item_nr: items.len() as i16,
                items,
            },
        ),
    }
}

/// Parses a stash tab: its name may state a price for all its items.
pub fn parse_stash(stash: Stash) -> (r: Result<RustStash, String>)
    ensures
        result_view(r) == stash_view_of(stash),
{
    let ghost given = stash;
    let acc = match stash.acc_name {
        Some(s) => s,
        None => String::new(),
    };
    let s_name = match stash.stash_name {
        Some(x) => x,
        None => String::new(),
    };
    assert(s_name@ == text_or_empty(given.stash_name));
    let price: Option<Price> = match parse_price(&s_name) {
        Ok(x) => Some(x),
        Err(_) => None,
    };
    let ghost f = item_fn(given.stash_id@, stash_price(s_name@));
    let ghost all = given.items@;
    let mut itm: Vec<RustItem> = Vec::new();
    assert(itm.deep_view() =~= Seq::<ItemView>::empty());
    for item in iter: stash.items
        invariant
            all == given.items@,
            given == stash,
            s_name@ == text_or_empty(given.stash_name),
            iter.index() <= all.len(),
            iter.seq() == all,
            f == item_fn(given.stash_id@, stash_price(s_name@)),
            price.deep_view() == stash_price(s_name@),
            stash.stash_id@ == given.stash_id@,
            map_all(all, f) == map_from(all, f, iter.index() as int, itm.deep_view()),
    {
        assert(f(item) == item_view_of(item, stash.stash_id@, price.deep_view()));
        match parse_item(item, &stash.stash_id, &price) {
            Ok(x) => {
                let ghost before = itm.deep_view();
                itm.push(x);
                assert(itm.deep_view() =~= before.push(x.deep_view()));
            },
            Err(y) => return Err(y),
        }
    }
    assert(map_from(all, f, all.len() as int, itm.deep_view()) == Ok::<Seq<ItemView>, Seq<char>>(
        itm.deep_view(),
    ));
    let n = itm.len();
    Ok(
        RustStash {
            item_nr: #[verifier::truncate] (n as i16),
            stash_name: s_name,
            items: itm,
            acc_name: acc,
            last_char_name: stash.last_char_name,
            stash_id: stash.stash_id,
            stash_type: stash.stash_type,
            is_public: stash.is_public,
        },
    )
}

/// Parses every stash tab of a page, in order, each on its own: a tab that
/// cannot be parsed gives its error in its place.
pub fn parse_site(site: JsonSite) -> (r: Vec<Result<RustStash, String>>)
    ensures
        r.len() == site.stashes.len(),
        forall|i: int|
            0 <= i < r.len() ==> result_view(#[trigger] r@[i]) == stash_view_of(site.stashes@[i]),
{
    let ghost all = site.stashes@;
    let mut out: Vec<Result<RustStash, String>> = Vec::new();
    for st in iter: site.stashes
        invariant
            iter.seq() == all,
            all == site.stashes@,
            out.len() == iter.index(),
            forall|i: int|
                0 <= i < out.len() ==> result_view(#[trigger] out@[i]) == stash_view_of(all[i]),
    {
        out.push(parse_stash(st));
    }
    out
}

} // verus!
