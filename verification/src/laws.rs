//! What holds of the parsers as a whole.
use vstd::prelude::*;
use crate::input::{Property, Requirement, Socket, Stash};
use crate::item::{add_mod, base_from, base_value, item_view_of, pseudo_totals, totals_from, zero_totals, Totals};
use crate::item_type::{
    armour_type, item_type_of, jewelry_type, weapon_type, AMULET_PATTERN, ARMOUR_UNKNOWN,
    AXE_PATTERN, BELT_PATTERN, BODY_PATTERN, BOOTS_PATTERN, BOW_PATTERN, CLAW_PATTERN,
    DAGGER_PATTERN, FLASK_PATTERN, GLOVES_PATTERN, HELM_PATTERN, JEWELRY_UNKNOWN, JEWEL_PATTERN,
    MACE_PATTERN, ONE_HAND_PATTERN, QUIVER_PATTERN, RAPIER_PATTERN, RING_PATTERN, SCEPTER_PATTERN,
    SHIELD_PATTERN, STAFF_PATTERN, SWORD_PATTERN, TWO_HAND_PATTERN, WAND_PATTERN, WEAPON_UNKNOWN,
};
use crate::pattern::{has_match, occurs_in};
use crate::mods::{line_from_match, mod_view_from, ANY_NUMBER_PATTERN, LEADING_NUMBER_PATTERN};
use crate::text::decimal_i16;
use crate::records::ItemView;
use crate::mods::{mod_line, mod_line_fn, mod_lines};
use crate::props::props_from;
use crate::records::{map_all, map_from, ItemType, ModView, PropertyView, PriceView, ReqView};
use crate::requirements::{requirement_fn, requirement_view};
use crate::sockets::{link_run, max_link, sockets_text, socket_number};
use crate::stash::{item_fn, stash_price, stash_view_of, text_or_empty};
use crate::pattern::regex_first_match;
use crate::price::{price_from_match, price_of, NO_PRICE, PRICE_PATTERN};
use crate::text::{is_decimal_text, truncated_i16, whole_part};

verus! {

/// Where applying `f` from index `i` on succeeds, it gives one result per
/// element after those already done, each the result of `f` on its element.
pub proof fn lemma_map_from_ok<A, B>(
    s: Seq<A>,
    f: spec_fn(A) -> Result<B, Seq<char>>,
    i: int,
    done: Seq<B>,
)
    requires
        0 <= i <= s.len(),
    ensures
        match map_from(s, f, i, done) {
            Ok(out) => {
                &&& out.len() == done.len() + s.len() - i
                &&& out.subrange(0, done.len() as int) == done
                &&& forall|k: int| i <= k < s.len() ==> f(s[k]) == Ok::<B, Seq<char>>(
                    #[trigger] out[done.len() + k - i],
                )
            },
            Err(_) => true,
        },
    decreases s.len() - i,
{
    if i < s.len() {
        match f(s[i]) {
            Err(_) => {},
            Ok(x) => {
                lemma_map_from_ok(s, f, i + 1, done.push(x));
                match map_from(s, f, i + 1, done.push(x)) {
                    Ok(out) => {
                        assert(out.subrange(0, done.len() as int) =~= out.subrange(
                            0,
                            done.len() + 1 as int,
                        ).subrange(0, done.len() as int));
                        assert(out[done.len() as int] == out.subrange(0, done.len() + 1 as int)[done.len() as int]);
                        assert forall|k: int| i <= k < s.len() implies f(s[k]) == Ok::<B, Seq<char>>(
                            #[trigger] out[done.len() + k - i],
                        ) by {
                            if k > i {
                                assert(f(s[k]) == Ok::<B, Seq<char>>(out[(done.len() + 1) + k - (i + 1)]));
                            }
                        }
                    },
                    Err(_) => {},
                }
            },
        }
    } else {
        assert(done.subrange(0, done.len() as int) =~= done);
    }
}

/// Where applying `f` to every element succeeds, it gives one result per
/// element, in order.
pub proof fn lemma_map_all_ok<A, B>(s: Seq<A>, f: spec_fn(A) -> Result<B, Seq<char>>)
    ensures
        match map_all(s, f) {
            Ok(out) => out.len() == s.len() && forall|k: int|
                0 <= k < s.len() ==> f(s[k]) == Ok::<B, Seq<char>>(#[trigger] out[k]),
            Err(_) => true,
        },
{
    lemma_map_from_ok(s, f, 0, Seq::empty());
    match map_all(s, f) {
        Ok(out) => {
            assert forall|k: int| 0 <= k < s.len() implies f(s[k]) == Ok::<B, Seq<char>>(
                #[trigger] out[k],
            ) by {
                assert(out[0 + k - 0] == out[k]);
            }
        },
        Err(_) => {},
    }
}

/// Every line of a list of modifier lines becomes one modifier, in order:
/// the one that reading the line on its own gives.
pub proof fn law_one_modifier_per_line(lines: Seq<Seq<char>>)
    ensures
        match mod_lines(Some(lines)) {
            Ok(mods) => mods.len() == lines.len() && forall|k: int|
                0 <= k < lines.len() ==> mod_line(lines[k]) == Ok::<_, Seq<char>>(#[trigger] mods[k]),
            Err(_) => true,
        },
{
    lemma_map_all_ok(lines, mod_line_fn());
}

/// A parsed item records the stash tab it is in, and carries the price of
/// that tab where the tab's name states one.
pub proof fn lemma_item_in_stash(item: crate::input::Item, s_id: Seq<char>, price: Option<PriceView>)
    ensures
        match item_view_of(item, s_id, price) {
            Ok(v) => v.contained_in == s_id && (price is Some ==> v.price == price),
            Err(_) => true,
        },
{
}

/// A parsed stash tab holds one item for each item of the tab, in order,
/// each recording that it is in that tab, and counts them.
pub proof fn law_items_belong_to_their_stash(stash: Stash)
    ensures
        match stash_view_of(stash) {
            Ok(v) => {
                &&& v.items.len() == stash.items.len()
                &&& v.item_nr == v.items.len() as i16
                &&& forall|k: int|
                    0 <= k < v.items.len() ==> (#[trigger] v.items[k]).contained_in
                        == stash.stash_id@
            },
            Err(_) => true,
        },
{
    let name = text_or_empty(stash.stash_name);
    let f = item_fn(stash.stash_id@, stash_price(name));
    lemma_map_all_ok(stash.items@, f);
    match stash_view_of(stash) {
        Ok(v) => {
            assert forall|k: int| 0 <= k < v.items.len() implies (#[trigger] v.items[k]).contained_in
                == stash.stash_id@ by {
                lemma_item_in_stash(stash.items@[k], stash.stash_id@, stash_price(name));
                assert(f(stash.items@[k]) == item_view_of(stash.items@[k], stash.stash_id@, stash_price(name)));
            }
        },
        Err(_) => {},
    }
}

/// A price stated in the name of a stash tab is the price of every item in it.
pub proof fn law_stash_price_applies_to_every_item(stash: Stash)
    ensures
        match stash_view_of(stash) {
            Ok(v) => stash_price(v.stash_name) is Some ==> forall|k: int|
                0 <= k < v.items.len() ==> (#[trigger] v.items[k]).price == stash_price(v.stash_name),
            Err(_) => true,
        },
{
    let name = text_or_empty(stash.stash_name);
    let f = item_fn(stash.stash_id@, stash_price(name));
    lemma_map_all_ok(stash.items@, f);
    match stash_view_of(stash) {
        Ok(v) => {
            if stash_price(v.stash_name) is Some {
                assert forall|k: int| 0 <= k < v.items.len() implies (#[trigger] v.items[k]).price
                    == stash_price(v.stash_name) by {
                    lemma_item_in_stash(stash.items@[k], stash.stash_id@, stash_price(name));
                    assert(f(stash.items@[k]) == item_view_of(stash.items@[k], stash.stash_id@, stash_price(name)));
                }
            }
        },
        Err(_) => {},
    }
}

/// Gems, currency, divination cards and prophecies are told apart by their
/// frame alone, whatever their base type and icon.
pub proof fn law_frame_decides_kind(frame_type: i16, base_item: Seq<char>, icon: Seq<char>)
    ensures
        frame_type == 4 ==> item_type_of(frame_type, base_item, icon) == Ok::<_, Seq<char>>(ItemType::Gem),
        frame_type == 5 ==> item_type_of(frame_type, base_item, icon) == Ok::<_, Seq<char>>(ItemType::Currency),
        frame_type == 6 ==> item_type_of(frame_type, base_item, icon) == Ok::<_, Seq<char>>(ItemType::DivinationCard),
        frame_type == 8 ==> item_type_of(frame_type, base_item, icon) == Ok::<_, Seq<char>>(ItemType::ProphecyCard),
{
}

/// The largest link group of an item with sockets holds at least one and at
/// most all of its sockets; an item without sockets has none.
pub proof fn law_link_group_within_sockets(s: Seq<Socket>)
    ensures
        s.len() > 0 ==> 1 <= max_link(s, s.len() as int) <= s.len(),
        s.len() == 0 ==> max_link(s, 0) == 0,
{
    crate::sockets::lemma_max_link_bounds(s, s.len() as int);
}

proof fn lemma_whole_part_nonneg(s: Seq<char>)
    ensures
        whole_part(s) >= 0,
    decreases s.len(),
{
    if s.len() > 0 {
        lemma_whole_part_nonneg(s.drop_last());
    }
}

proof fn lemma_base_from_nonneg(props: Seq<PropertyView>, label: Seq<char>, i: int, cur: i16)
    requires
        cur >= 0,
    ensures
        base_from(props, label, i, cur) >= 0,
    decreases props.len() - i,
{
    if 0 <= i < props.len() {
        if props[i].name == label && props[i].values is Some && props[i].values->0.len() > 0 {
            lemma_whole_part_nonneg(props[i].values->0[0].val1);
        }
        let next = if props[i].name == label && props[i].values is Some && props[i].values->0.len()
            > 0 {
            truncated_i16(props[i].values->0[0].val1)
        } else {
            cur
        };
        lemma_base_from_nonneg(props, label, i + 1, next);
    }
}

/// The armour, energy shield and evasion of an item are never negative.
pub proof fn law_base_values_nonnegative(props: Seq<PropertyView>, label: Seq<char>)
    ensures
        base_value(props, label) >= 0,
{
    lemma_base_from_nonneg(props, label, 0, 0);
}

/// Every requirement of a list becomes one requirement, in order: the one
/// that reading the entry on its own gives.
pub proof fn law_one_requirement_per_entry(reqs: Seq<Requirement>)
    ensures
        match map_all(reqs, requirement_fn()) {
            Ok(out) => out.len() == reqs.len() && forall|k: int|
                0 <= k < reqs.len() ==> requirement_view(reqs[k].name@, reqs[k].values.deep_view())
                    == Ok::<ReqView, Seq<char>>(#[trigger] out[k]),
            Err(_) => true,
        },
{
    lemma_map_all_ok(reqs, requirement_fn());
}

proof fn lemma_props_from_count(ps: Seq<Property>, i: int)
    requires
        0 <= i <= ps.len(),
    ensures
        match props_from(ps, i) {
            Ok(out) => out.len() <= ps.len() - i,
            Err(_) => true,
        },
    decreases ps.len() - i,
{
    if i < ps.len() {
        lemma_props_from_count(ps, i + 1);
    }
}

/// Parsing the properties of an item gives at most one property per entry.
pub proof fn law_at_most_one_property_per_entry(props: Seq<Property>)
    ensures
        match props_from(props, 0) {
            Ok(out) => out.len() <= props.len(),
            Err(_) => true,
        },
{
    lemma_props_from_count(props, 0);
}

pub open spec fn no_negative_values(mods: Seq<ModView>) -> bool {
    forall|k: int| 0 <= k < mods.len() ==> ((#[trigger] mods[k]).val1 matches Some(v) ==> v >= 0)
}

pub open spec fn totals_in_order(t: Totals) -> bool {
    0 <= t.ele_resistance <= t.resistance && 0 <= t.max_life
}

proof fn lemma_totals_from_in_order(mods: Seq<ModView>, i: int, t: Totals)
    requires
        0 <= i <= mods.len(),
        no_negative_values(mods),
        totals_in_order(t),
    ensures
        match totals_from(mods, i, t) {
            Ok(out) => totals_in_order(out),
            Err(_) => true,
        },
    decreases mods.len() - i,
{
    if i < mods.len() {
        assert(mods[i].val1 matches Some(v) ==> v >= 0);

        match add_mod(t, mods[i]) {
            Ok(next) => {
                assert(totals_in_order(next));
                lemma_totals_from_in_order(mods, i + 1, next);
            },
            Err(_) => {},
        }
    }
}

/// Where no modifier has a negative number, the elemental resistance total
/// is part of the resistance total, and neither it nor the life total is
/// negative.
pub proof fn law_elemental_part_of_resistance(
    explicit: Seq<ModView>,
    implicit: Seq<ModView>,
    crafted: Seq<ModView>,
)
    requires
        no_negative_values(explicit),
        no_negative_values(implicit),
        no_negative_values(crafted),
    ensures
        match pseudo_totals(explicit, implicit, crafted) {
            Ok(t) => totals_in_order(t),
            Err(_) => true,
        },
{
    lemma_totals_from_in_order(explicit, 0, zero_totals());
    match totals_from(explicit, 0, zero_totals()) {
        Ok(t1) => {
            lemma_totals_from_in_order(implicit, 0, t1);
            match totals_from(implicit, 0, t1) {
                Ok(t2) => lemma_totals_from_in_order(crafted, 0, t2),
                Err(_) => {},
            }
        },
        Err(_) => {},
    }
}

/// A match of the price pattern whose groups hold a prefix, a decimal
/// value and a suffix gives back exactly those three parts.
pub proof fn law_price_from_its_parts(
    caps: Seq<Option<Seq<char>>>,
    prefix: Seq<char>,
    value: Seq<char>,
    suffix: Seq<char>,
)
    requires
        caps.len() >= 4,
        caps[1] == Some(prefix),
        caps[2] == Some(value),
        caps[3] == Some(suffix),
        is_decimal_text(value),
    ensures
        price_from_match(caps) == Ok::<PriceView, Seq<char>>(PriceView { prefix, value, suffix }),
{
}

/// A text in which the price pattern finds no match states no price.
pub proof fn law_no_match_no_price(s: Seq<char>)
    ensures
        regex_first_match(PRICE_PATTERN@, s) is None ==> price_of(s) == Err::<PriceView, Seq<char>>(NO_PRICE@),
{
}

// ---------------------------------------------------------------------
// Prices of items

/// Where the stash tab states no price, an item's price is the one its note
/// states, whatever its prefix, and no price where the note states none.
pub proof fn law_note_price_without_stash_price(item: crate::input::Item, s_id: Seq<char>)
    ensures
        match item_view_of(item, s_id, None) {
            Ok(v) => match item.note {
                Some(n) => match price_of(n@) {
                    Ok(p) => v.price == Some(p),
                    Err(_) => v.price is None,
                },
                None => v.price is None,
            },
            Err(_) => true,
        },
{
}

/// Where the stash tab states a price, it is the price of the item,
/// whatever the item's note says.
pub proof fn law_stash_price_wins(item: crate::input::Item, s_id: Seq<char>, price: PriceView)
    ensures
        match item_view_of(item, s_id, Some(price)) {
            Ok(v) => v.price == Some(price),
            Err(_) => true,
        },
{
}

// ---------------------------------------------------------------------
// What parsing keeps

/// A parsed item keeps what the trade site reports of it: its id, league,
/// flags, size, level, name, base type, frame and position, its note (empty
/// where it has none), and whether other items sit in its sockets; its
/// kind is the one its frame, base type and icon give.
pub proof fn law_item_keeps_its_fields(item: crate::input::Item, s_id: Seq<char>, price: Option<PriceView>)
    ensures
        match item_view_of(item, s_id, price) {
            Ok(v) => {
                &&& item_type_of(item.frame_type, item.base_item@, item.icon@) == Ok::<ItemType, Seq<char>>(v.item_type)
                &&& v.contained_in == s_id
                &&& v.item_id == item.item_id@
                &&& v.league == item.league@
                &&& v.verified == item.verified
                &&& v.identified == item.identified
                &&& v.corrupted == item.corrupted
                &&& v.locked_to_char == item.locked_to_char
                &&& v.width == item.width
                &&& v.height == item.height
                &&& v.item_level == item.item_level
                &&& v.support == item.support
                &&& v.name == item.name@
                &&& v.base_item == item.base_item@
                &&& v.frame_type == item.frame_type
                &&& item.x == Some(v.x)
                &&& item.y == Some(v.y)
                &&& v.socketed_items == (item.socketed_items.len() > 0)
                &&& (item.note matches Some(n) ==> v.note == n@)
                &&& (item.note is None ==> v.note == Seq::<char>::empty())
                &&& v.sockets == sockets_text(item.sockets@)
                &&& v.socket_nr == socket_number(item.sockets.len() as int)
            },
            Err(_) => true,
        },
{
}

/// An item without a horizontal position is refused, and so is one without
/// a vertical position, once its kind is known.
pub proof fn law_item_needs_a_position(item: crate::input::Item, s_id: Seq<char>, price: Option<PriceView>)
    ensures
        item_type_of(item.frame_type, item.base_item@, item.icon@) is Ok && item.x is None
            ==> item_view_of(item, s_id, price) == Err::<ItemView, Seq<char>>(crate::item::NO_COORDS@),
        item_type_of(item.frame_type, item.base_item@, item.icon@) is Ok && item.x is Some && item.y is None
            ==> item_view_of(item, s_id, price) == Err::<ItemView, Seq<char>>(crate::item::NO_Y_COORD@),
{
}

/// A parsed stash tab keeps the id, owner, last character, type, name and
/// whether it is public of the tab it was parsed from; a missing owner or
/// name becomes empty.
pub proof fn law_stash_keeps_its_fields(stash: Stash)
    ensures
        match stash_view_of(stash) {
            Ok(v) => {
                &&& v.is_public == stash.is_public
                &&& v.stash_id == stash.stash_id@
                &&& v.last_char_name == stash.last_char_name@
                &&& v.stash_type == stash.stash_type@
                &&& (stash.acc_name matches Some(a) ==> v.acc_name == a@)
                &&& (stash.acc_name is None ==> v.acc_name == Seq::<char>::empty())
                &&& (stash.stash_name matches Some(n) ==> v.stash_name == n@)
                &&& (stash.stash_name is None ==> v.stash_name == Seq::<char>::empty())
            },
            Err(_) => true,
        },
{
}

// ---------------------------------------------------------------------
// Modifier lines

/// The patterns for a modifier line are tried in order and the first that
/// matches decides: a line that the leading-number pattern (an optional
/// `+`, then digits) matches is read from that match, whether or not it
/// starts with `+`; only a line it does not match is read with the pattern
/// that finds a number anywhere.
pub proof fn law_leading_number_decides(m: Seq<char>)
    ensures
        regex_first_match(LEADING_NUMBER_PATTERN@, m) matches Some(caps) ==> crate::mods::mod_line(m)
            == line_from_match(caps),
        regex_first_match(LEADING_NUMBER_PATTERN@, m) is None ==> (regex_first_match(
            ANY_NUMBER_PATTERN@,
            m,
        ) matches Some(caps) ==> crate::mods::mod_line(m) == line_from_match(caps)),
{
}

/// The numbers of a modifier read from a match are the values of its first
/// and second groups, absent where the group took no part in the match.
pub proof fn law_values_come_from_groups(name: Seq<char>, g1: Option<Seq<char>>, g2: Option<Seq<char>>)
    ensures
        match mod_view_from(name, g1, g2) {
            Ok(v) => {
                &&& v.name == name
                &&& (g1 matches Some(t) ==> decimal_i16(t) == v.val1 && v.val1 is Some)
                &&& (g1 is None ==> v.val1 is None)
                &&& (g2 matches Some(t) ==> decimal_i16(t) == v.val2 && v.val2 is Some)
                &&& (g2 is None ==> v.val2 is None)
            },
            Err(_) => {
                ||| (g1 matches Some(t) && decimal_i16(t) is None)
                ||| (g2 matches Some(t) && decimal_i16(t) is None)
            },
        },
{
}

// ---------------------------------------------------------------------
// Kinds of items

/// An armour icon is of the first armour kind whose name it contains, in
/// the order body armour, helmet, shield, gloves, boots, quiver; one that
/// contains none of them is refused.
pub proof fn law_armour_kinds(s: Seq<char>)
    ensures
        occurs_in(BODY_PATTERN@, s) ==> armour_type(s) == Ok::<ItemType, Seq<char>>(ItemType::Body),
        !occurs_in(BODY_PATTERN@, s) && occurs_in(HELM_PATTERN@, s) ==> armour_type(s) == Ok::<
            ItemType,
            Seq<char>,
        >(ItemType::Helm),
        !occurs_in(BODY_PATTERN@, s) && !occurs_in(HELM_PATTERN@, s) && occurs_in(SHIELD_PATTERN@, s)
            ==> armour_type(s) == Ok::<ItemType, Seq<char>>(ItemType::Shield),
        !occurs_in(BODY_PATTERN@, s) && !occurs_in(HELM_PATTERN@, s) && !occurs_in(SHIELD_PATTERN@, s)
            && occurs_in(GLOVES_PATTERN@, s) ==> armour_type(s) == Ok::<ItemType, Seq<char>>(
            ItemType::Gloves,
        ),
        !occurs_in(BODY_PATTERN@, s) && !occurs_in(HELM_PATTERN@, s) && !occurs_in(SHIELD_PATTERN@, s)
            && !occurs_in(GLOVES_PATTERN@, s) && occurs_in(BOOTS_PATTERN@, s) ==> armour_type(s)
            == Ok::<ItemType, Seq<char>>(ItemType::Boots),
        !occurs_in(BODY_PATTERN@, s) && !occurs_in(HELM_PATTERN@, s) && !occurs_in(SHIELD_PATTERN@, s)
            && !occurs_in(GLOVES_PATTERN@, s) && !occurs_in(BOOTS_PATTERN@, s) && occurs_in(
            QUIVER_PATTERN@,
            s,
        ) ==> armour_type(s) == Ok::<ItemType, Seq<char>>(ItemType::Quiver),
        !occurs_in(BODY_PATTERN@, s) && !occurs_in(HELM_PATTERN@, s) && !occurs_in(SHIELD_PATTERN@, s)
            && !occurs_in(GLOVES_PATTERN@, s) && !occurs_in(BOOTS_PATTERN@, s) && !occurs_in(
            QUIVER_PATTERN@,
            s,
        ) ==> armour_type(s) == Err::<ItemType, Seq<char>>(ARMOUR_UNKNOWN@),
{
}

/// Whether the name of some one-handed weapon kind occurs in an icon path.
pub open spec fn names_one_hand_kind(s: Seq<char>) -> bool {
    occurs_in(AXE_PATTERN@, s) || occurs_in(MACE_PATTERN@, s) || occurs_in(SWORD_PATTERN@, s)
        || occurs_in(CLAW_PATTERN@, s) || occurs_in(DAGGER_PATTERN@, s) || occurs_in(WAND_PATTERN@, s)
        || occurs_in(SCEPTER_PATTERN@, s) || occurs_in(RAPIER_PATTERN@, s)
}

/// Whether the name of some two-handed weapon kind occurs in an icon path.
pub open spec fn names_two_hand_kind(s: Seq<char>) -> bool {
    occurs_in(MACE_PATTERN@, s) || occurs_in(AXE_PATTERN@, s) || occurs_in(SWORD_PATTERN@, s)
        || occurs_in(STAFF_PATTERN@, s) || occurs_in(BOW_PATTERN@, s)
}

/// A one-handed weapon icon is of the first one-handed kind whose name it
/// contains, in the order axe, mace, sword, claw, dagger, wand, sceptre,
/// rapier.
pub proof fn law_one_hand_weapon_kinds(s: Seq<char>)
    requires
        occurs_in(ONE_HAND_PATTERN@, s),
    ensures
        occurs_in(AXE_PATTERN@, s) ==> weapon_type(s) == Ok::<ItemType, Seq<char>>(ItemType::Axe1H),
        !occurs_in(AXE_PATTERN@, s) && occurs_in(MACE_PATTERN@, s) ==> weapon_type(s) == Ok::<
            ItemType,
            Seq<char>,
        >(ItemType::Mace1H),
        !occurs_in(AXE_PATTERN@, s) && !occurs_in(MACE_PATTERN@, s) && occurs_in(SWORD_PATTERN@, s)
            ==> weapon_type(s) == Ok::<ItemType, Seq<char>>(ItemType::Sword1H),
        !occurs_in(AXE_PATTERN@, s) && !occurs_in(MACE_PATTERN@, s) && !occurs_in(SWORD_PATTERN@, s)
            && occurs_in(CLAW_PATTERN@, s) ==> weapon_type(s) == Ok::<ItemType, Seq<char>>(
            ItemType::Claw,
        ),
        !occurs_in(AXE_PATTERN@, s) && !occurs_in(MACE_PATTERN@, s) && !occurs_in(SWORD_PATTERN@, s)
            && !occurs_in(CLAW_PATTERN@, s) && occurs_in(DAGGER_PATTERN@, s) ==> weapon_type(s)
            == Ok::<ItemType, Seq<char>>(ItemType::Dagger),
        !occurs_in(AXE_PATTERN@, s) && !occurs_in(MACE_PATTERN@, s) && !occurs_in(SWORD_PATTERN@, s)
            && !occurs_in(CLAW_PATTERN@, s) && !occurs_in(DAGGER_PATTERN@, s) && occurs_in(
            WAND_PATTERN@,
            s,
        ) ==> weapon_type(s) == Ok::<ItemType, Seq<char>>(ItemType::Wand),
        !occurs_in(AXE_PATTERN@, s) && !occurs_in(MACE_PATTERN@, s) && !occurs_in(SWORD_PATTERN@, s)
            && !occurs_in(CLAW_PATTERN@, s) && !occurs_in(DAGGER_PATTERN@, s) && !occurs_in(
            WAND_PATTERN@,
            s,
        ) && occurs_in(SCEPTER_PATTERN@, s) ==> weapon_type(s) == Ok::<ItemType, Seq<char>>(
            ItemType::Sceptre,
        ),
        !occurs_in(AXE_PATTERN@, s) && !occurs_in(MACE_PATTERN@, s) && !occurs_in(SWORD_PATTERN@, s)
            && !occurs_in(CLAW_PATTERN@, s) && !occurs_in(DAGGER_PATTERN@, s) && !occurs_in(
            WAND_PATTERN@,
            s,
        ) && !occurs_in(SCEPTER_PATTERN@, s) && occurs_in(RAPIER_PATTERN@, s) ==> weapon_type(s)
            == Ok::<ItemType, Seq<char>>(ItemType::Rapier),
{
}

/// A weapon icon that is not of a one-handed kind is of the first
/// two-handed kind whose name it contains where it is a two-handed weapon,
/// in the order mace, axe, sword, staff, bow; otherwise it is refused.
pub proof fn law_two_hand_weapon_kinds(s: Seq<char>)
    requires
        !(occurs_in(ONE_HAND_PATTERN@, s) && names_one_hand_kind(s)),
    ensures
        occurs_in(TWO_HAND_PATTERN@, s) && occurs_in(MACE_PATTERN@, s) ==> weapon_type(s) == Ok::<
            ItemType,
            Seq<char>,
        >(ItemType::Mace2H),
        occurs_in(TWO_HAND_PATTERN@, s) && !occurs_in(MACE_PATTERN@, s) && occurs_in(AXE_PATTERN@, s)
            ==> weapon_type(s) == Ok::<ItemType, Seq<char>>(ItemType::Axe2H),
        occurs_in(TWO_HAND_PATTERN@, s) && !occurs_in(MACE_PATTERN@, s) && !occurs_in(AXE_PATTERN@, s)
            && occurs_in(SWORD_PATTERN@, s) ==> weapon_type(s) == Ok::<ItemType, Seq<char>>(
            ItemType::Sword2H,
        ),
        occurs_in(TWO_HAND_PATTERN@, s) && !occurs_in(MACE_PATTERN@, s) && !occurs_in(AXE_PATTERN@, s)
            && !occurs_in(SWORD_PATTERN@, s) && occurs_in(STAFF_PATTERN@, s) ==> weapon_type(s)
            == Ok::<ItemType, Seq<char>>(ItemType::Staff),
        occurs_in(TWO_HAND_PATTERN@, s) && !occurs_in(MACE_PATTERN@, s) && !occurs_in(AXE_PATTERN@, s)
            && !occurs_in(SWORD_PATTERN@, s) && !occurs_in(STAFF_PATTERN@, s) && occurs_in(
            BOW_PATTERN@,
            s,
        ) ==> weapon_type(s) == Ok::<ItemType, Seq<char>>(ItemType::Bow),
        !(occurs_in(TWO_HAND_PATTERN@, s) && names_two_hand_kind(s)) ==> weapon_type(s) == Err::<
            ItemType,
            Seq<char>,
        >(WEAPON_UNKNOWN@),
{
}

/// A jewelry base type naming a ring is a ring; otherwise the amulet
/// pattern, then the belt pattern decide; none of them refuses it.
pub proof fn law_jewelry_kinds(s: Seq<char>)
    ensures
        occurs_in(RING_PATTERN@, s) ==> jewelry_type(s) == Ok::<ItemType, Seq<char>>(ItemType::Ring),
        !occurs_in(RING_PATTERN@, s) && has_match(AMULET_PATTERN@, s) ==> jewelry_type(s) == Ok::<
            ItemType,
            Seq<char>,
        >(ItemType::Amulet),
        !occurs_in(RING_PATTERN@, s) && !has_match(AMULET_PATTERN@, s) && has_match(BELT_PATTERN@, s)
            ==> jewelry_type(s) == Ok::<ItemType, Seq<char>>(ItemType::Belt),
        !occurs_in(RING_PATTERN@, s) && !has_match(AMULET_PATTERN@, s) && !has_match(BELT_PATTERN@, s)
            ==> jewelry_type(s) == Err::<ItemType, Seq<char>>(JEWELRY_UNKNOWN@),
{
}

/// Apart from gems, currency, divination cards and prophecies, a base type
/// naming a jewel is a jewel, and one naming a flask (and no jewel) a flask,
/// whatever the icon.
pub proof fn law_base_type_kinds(frame_type: i16, base_item: Seq<char>, icon: Seq<char>)
    requires
        frame_type != 4 && frame_type != 5 && frame_type != 6 && frame_type != 8,
    ensures
        occurs_in(JEWEL_PATTERN@, base_item) ==> item_type_of(frame_type, base_item, icon) == Ok::<
            ItemType,
            Seq<char>,
        >(ItemType::Jewel),
        !occurs_in(JEWEL_PATTERN@, base_item) && occurs_in(FLASK_PATTERN@, base_item) ==> item_type_of(
            frame_type,
            base_item,
            icon,
        ) == Ok::<ItemType, Seq<char>>(ItemType::Flask),
{
}

// ---------------------------------------------------------------------
// Link groups of sockets

/// Sockets `i` to `j` all belong to the group of socket `i`.
pub open spec fn one_group(s: Seq<Socket>, i: int, j: int) -> bool {
    forall|k: int| i <= k <= j ==> #[trigger] s[k].group == s[i].group
}

proof fn lemma_link_run_covers(s: Seq<Socket>, i: int, j: int)
    requires
        0 <= i <= j < s.len(),
        one_group(s, i, j),
    ensures
        link_run(s, j) >= j - i + 1,
    decreases j - i,
{
    if j > i {
        assert(s[j].group == s[i].group && s[j - 1].group == s[i].group);
        assert(one_group(s, i, j - 1));
        lemma_link_run_covers(s, i, j - 1);
    } else {
        lemma_run_positive(s, j);
    }
}

proof fn lemma_run_positive(s: Seq<Socket>, k: int)
    ensures
        link_run(s, k) >= 1,
    decreases k,
{
    if k > 0 {
        lemma_run_positive(s, k - 1);
    }
}

proof fn lemma_run_is_one_group(s: Seq<Socket>, k: int)
    requires
        0 <= k < s.len(),
    ensures
        k - link_run(s, k) + 1 >= 0,
        one_group(s, k - link_run(s, k) + 1, k),
    decreases k,
{
    lemma_run_positive(s, k);
    if k > 0 && s[k].group == s[k - 1].group {
        lemma_run_is_one_group(s, k - 1);
        let start = k - link_run(s, k) + 1;
        assert(start == (k - 1) - link_run(s, k - 1) + 1);
        assert forall|m: int| start <= m <= k implies #[trigger] s[m].group == s[start].group by {
            if m < k {
                assert(s[m].group == s[start].group);
            } else {
                assert(s[k - 1].group == s[start].group);
            }
        }
    }
}

proof fn lemma_max_link_at_least(s: Seq<Socket>, n: int, k: int)
    requires
        0 <= k < n,
    ensures
        max_link(s, n) >= link_run(s, k),
    decreases n,
{
    if k < n - 1 {
        lemma_max_link_at_least(s, n - 1, k);
    }
}

proof fn lemma_max_link_attained(s: Seq<Socket>, n: int)
    requires
        n > 0,
    ensures
        exists|k: int| 0 <= k < n && max_link(s, n) == #[trigger] link_run(s, k),
    decreases n,
{
    if link_run(s, n - 1) > max_link(s, n - 1) {
        assert(max_link(s, n) == link_run(s, n - 1));
    } else if n > 1 {
        lemma_max_link_attained(s, n - 1);
        let k = choose|k: int| 0 <= k < n - 1 && max_link(s, n - 1) == #[trigger] link_run(s, k);
        assert(max_link(s, n) == link_run(s, k));
    } else {
        lemma_run_positive(s, 0);
        assert(max_link(s, 0) == 0);
    }
}

/// The size of the largest link group is at least the length of every run
/// of consecutive sockets that share a group, wherever it stands, and is the
/// length of one such run for an item with sockets.
pub proof fn law_largest_link_group(s: Seq<Socket>)
    ensures
        forall|i: int, j: int|
            0 <= i <= j < s.len() && #[trigger] one_group(s, i, j) ==> max_link(s, s.len() as int) >= j - i + 1,
        s.len() > 0 ==> exists|i: int, j: int|
            0 <= i <= j < s.len() && #[trigger] one_group(s, i, j) && max_link(s, s.len() as int) == j - i + 1,
{
    assert forall|i: int, j: int|
        0 <= i <= j < s.len() && #[trigger] one_group(s, i, j) implies max_link(s, s.len() as int) >= j - i + 1 by {
        lemma_link_run_covers(s, i, j);
        lemma_max_link_at_least(s, s.len() as int, j);
    }
    if s.len() > 0 {
        lemma_max_link_attained(s, s.len() as int);
        let k = choose|k: int| 0 <= k < s.len() && max_link(s, s.len() as int) == #[trigger] link_run(s, k);
        lemma_run_is_one_group(s, k);
        lemma_run_positive(s, k);
        let i = k - link_run(s, k) + 1;
        assert(0 <= i <= k < s.len());
        assert(one_group(s, i, k) && max_link(s, s.len() as int) == k - i + 1);
    }
}

} // verus!
