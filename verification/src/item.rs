//! An item as it is stored: what the trade site reports, its price, and
//! totals worked out from its properties and modifiers.
use vstd::prelude::*;
use crate::input::Item;
use crate::item_type::{get_item_type, item_type_of};
use crate::mods::{mod_lines, parse_mods};
use crate::pattern::{has_match, is_match};
use crate::price::{parse_price, price_of};
use crate::props::{parse_props, properties_view};
use crate::records::{result_view, ItemView, ModView, Price, PriceView, PropertyView, RustItem, RustMod, RustProperty};
use crate::requirements::{parse_requirements, requirements_view};
use crate::sockets::{max_link, parse_socket, socket_number, sockets_text};
use crate::text::{same_text, truncate_to_i16, truncated_i16};

verus! {

pub const SINGLE_RESISTANCE_PATTERN: &'static str = "to\\s(Fire)|(Cold)|(Lightning)\\sResistance$";
pub const DOUBLE_RESISTANCE_PATTERN: &'static str =
    "to\\s(Fire)|(Cold)|(Lightning)\\sand\\s(Fire)|(Cold)|(Lightning)\\sResistances$";
pub const ALL_RESISTANCES_PATTERN: &'static str = "to\\sall\\sElemental\\sResistances$";
pub const CHAOS_RESISTANCE_PATTERN: &'static str = "to\\sChaos\\sResistance$";
pub const MAXIMUM_LIFE_PATTERN: &'static str = "to\\smaximum\\sLife";
pub const STRENGTH_PATTERN: &'static str = "to\\sStrength$|(\\sand)";

pub const ARMOUR_LABEL: &'static str = "Armour";
pub const ENERGY_SHIELD_LABEL: &'static str = "Energy Shield";
pub const EVASION_LABEL: &'static str = "Evasion";

pub const NO_COORDS: &'static str = "could not parse: no Coords";
pub const NO_Y_COORD: &'static str = "could not parse: no y coordinate";
pub const TOO_MANY_SOCKETS: &'static str = "could not parse: too many sockets";
pub const PSEUDO_MOD_WITHOUT_VALUE: &'static str = "a resistance or life mod has no value";
pub const TOTAL_OUT_OF_RANGE: &'static str = "a resistance or life total is out of the range of i16";

/// The most sockets an item can have for its socket count to fit in an `i16`.
pub const MAX_SOCKETS: usize = 32766;

/// What a modifier adds to the resistance and life totals of an item.
#[derive(Debug, Clone, Copy, PartialEq, Eq, Structural)]
pub enum PseudoKind {
    /// One elemental resistance: counts once towards both totals.
    SingleResistance,
    /// Two elemental resistances: counts twice towards both totals.
    DoubleResistance,
    /// All elemental resistances: counts three times towards both totals.
    AllResistances,
    /// Chaos resistance: counts towards the resistance total only.
    ChaosResistance,
    /// Maximum life.
    MaximumLife,
    /// Strength: half of it, rounded toward zero, counts as life.
    Strength,
    /// Anything else.
    Other,
}

/// The resistance, elemental resistance and life totals of an item.
#[derive(Debug, Clone, Copy, PartialEq, Eq, Structural)]
pub struct Totals {
    pub resistance: i16,
    pub ele_resistance: i16,
    pub max_life: i16,
}

pub open spec fn pseudo_kind(name: Seq<char>) -> PseudoKind {
    if has_match(SINGLE_RESISTANCE_PATTERN@, name) {
        PseudoKind::SingleResistance
    } else if has_match(DOUBLE_RESISTANCE_PATTERN@, name) {
        PseudoKind::DoubleResistance
    } else if has_match(ALL_RESISTANCES_PATTERN@, name) {
        PseudoKind::AllResistances
    } else if has_match(CHAOS_RESISTANCE_PATTERN@, name) {
        PseudoKind::ChaosResistance
    } else if has_match(MAXIMUM_LIFE_PATTERN@, name) {
        PseudoKind::MaximumLife
    } else if has_match(STRENGTH_PATTERN@, name) {
        PseudoKind::Strength
    } else {
        PseudoKind::Other
    }
}

pub open spec fn in_i16(v: int) -> bool {
    i16::MIN <= v <= i16::MAX
}

/// Half of `v`, rounded toward zero, as integer division in Rust does.
pub open spec fn half_toward_zero(v: int) -> int {
    if v >= 0 {
        v / 2
    } else {
        -((-v) / 2)
    }
}

/// Both resistance totals raised by `k`.
pub open spec fn add_resistance(t: Totals, k: int) -> Result<Totals, Seq<char>> {
    if in_i16(k) && in_i16(t.ele_resistance + k) && in_i16(t.resistance + k) {
        Ok(
            Totals {
                resistance: (t.resistance + k) as i16,
                ele_resistance: (t.ele_resistance + k) as i16,
                max_life: t.max_life,
            },
        )
    } else {
        Err(TOTAL_OUT_OF_RANGE@)
    }
}

/// The totals after one more modifier.
pub open spec fn add_mod(t: Totals, m: ModView) -> Result<Totals, Seq<char>> {
    let kind = pseudo_kind(m.name);
    if kind == PseudoKind::Other {
        Ok(t)
    } else {
        match m.val1 {
            None => Err(PSEUDO_MOD_WITHOUT_VALUE@),
            Some(v) => match kind {
                PseudoKind::SingleResistance => add_resistance(t, v as int),
                PseudoKind::DoubleResistance => add_resistance(t, 2 * v),
                PseudoKind::AllResistances => add_resistance(t, 3 * v),
                PseudoKind::ChaosResistance => if in_i16(t.resistance + v) {
                    Ok(Totals { resistance: (t.resistance + v) as i16, ..t })
                } else {
                    Err(TOTAL_OUT_OF_RANGE@)
                },
                PseudoKind::MaximumLife => if in_i16(t.max_life + v) {
                    Ok(Totals { max_life: (t.max_life + v) as i16, ..t })
                } else {
                    Err(TOTAL_OUT_OF_RANGE@)
                },
                _ => if in_i16(t.max_life + half_toward_zero(v as int)) {
                    Ok(Totals { max_life: (t.max_life + half_toward_zero(v as int)) as i16, ..t })
                } else {
                    Err(TOTAL_OUT_OF_RANGE@)
                },
            },
        }
    }
}

/// The totals after the modifiers from index `i` on, starting from `t`.
pub open spec fn totals_from(mods: Seq<ModView>, i: int, t: Totals) -> Result<Totals, Seq<char>>
    decreases mods.len() - i,
{
    if i < 0 || i >= mods.len() {
        Ok(t)
    } else {
        match add_mod(t, mods[i]) {
            Err(e) => Err(e),
            Ok(next) => totals_from(mods, i + 1, next),
        }
    }
}

pub open spec fn zero_totals() -> Totals {
    Totals { resistance: 0, ele_resistance: 0, max_life: 0 }
}

/// The totals over the explicit, then the implicit, then the crafted modifiers.
pub open spec fn pseudo_totals(explicit: Seq<ModView>, implicit: Seq<ModView>, crafted: Seq<ModView>) -> Result<
    Totals,
    Seq<char>,
> {
    match totals_from(explicit, 0, zero_totals()) {
        Err(e) => Err(e),
        Ok(t1) => match totals_from(implicit, 0, t1) {
            Err(e) => Err(e),
            Ok(t2) => totals_from(crafted, 0, t2),
        },
    }
}

/// The first number of the last property with the given name that has
/// numbers, from index `i` on, without its fraction; `cur` where none has.
pub open spec fn base_from(props: Seq<PropertyView>, label: Seq<char>, i: int, cur: i16) -> i16
    decreases props.len() - i,
{
    if i < 0 || i >= props.len() {
        cur
    } else {
        let next = if props[i].name == label && props[i].values is Some && props[i].values->0.len()
            > 0 {
            truncated_i16(props[i].values->0[0].val1)
        } else {
            cur
        };
        base_from(props, label, i + 1, next)
    }
}

/// The base value that a property gives an item, 0 where none does.
pub open spec fn base_value(props: Seq<PropertyView>, label: Seq<char>) -> i16 {
    base_from(props, label, 0, 0)
}

/// The price of an item: that of its stash tab, else the one in its note.
pub open spec fn item_price(s_price: Option<PriceView>, note: Option<String>) -> Option<PriceView> {
    match s_price {
        Some(p) => Some(p),
        None => match note {
            Some(n) => match price_of(n@) {
                Ok(p) => Some(p),
                Err(_) => None,
            },
            None => None,
        },
    }
}

/// An item parsed out of the trade site's record of it, in stash tab `s_id`
/// whose name states the price `s_price`.
pub open spec fn item_view_of(item: Item, s_id: Seq<char>, s_price: Option<PriceView>) -> Result<
    ItemView,
    Seq<char>,
> {
    match item_type_of(item.frame_type, item.base_item@, item.icon@) {
        Err(e) => Err(e),
        Ok(kind) => match item.x {
            None => Err(NO_COORDS@),
            Some(x) => match item.y {
                None => Err(NO_Y_COORD@),
                Some(y) => if item.sockets.len() > MAX_SOCKETS {
                    Err(TOO_MANY_SOCKETS@)
                } else {
                    match requirements_view(item.requirements) {
                        Err(e) => Err(e),
                        Ok(reqs) => match mod_lines(item.implicit_mods.deep_view()) {
                            Err(e) => Err(e),
                            Ok(implicit) => match mod_lines(item.explicit_mods.deep_view()) {
                                Err(e) => Err(e),
                                Ok(explicit) => match mod_lines(item.crafted_mods.deep_view()) {
                                    Err(e) => Err(e),
                                    Ok(crafted) => match properties_view(item.properties) {
                                        Err(e) => Err(e),
                                        Ok(props) => match mod_lines(
                                            item.enchanted_mods.deep_view(),
                                        ) {
                                            Err(e) => Err(e),
                                            Ok(enchanted) => match pseudo_totals(
                                                explicit,
                                                implicit,
                                                crafted,
                                            ) {
                                                Err(e) => Err(e),
                                                Ok(t) => Ok(
                                                    ItemView {
                                                        contained_in: s_id,
                                                        item_id: item.item_id@,
                                                        item_type: kind,
                                                        league: item.league@,
                                                        price: item_price(s_price, item.note),
                                                        note: match item.note {
                                                            Some(n) => n@,
                                                            None => Seq::empty(),
                                                        },
                                                        verified: item.verified,
                                                        identified: item.identified,
                                                        corrupted: item.corrupted,
                                                        locked_to_char: item.locked_to_char,
                                                        width: item.width,
                                                        height: item.height,
                                                        item_level: item.item_level,
                                                        support: item.support,
                                                        sockets: sockets_text(item.sockets@),
                                                        socket_nr: socket_number(
                                                            item.sockets.len() as int,
                                                        ) as i16,
                                                        socket_li: max_link(
                                                            item.sockets@,
                                                            item.sockets.len() as int,
                                                        ) as i16,
                                                        name: item.name@,
                                                        base_item: item.base_item@,
                                                        properties: props,
                                                        requirements: reqs,
                                                        implicit_mods: implicit,
                                                        explicit_mods: explicit,
                                                        crafted_mods: crafted,
                                                        enchanted_mods: enchanted,
                                                        frame_type: item.frame_type,
                                                        x: x,
                                                        y: y,
                                                        socketed_items: item.socketed_items.len()
                                                            > 0,
                                                        armour: base_value(props, ARMOUR_LABEL@),
                                                        energy_s: base_value(
                                                            props,
                                                            ENERGY_SHIELD_LABEL@,
                                                        ),
                                                        evasion: base_value(props, EVASION_LABEL@),
                                                        resistance: t.resistance,
                                                        ele_resistance: t.ele_resistance,
                                                        max_life: t.max_life,
                                                    },
                                                ),
                                            },
                                        },
                                    },
                                },
                            },
                        },
                    }
                },
            },
        },
    }
}

/// What a modifier adds to the resistance and life totals.
pub fn classify_mod(name: &String) -> (k: PseudoKind)
    ensures
        k == pseudo_kind(name@),
{
    let s = name.as_str();
    if is_match(SINGLE_RESISTANCE_PATTERN, s) {
        PseudoKind::SingleResistance
    } else if is_match(DOUBLE_RESISTANCE_PATTERN, s) {
        PseudoKind::DoubleResistance
    } else if is_match(ALL_RESISTANCES_PATTERN, s) {
        PseudoKind::AllResistances
    } else if is_match(CHAOS_RESISTANCE_PATTERN, s) {
        PseudoKind::ChaosResistance
    } else if is_match(MAXIMUM_LIFE_PATTERN, s) {
        PseudoKind::MaximumLife
    } else if is_match(STRENGTH_PATTERN, s) {
        PseudoKind::Strength
    } else {
        PseudoKind::Other
    }
}

fn checked_i16(v: i32) -> (r: Option<i16>)
    ensures
        r == (if in_i16(v as int) { Some(v as i16) } else { None::<i16> }),
{
    if -32768 <= v && v <= 32767 {
        Some(v as i16)
    } else {
        None
    }
}

/// The totals after one more modifier, as `add_mod` states.
pub fn add_pseudo_mod(t: Totals, m: &RustMod) -> (r: Result<Totals, String>)
    ensures
        crate::mods::result_view_value(r) == add_mod(t, m.deep_view()),
{
    let kind = classify_mod(&m.name);
    if kind == PseudoKind::Other {
        return Ok(t);
    }
    let v: i32 = match m.val1 {
        None => return Err(PSEUDO_MOD_WITHOUT_VALUE.to_owned()),
        Some(v) => v as i32,
    };
    let res = t.resistance as i32;
    let ele = t.ele_resistance as i32;
    let life = t.max_life as i32;
    let scale: i32 = match kind {
        PseudoKind::SingleResistance => 1,
        PseudoKind::DoubleResistance => 2,
        PseudoKind::AllResistances => 3,
        _ => 0,
    };
    if scale > 0 {
        let k = scale * v;
        match (checked_i16(k), checked_i16(ele + k), checked_i16(res + k)) {
            (Some(_), Some(e), Some(r)) => Ok(
                Totals { resistance: r, ele_resistance: e, max_life: t.max_life },
            ),
            _ => Err(TOTAL_OUT_OF_RANGE.to_owned()),
        }
    } else if kind == PseudoKind::ChaosResistance {
        match checked_i16(res + v) {
            Some(r) => Ok(Totals { resistance: r, ..t }),
            None => Err(TOTAL_OUT_OF_RANGE.to_owned()),
        }
    } else {
        let gain: i32 = if kind == PseudoKind::MaximumLife {
            v
        } else if v >= 0 {
            v / 2
        } else {
            0 - ((0 - v) / 2)
        };
        match checked_i16(life + gain) {
            Some(l) => Ok(Totals { max_life: l, ..t }),
            None => Err(TOTAL_OUT_OF_RANGE.to_owned()),
        }
    }
}

/// The totals after every modifier of a list, starting from `t`.
pub fn add_pseudo_mods(mods: &Vec<RustMod>, t: Totals) -> (r: Result<Totals, String>)
    ensures
        crate::mods::result_view_value(r) == totals_from(mods.deep_view(), 0, t),
{
    let ghost all = mods.deep_view();
    let mut cur = t;
    let mut i: usize = 0;
    while i < mods.len()
        invariant
            i <= mods.len(),
            all == mods.deep_view(),
            totals_from(all, 0, t) == totals_from(all, i as int, cur),
        decreases mods.len() - i,
    {
        let m = &mods[i];
        assert(all[i as int] == m.deep_view());
        let next = add_pseudo_mod(cur, m);
        match next {
            Ok(n) => cur = n,
            Err(e) => return Err(e),
        }
        i = i + 1;
    }
    Ok(cur)
}

/// The armour, energy shield and evasion that the properties give.
pub fn base_values(props: &Vec<RustProperty>) -> (r: (i16, i16, i16))
    ensures
        r.0 == base_value(props.deep_view(), ARMOUR_LABEL@),
        r.1 == base_value(props.deep_view(), ENERGY_SHIELD_LABEL@),
        r.2 == base_value(props.deep_view(), EVASION_LABEL@),
{
    let ghost all = props.deep_view();
    let mut arm: i16 = 0;
    let mut energy_s: i16 = 0;
    let mut evasion: i16 = 0;
    let mut i: usize = 0;
    while i < props.len()
        invariant
            i <= props.len(),
            all == props.deep_view(),
            base_value(all, ARMOUR_LABEL@) == base_from(all, ARMOUR_LABEL@, i as int, arm),
            base_value(all, ENERGY_SHIELD_LABEL@) == base_from(
                all,
                ENERGY_SHIELD_LABEL@,
                i as int,
                energy_s,
            ),
            base_value(all, EVASION_LABEL@) == base_from(all, EVASION_LABEL@, i as int, evasion),
        decreases props.len() - i,
    {
        let p = &props[i];
        assert(all[i as int] == p.deep_view());
        proof {
            reveal_strlit("Armour");
            reveal_strlit("Energy Shield");
            reveal_strlit("Evasion");
            assert(ARMOUR_LABEL@.len() != ENERGY_SHIELD_LABEL@.len());
            assert(ARMOUR_LABEL@.len() != EVASION_LABEL@.len());
            assert(EVASION_LABEL@.len() != ENERGY_SHIELD_LABEL@.len());
        }
        let first: Option<i16> = match &p.values {
            Some(v) => if v.len() > 0 {
                assert(v.deep_view()[0] == v[0].deep_view());
                Some(truncate_to_i16(v[0].val1.as_str()))
            } else {
                None
            },
            None => None,
        };
        if let Some(value) = first {
            if same_text(p.name.as_str(), ARMOUR_LABEL) {
                arm = value;
            } else if same_text(p.name.as_str(), ENERGY_SHIELD_LABEL) {
                energy_s = value;
            } else if same_text(p.name.as_str(), EVASION_LABEL) {
                evasion = value;
            }
        }
        i = i + 1;
    }
    (arm, energy_s, evasion)
}

/// The price of an item, as `item_price` states.
pub fn choose_price(s_price: &Option<Price>, note: &Option<String>) -> (p: Option<Price>)
    ensures
        p.deep_view() == item_price(s_price.deep_view(), *note),
{
    match s_price {
        Some(p) => Some(p.duplicate()),
        None => match note {
            Some(n) => match parse_price(n) {
                Ok(p) => Some(p),
                Err(_) => None,
            },
            None => None,
        },
    }
}

/// Parses an item of stash tab `s_id` whose name states the price `s_price`.
pub fn parse_item(item: Item, s_id: &String, s_price: &Option<Price>) -> (r: Result<RustItem, String>)
    ensures
        result_view(r) == item_view_of(item, s_id@, s_price.deep_view()),
{
    let item_type = match get_item_type(&item) {
        Ok(t) => t,
        Err(e) => return Err(e),
    };
    let rx: i16 = match item.x {
        Some(x) => x,
        None => return Err(NO_COORDS.to_owned()),
    };
    let ry: i16 = match item.y {
        Some(y) => y,
        None => return Err(NO_Y_COORD.to_owned()),
    };
    if item.sockets.len() > MAX_SOCKETS {
        return Err(TOO_MANY_SOCKETS.to_owned());
    }
    let price = choose_price(s_price, &item.note);
    let ghost note_given = item.note;
    let note: String = match item.note {
        Some(s) => s,
        None => String::new(),
    };
    let ghost sockets_given = item.sockets@;
    let (sockets, socket_nr, socket_li) = parse_socket(item.sockets);
    let socketed_items = item.socketed_items.len() > 0;
    let requirements = match parse_requirements(item.requirements) {
        Ok(r) => r,
        Err(e) => return Err(e),
    };
    let implicit_mods = match parse_mods(item.implicit_mods) {
        Ok(m) => m,
        Err(e) => return Err(e),
    };
    let explicit_mods = match parse_mods(item.explicit_mods) {
        Ok(m) => m,
        Err(e) => return Err(e),
    };
    let crafted_mods = match parse_mods(item.crafted_mods) {
        Ok(m) => m,
        Err(e) => return Err(e),
    };
    let properties = match parse_props(item.properties) {
        Ok(p) => p,
        Err(e) => return Err(e),
    };
    let enchanted_mods = match parse_mods(item.enchanted_mods) {
        Ok(m) => m,
        Err(e) => return Err(e),
    };
    let (armour, energy_s, evasion) = base_values(&properties);
    let zero = Totals { resistance: 0, ele_resistance: 0, max_life: 0 };
    let t1 = match add_pseudo_mods(&explicit_mods, zero) {
        Ok(t) => t,
        Err(e) => return Err(e),
    };
    let t2 = match add_pseudo_mods(&implicit_mods, t1) {
        Ok(t) => t,
        Err(e) => return Err(e),
    };
    let totals = match add_pseudo_mods(&crafted_mods, t2) {
        Ok(t) => t,
        Err(e) => return Err(e),
    };
    Ok(
        RustItem {
            armour,
            energy_s,
            evasion,
            resistance: totals.resistance,
            ele_resistance: totals.ele_resistance,
            max_life: totals.max_life,
            price,
            item_type,
            contained_in: s_id.clone(),
            item_id: item.item_id,
            league: item.league,
            note,
            verified: item.verified,
            identified: item.identified,
            corrupted: item.corrupted,
            locked_to_char: item.locked_to_char,
            width: item.width,
            height: item.height,
            item_level: item.item_level,
            support: item.support,
            sockets,
            socket_nr,
            socket_li,
            name: item.name,
            base_item: item.base_item,
            properties,
            requirements,
            implicit_mods,
            explicit_mods,
            crafted_mods,
            enchanted_mods,
            frame_type: item.frame_type,
            x: rx,
            y: ry,
            socketed_items,
        },
    )
}

} // verus!
