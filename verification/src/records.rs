//! The records that parsing produces, and their mathematical views.
use vstd::prelude::*;

verus! {

/// The kind of an item, as the database tables are split.
#[derive(Debug, Clone, Copy, PartialEq, Eq, Structural)]
pub enum ItemType {
    Unknown,
    DivinationCard,
    Currency,
    ProphecyCard,
    Gem,
    Jewel,
    Flask,
    AtlasMap,
    MapPiece,
    Axe1H,
    Axe2H,
    Mace1H,
    Mace2H,
    Sceptre,
    Bow,
    Dagger,
    Claw,
    Staff,
    Sword1H,
    Sword2H,
    Rapier,
    Wand,
    Amulet,
    Belt,
    Ring,
    Helm,
    Body,
    Boots,
    Gloves,
    Shield,
    Quiver,
}

impl DeepView for ItemType {
    type V = ItemType;

    open spec fn deep_view(&self) -> ItemType {
        *self
    }
}

/// A modifier line: its text with every number replaced by `##`, and the
/// first two numbers found in it.
#[derive(Debug, PartialEq)]
pub struct RustMod {
    pub name: String,
    pub val1: Option<i16>,
    pub val2: Option<i16>,
}

pub struct ModView {
    pub name: Seq<char>,
    pub val1: Option<i16>,
    pub val2: Option<i16>,
}

impl DeepView for RustMod {
    type V = ModView;

    open spec fn deep_view(&self) -> ModView {
        ModView { name: self.name@, val1: self.val1, val2: self.val2 }
    }
}

/// A requirement of an item, such as a level or an attribute.
#[derive(Debug, PartialEq)]
pub struct RustReq {
    pub name: String,
    pub val: i16,
}

pub struct ReqView {
    pub name: Seq<char>,
    pub val: i16,
}

impl DeepView for RustReq {
    type V = ReqView;

    open spec fn deep_view(&self) -> ReqView {
        ReqView { name: self.name@, val: self.val }
    }
}

/// A price written as `~<prefix> <value> <suffix>`, such as `~b/o 5 chaos`.
/// The value is kept as the decimal text it was written as.
#[derive(Debug, PartialEq)]
pub struct Price {
    pub prefix: String,
    pub value: String,
    pub suffix: String,
}

pub struct PriceView {
    pub prefix: Seq<char>,
    pub value: Seq<char>,
    pub suffix: Seq<char>,
}

impl DeepView for Price {
    type V = PriceView;

    open spec fn deep_view(&self) -> PriceView {
        PriceView { prefix: self.prefix@, value: self.value@, suffix: self.suffix@ }
    }
}

impl Price {
    pub fn duplicate(&self) -> (p: Price)
        ensures
            p.deep_view() == self.deep_view(),
    {
        Price { prefix: self.prefix.clone(), value: self.value.clone(), suffix: self.suffix.clone() }
    }
}

/// The numbers of one property value, as the decimal texts they were written as.
#[derive(Debug, PartialEq)]
pub struct PropValues {
    pub val1: String,
    pub val2: String,
}

pub struct PropValuesView {
    pub val1: Seq<char>,
    pub val2: Seq<char>,
}

impl DeepView for PropValues {
    type V = PropValuesView;

    open spec fn deep_view(&self) -> PropValuesView {
        PropValuesView { val1: self.val1@, val2: self.val2@ }
    }
}

/// A property of an item, such as its armour, with the numbers found in it.
#[derive(Debug, PartialEq)]
pub struct RustProperty {
    pub name: String,
    pub values: Option<Vec<PropValues>>,
}

pub struct PropertyView {
    pub name: Seq<char>,
    pub values: Option<Seq<PropValuesView>>,
}

impl DeepView for RustProperty {
    type V = PropertyView;

    open spec fn deep_view(&self) -> PropertyView {
        PropertyView { name: self.name@, values: self.values.deep_view() }
    }
}

/// An item as it is stored: what the trade site reports, the price that
/// applies to it, and totals worked out from its properties and modifiers.
#[derive(Debug)]
pub struct RustItem {
    pub contained_in: String,
    pub item_id: String,
    pub item_type: ItemType,
    pub league: String,
    pub price: Option<Price>,
    pub note: String,
    pub verified: bool,
    pub identified: bool,
    pub corrupted: bool,
    pub locked_to_char: bool,
    pub width: i16,
    pub height: i16,
    pub item_level: i16,
    pub support: Option<bool>,
    /// The sockets, each group opened by `|`, linked sockets joined by `-`,
    /// and the whole closed by `|`.
    pub sockets: String,
    pub socket_nr: i16,
    pub socket_li: i16,
    pub name: String,
    pub base_item: String,
    pub properties: Vec<RustProperty>,
    pub requirements: Vec<RustReq>,
    pub implicit_mods: Vec<RustMod>,
    pub explicit_mods: Vec<RustMod>,
    pub crafted_mods: Vec<RustMod>,
    pub enchanted_mods: Vec<RustMod>,
    pub frame_type: i16,
    pub x: i16,
    pub y: i16,
    pub socketed_items: bool,
    pub armour: i16,
    pub energy_s: i16,
    pub evasion: i16,
    pub resistance: i16,
    pub ele_resistance: i16,
    pub max_life: i16,
}

pub struct ItemView {
    pub contained_in: Seq<char>,
    pub item_id: Seq<char>,
    pub item_type: ItemType,
    pub league: Seq<char>,
    pub price: Option<PriceView>,
    pub note: Seq<char>,
    pub verified: bool,
    pub identified: bool,
    pub corrupted: bool,
    pub locked_to_char: bool,
    pub width: i16,
    pub height: i16,
    pub item_level: i16,
    pub support: Option<bool>,
    pub sockets: Seq<char>,
    pub socket_nr: i16,
    pub socket_li: i16,
    pub name: Seq<char>,
    pub base_item: Seq<char>,
    pub properties: Seq<PropertyView>,
    pub requirements: Seq<ReqView>,
    pub implicit_mods: Seq<ModView>,
    pub explicit_mods: Seq<ModView>,
    pub crafted_mods: Seq<ModView>,
    pub enchanted_mods: Seq<ModView>,
    pub frame_type: i16,
    pub x: i16,
    pub y: i16,
    pub socketed_items: bool,
    pub armour: i16,
    pub energy_s: i16,
    pub evasion: i16,
    pub resistance: i16,
    pub ele_resistance: i16,
    pub max_life: i16,
}

impl DeepView for RustItem {
    type V = ItemView;

    open spec fn deep_view(&self) -> ItemView {
        ItemView {
            contained_in: self.contained_in@,
            item_id: self.item_id@,
            item_type: self.item_type,
            league: self.league@,
            price: self.price.deep_view(),
            note: self.note@,
            verified: self.verified,
            identified: self.identified,
            corrupted: self.corrupted,
            locked_to_char: self.locked_to_char,
            width: self.width,
            height: self.height,
            item_level: self.item_level,
            support: self.support,
            sockets: self.sockets@,
            socket_nr: self.socket_nr,
            socket_li: self.socket_li,
            name: self.name@,
            base_item: self.base_item@,
            properties: self.properties.deep_view(),
            requirements: self.requirements.deep_view(),
            implicit_mods: self.implicit_mods.deep_view(),
            explicit_mods: self.explicit_mods.deep_view(),
            crafted_mods: self.crafted_mods.deep_view(),
            enchanted_mods: self.enchanted_mods.deep_view(),
            frame_type: self.frame_type,
            x: self.x,
            y: self.y,
            socketed_items: self.socketed_items,
            armour: self.armour,
            energy_s: self.energy_s,
            evasion: self.evasion,
            resistance: self.resistance,
            ele_resistance: self.ele_resistance,
            max_life: self.max_life,
        }
    }
}

/// A stash tab with the items parsed out of it.
#[derive(Debug)]
pub struct RustStash {
    pub stash_id: String,
    pub acc_name: String,
    pub last_char_name: String,
    pub stash_type: String,
    pub stash_name: String,
    pub is_public: bool,
    pub item_nr: i16,
    pub items: Vec<RustItem>,
}

pub struct StashView {
    pub stash_id: Seq<char>,
    pub acc_name: Seq<char>,
    pub last_char_name: Seq<char>,
    pub stash_type: Seq<char>,
    pub stash_name: Seq<char>,
    pub is_public: bool,
    pub item_nr: i16,
    pub items: Seq<ItemView>,
}

impl DeepView for RustStash {
    type V = StashView;

    open spec fn deep_view(&self) -> StashView {
        StashView {
            stash_id: self.stash_id@,
            acc_name: self.acc_name@,
            last_char_name: self.last_char_name@,
            stash_type: self.stash_type@,
            stash_name: self.stash_name@,
            is_public: self.is_public,
            item_nr: self.item_nr,
            items: self.items.deep_view(),
        }
    }
}

/// The view of a parse result: the value's view, or the error text.
pub open spec fn result_view<T: DeepView>(r: Result<T, String>) -> Result<T::V, Seq<char>> {
    match r {
        Ok(v) => Ok(v.deep_view()),
        Err(e) => Err(e@),
    }
}

/// Applies `f` to the elements of `s` from index `i` on, in order, after the
/// results `done`; the first error stops it.
pub open spec fn map_from<A, B>(
    s: Seq<A>,
    f: spec_fn(A) -> Result<B, Seq<char>>,
    i: int,
    done: Seq<B>,
) -> Result<Seq<B>, Seq<char>>
    decreases s.len() - i,
{
    if i < 0 || i >= s.len() {
        Ok(done)
    } else {
        match f(s[i]) {
            Err(e) => Err(e),
            Ok(x) => map_from(s, f, i + 1, done.push(x)),
        }
    }
}

/// Applies `f` to every element of `s` in order; the first error is the result.
pub open spec fn map_all<A, B>(s: Seq<A>, f: spec_fn(A) -> Result<B, Seq<char>>) -> Result<
    Seq<B>,
    Seq<char>,
> {
    map_from(s, f, 0, Seq::empty())
}

} // verus!
