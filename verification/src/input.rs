//! The stash data as the public stash tab service reports it.
//!
//! A JSON value that the parser only tells apart by whether it is a string
//! is held as `Option<String>`: `Some` with the text for a string, `None` for
//! any other value.
use vstd::prelude::*;

verus! {

/// A requirement of an item, with its value cells.
pub struct Requirement {
    pub name: String,
    pub values: Vec<Vec<Option<String>>>,
    pub display_mode: i16,
}

/// A property of an item, with its value cells.
pub struct Property {
    pub name: String,
    pub values: Vec<Vec<Option<String>>>,
    pub display_mode: i16,
}

/// A socket of an item: the link group it belongs to and its colour letter.
pub struct Socket {
    pub group: i16,
    pub attribute: String,
}

/// An item in a stash tab.
pub struct Item {
    pub verified: bool,
    pub width: i16,
    pub height: i16,
    pub item_level: i16,
    pub icon: String,
    pub support: Option<bool>,
    pub league: String,
    pub item_id: String,
    pub sockets: Vec<Socket>,
    pub name: String,
    pub base_item: String,
    pub identified: bool,
    pub corrupted: bool,
    pub locked_to_char: bool,
    pub note: Option<String>,
    pub properties: Option<Vec<Property>>,
    pub requirements: Option<Vec<Requirement>>,
    pub implicit_mods: Option<Vec<String>>,
    pub explicit_mods: Option<Vec<String>>,
    pub crafted_mods: Option<Vec<String>>,
    pub enchanted_mods: Option<Vec<String>>,
    pub descr_text: Option<String>,
    /// 0 normal, 1 magic, 2 rare, 3 unique, 4 gem, 5 currency, 6 divination card, 8 prophecy.
    pub frame_type: i16,
    pub x: Option<i16>,
    pub y: Option<i16>,
    pub socketed_items: Vec<Item>,
}

/// A stash tab. `acc_name` is `Some` when the account name is a JSON string.
pub struct Stash {
    pub acc_name: Option<String>,
    pub last_char_name: String,
    pub stash_id: String,
    pub stash_name: Option<String>,
    pub stash_type: String,
    pub items: Vec<Item>,
    pub is_public: bool,
}

/// One page of the public stash tab service.
pub struct JsonSite {
    pub next_change_id: String,
    pub stashes: Vec<Stash>,
}

} // verus!
