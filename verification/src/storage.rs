//! The statements and decisions of the database writer: each kind of item
//! has a table of its own, named as the kind is.
use vstd::prelude::*;
use crate::records::ItemType;

verus! {

pub const STASH_LOOKUP_STATEMENT: &'static str = "SELECT stash_id FROM stashes WHERE stash_id = $1";
pub const UPDATE_STASH_STATEMENT: &'static str =
    "UPDATE stashes SET (acc_name, last_char_name, stash_type, stash_name, item_nr, is_public) = ($2, $3, $4, $5, $6, $7) WHERE stash_id = $1";
pub const INSERT_STASH_STATEMENT: &'static str = "INSERT INTO stashes VALUES ($1, $2, $3, $4, $5, $6, $7)";

/// The name of the table that holds the items of a kind.
pub open spec fn table_of(t: ItemType) -> Seq<char> {
    match t {
        ItemType::Unknown => "Unknown"@,
        ItemType::DivinationCard => "DivinationCard"@,
        ItemType::Currency => "Currency"@,
        ItemType::ProphecyCard => "Prophecy"@,
        ItemType::Gem => "Gem"@,
        ItemType::Jewel => "Jewel"@,
        ItemType::Flask => "Flask"@,
        ItemType::AtlasMap => "Map"@,
        ItemType::MapPiece => "MapPiece"@,
        ItemType::Axe1H => "Axe1H"@,
        ItemType::Axe2H => "Axe2H"@,
        ItemType::Mace1H => "Mace1H"@,
        ItemType::Mace2H => "Mace2H"@,
        ItemType::Sceptre => "Sceptre"@,
        ItemType::Bow => "Bow"@,
        ItemType::Dagger => "Dagger"@,
        ItemType::Claw => "Claw"@,
        ItemType::Staff => "Staff"@,
        ItemType::Sword1H => "Sword1H"@,
        ItemType::Sword2H => "Sword2H"@,
        ItemType::Rapier => "Rapier"@,
        ItemType::Wand => "Wand"@,
        ItemType::Amulet => "Amulet"@,
        ItemType::Belt => "Belt"@,
        ItemType::Ring => "Ring"@,
        ItemType::Helm => "Helm"@,
        ItemType::Body => "Body"@,
        ItemType::Boots => "Boots"@,
        ItemType::Gloves => "Gloves"@,
        ItemType::Shield => "Shield"@,
        ItemType::Quiver => "Quiver"@,
    }
}

/// The name of the table that holds the items of a kind.
pub fn table_name(t: ItemType) -> (name: &'static str)
    ensures
        name@ == table_of(t),
{
    match t {
        ItemType::Unknown => "Unknown",
        ItemType::DivinationCard => "DivinationCard",
        ItemType::Currency => "Currency",
        ItemType::ProphecyCard => "Prophecy",
        ItemType::Gem => "Gem",
        ItemType::Jewel => "Jewel",
        ItemType::Flask => "Flask",
        ItemType::AtlasMap => "Map",
        ItemType::MapPiece => "MapPiece",
        ItemType::Axe1H => "Axe1H",
        ItemType::Axe2H => "Axe2H",
        ItemType::Mace1H => "Mace1H",
        ItemType::Mace2H => "Mace2H",
        ItemType::Sceptre => "Sceptre",
        ItemType::Bow => "Bow",
        ItemType::Dagger => "Dagger",
        ItemType::Claw => "Claw",
        ItemType::Staff => "Staff",
        ItemType::Sword1H => "Sword1H",
        ItemType::Sword2H => "Sword2H",
        ItemType::Rapier => "Rapier",
        ItemType::Wand => "Wand",
        ItemType::Amulet => "Amulet",
        ItemType::Belt => "Belt",
        ItemType::Ring => "Ring",
        ItemType::Helm => "Helm",
        ItemType::Body => "Body",
        ItemType::Boots => "Boots",
        ItemType::Gloves => "Gloves",
        ItemType::Shield => "Shield",
        ItemType::Quiver => "Quiver",
    }
}

/// The statement that stores an item in the table of its kind.
pub fn insert_item_statement(t: ItemType) -> (stmt: String)
    ensures
        stmt@ == "INSERT INTO "@ + table_of(t) + " VALUES ($1)"@,
{
    let mut stmt = "INSERT INTO ".to_owned();
    stmt.append(table_name(t));
    stmt.append(" VALUES ($1)");
    stmt
}

/// The statement that looks an item up by its id in the table of its kind.
pub fn item_lookup_statement(t: ItemType) -> (stmt: String)
    ensures
        stmt@ == "SELECT id FROM "@ + table_of(t) + " WHERE id = $1"@,
{
    let mut stmt = "SELECT id FROM ".to_owned();
    stmt.append(table_name(t));
    stmt.append(" WHERE id = $1");
    stmt
}

/// The statement that writes a stash tab: an update where the tab is
/// already stored, an insert where it is not.
pub fn stash_statement(present: bool) -> (stmt: &'static str)
    ensures
        stmt@ == if present { UPDATE_STASH_STATEMENT@ } else { INSERT_STASH_STATEMENT@ },
{
    if present {
        UPDATE_STASH_STATEMENT
    } else {
        INSERT_STASH_STATEMENT
    }
}

/// How an item of a stash tab is written.
#[derive(Debug, Clone, Copy, PartialEq, Eq, Structural)]
pub enum ItemWrite {
    Insert,
    Update,
}

/// How to write an item: where the tab was not stored yet, the writer looks
/// the item up, and an item that is not in its table is inserted and one
/// that is there is updated; the items of a stored tab are inserted without
/// a lookup. `item_missing` is what the lookup found, and counts only where
/// the tab was not stored yet.
pub fn item_write(stash_present: bool, item_missing: bool) -> (w: ItemWrite)
    ensures
        w == if !stash_present && !item_missing { ItemWrite::Update } else { ItemWrite::Insert },
{
    if !stash_present {
        if item_missing {
            ItemWrite::Insert
        } else {
            ItemWrite::Update
        }
    } else {
        ItemWrite::Insert
    }
}

/// The next step of writing a stash tab in one transaction.
#[derive(Debug, Clone, Copy, PartialEq, Eq, Structural)]
pub enum WriterAction {
    /// Look the next item up in the table of its kind.
    LookUpItem,
    /// Write the next item.
    Write(ItemWrite),
    /// Undo the whole tab: an item could not be written.
    RollBack,
    /// Keep the whole tab: every item was written.
    Commit,
}

/// The next step of writing a stash tab: `item_left` tells whether an item
/// remains, `lookup` what the lookup of that item found (`Some(missing)`)
/// where one was made, `write_failed` whether the last write failed. A
/// failed write undoes the tab; with no item left the tab is kept; an item
/// of a tab that was not stored yet is looked up before it is written.
pub fn next_writer_action(stash_present: bool, item_left: bool, lookup: Option<bool>, write_failed: bool) -> (a: WriterAction)
    ensures
        a == if write_failed {
            WriterAction::RollBack
        } else if !item_left {
            WriterAction::Commit
        } else if !stash_present && lookup is None {
            WriterAction::LookUpItem
        } else if !stash_present && lookup == Some(false) {
            WriterAction::Write(ItemWrite::Update)
        } else {
            WriterAction::Write(ItemWrite::Insert)
        },
{
    if write_failed {
        WriterAction::RollBack
    } else if !item_left {
        WriterAction::Commit
    } else {
        match lookup {
            None => if stash_present {
                WriterAction::Write(ItemWrite::Insert)
            } else {
                WriterAction::LookUpItem
            },
            Some(missing) => WriterAction::Write(item_write(stash_present, missing)),
        }
    }
}

} // verus!
