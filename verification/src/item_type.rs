//! Telling the kind of an item from its frame, its base type and its icon.
use vstd::prelude::*;
use crate::input::Item;
use crate::pattern::{contains_text, has_match, is_literal_pattern, is_match, occurs_in};
use crate::records::ItemType;

verus! {

pub const JEWEL_PATTERN: &'static str = "Jewel";
pub const FLASK_PATTERN: &'static str = "Flask";
pub const JEWELRY_PATTERN: &'static str = "(Amulet(\\s|$))|(Ring(\\s|$))|(Belt(\\s|$))|(Sash(\\s|$))|(Talisman(\\s|$))";
pub const MAP_PATTERN: &'static str = "Map";
pub const MAP_PIECE_PATTERN: &'static str = "(^Sacrifice)|(^Mortal)|('s Key)|(^Offering to the Goddess)|(^Fragment of the)";
pub const WEAPON_PATTERN: &'static str = "Weapon";
pub const ARMOUR_PATTERN: &'static str = "(Armour)|(Quiver)";

pub const RING_PATTERN: &'static str = "Ring";
pub const AMULET_PATTERN: &'static str = "(Amulet)|(Talisman)";
pub const BELT_PATTERN: &'static str = "(Belt)|(Sash)";

pub const ONE_HAND_PATTERN: &'static str = "OneHandWeapons";
pub const TWO_HAND_PATTERN: &'static str = "TwoHandWeapons";
pub const AXE_PATTERN: &'static str = "Axe";
pub const SWORD_PATTERN: &'static str = "Sword";
pub const MACE_PATTERN: &'static str = "Mace";
pub const BOW_PATTERN: &'static str = "Bows";
pub const WAND_PATTERN: &'static str = "Wands";
pub const CLAW_PATTERN: &'static str = "Claws";
pub const STAFF_PATTERN: &'static str = "Staves";
pub const DAGGER_PATTERN: &'static str = "Daggers";
pub const SCEPTER_PATTERN: &'static str = "Scepter";
pub const RAPIER_PATTERN: &'static str = "Rapier";

pub const BODY_PATTERN: &'static str = "BodyArmours";
pub const HELM_PATTERN: &'static str = "Helmets";
pub const SHIELD_PATTERN: &'static str = "Shields";
pub const GLOVES_PATTERN: &'static str = "Gloves";
pub const BOOTS_PATTERN: &'static str = "Boots";
pub const QUIVER_PATTERN: &'static str = "Quiver";

pub const JEWELRY_UNKNOWN: &'static str = "Amulet_type could not be determined";
pub const WEAPON_UNKNOWN: &'static str = "ItemType not found";
pub const ARMOUR_UNKNOWN: &'static str = "Armour Type not found";

pub open spec fn jewelry_type(s: Seq<char>) -> Result<ItemType, Seq<char>> {
    if occurs_in(RING_PATTERN@, s) {
        Ok(ItemType::Ring)
    } else if has_match(AMULET_PATTERN@, s) {
        Ok(ItemType::Amulet)
    } else if has_match(BELT_PATTERN@, s) {
        Ok(ItemType::Belt)
    } else {
        Err(JEWELRY_UNKNOWN@)
    }
}

pub open spec fn one_hand_type(s: Seq<char>) -> Option<ItemType> {
    if occurs_in(AXE_PATTERN@, s) {
        Some(ItemType::Axe1H)
    } else if occurs_in(MACE_PATTERN@, s) {
        Some(ItemType::Mace1H)
    } else if occurs_in(SWORD_PATTERN@, s) {
        Some(ItemType::Sword1H)
    } else if occurs_in(CLAW_PATTERN@, s) {
        Some(ItemType::Claw)
    } else if occurs_in(DAGGER_PATTERN@, s) {
        Some(ItemType::Dagger)
    } else if occurs_in(WAND_PATTERN@, s) {
        Some(ItemType::Wand)
    } else if occurs_in(SCEPTER_PATTERN@, s) {
        Some(ItemType::Sceptre)
    } else if occurs_in(RAPIER_PATTERN@, s) {
        Some(ItemType::Rapier)
    } else {
        None
    }
}

pub open spec fn two_hand_type(s: Seq<char>) -> Option<ItemType> {
    if occurs_in(MACE_PATTERN@, s) {
        Some(ItemType::Mace2H)
    } else if occurs_in(AXE_PATTERN@, s) {
        Some(ItemType::Axe2H)
    } else if occurs_in(SWORD_PATTERN@, s) {
        Some(ItemType::Sword2H)
    } else if occurs_in(STAFF_PATTERN@, s) {
        Some(ItemType::Staff)
    } else if occurs_in(BOW_PATTERN@, s) {
        Some(ItemType::Bow)
    } else {
        None
    }
}

/// A one-handed kind where the icon is of a one-handed weapon and names one,
/// else a two-handed kind likewise, else an error.
pub open spec fn weapon_type(s: Seq<char>) -> Result<ItemType, Seq<char>> {
    if occurs_in(ONE_HAND_PATTERN@, s) && one_hand_type(s) is Some {
        Ok(one_hand_type(s)->0)
    } else if occurs_in(TWO_HAND_PATTERN@, s) && two_hand_type(s) is Some {
        Ok(two_hand_type(s)->0)
    } else {
        Err(WEAPON_UNKNOWN@)
    }
}

pub open spec fn armour_type(s: Seq<char>) -> Result<ItemType, Seq<char>> {
    if occurs_in(BODY_PATTERN@, s) {
        Ok(ItemType::Body)
    } else if occurs_in(HELM_PATTERN@, s) {
        Ok(ItemType::Helm)
    } else if occurs_in(SHIELD_PATTERN@, s) {
        Ok(ItemType::Shield)
    } else if occurs_in(GLOVES_PATTERN@, s) {
        Ok(ItemType::Gloves)
    } else if occurs_in(BOOTS_PATTERN@, s) {
        Ok(ItemType::Boots)
    } else if occurs_in(QUIVER_PATTERN@, s) {
        Ok(ItemType::Quiver)
    } else {
        Err(ARMOUR_UNKNOWN@)
    }
}

/// The kind of an item: by its frame for gems, currency, divination cards
/// and prophecies; then by its base type; then by its icon; else unknown.
pub open spec fn item_type_of(frame_type: i16, base_item: Seq<char>, icon: Seq<char>) -> Result<
    ItemType,
    Seq<char>,
> {
    if frame_type == 4 {
        Ok(ItemType::Gem)
    } else if frame_type == 5 {
        Ok(ItemType::Currency)
    } else if frame_type == 6 {
        Ok(ItemType::DivinationCard)
    } else if frame_type == 8 {
        Ok(ItemType::ProphecyCard)
    } else if occurs_in(JEWEL_PATTERN@, base_item) {
        Ok(ItemType::Jewel)
    } else if occurs_in(FLASK_PATTERN@, base_item) {
        Ok(ItemType::Flask)
    } else if has_match(JEWELRY_PATTERN@, base_item) {
        jewelry_type(base_item)
    } else if occurs_in(MAP_PATTERN@, base_item) {
        Ok(ItemType::AtlasMap)
    } else if has_match(MAP_PIECE_PATTERN@, base_item) {
        Ok(ItemType::MapPiece)
    } else if occurs_in(WEAPON_PATTERN@, icon) {
        weapon_type(icon)
    } else if has_match(ARMOUR_PATTERN@, icon) {
        armour_type(icon)
    } else {
        Ok(ItemType::Unknown)
    }
}

/// The patterns made of letters only, which stand for themselves.
pub proof fn lemma_literal_patterns()
    ensures
        is_literal_pattern(JEWEL_PATTERN@),
        is_literal_pattern(FLASK_PATTERN@),
        is_literal_pattern(MAP_PATTERN@),
        is_literal_pattern(WEAPON_PATTERN@),
        is_literal_pattern(RING_PATTERN@),
        is_literal_pattern(ONE_HAND_PATTERN@),
        is_literal_pattern(TWO_HAND_PATTERN@),
        is_literal_pattern(AXE_PATTERN@),
        is_literal_pattern(SWORD_PATTERN@),
        is_literal_pattern(MACE_PATTERN@),
        is_literal_pattern(BOW_PATTERN@),
        is_literal_pattern(WAND_PATTERN@),
        is_literal_pattern(CLAW_PATTERN@),
        is_literal_pattern(STAFF_PATTERN@),
        is_literal_pattern(DAGGER_PATTERN@),
        is_literal_pattern(SCEPTER_PATTERN@),
        is_literal_pattern(RAPIER_PATTERN@),
        is_literal_pattern(BODY_PATTERN@),
        is_literal_pattern(HELM_PATTERN@),
        is_literal_pattern(SHIELD_PATTERN@),
        is_literal_pattern(GLOVES_PATTERN@),
        is_literal_pattern(BOOTS_PATTERN@),
        is_literal_pattern(QUIVER_PATTERN@),
{
    reveal_strlit("Jewel");
    reveal_strlit("Flask");
    reveal_strlit("Map");
    reveal_strlit("Weapon");
    reveal_strlit("Ring");
    reveal_strlit("OneHandWeapons");
    reveal_strlit("TwoHandWeapons");
    reveal_strlit("Axe");
    reveal_strlit("Sword");
    reveal_strlit("Mace");
    reveal_strlit("Bows");
    reveal_strlit("Wands");
    reveal_strlit("Claws");
    reveal_strlit("Staves");
    reveal_strlit("Daggers");
    reveal_strlit("Scepter");
    reveal_strlit("Rapier");
    reveal_strlit("BodyArmours");
    reveal_strlit("Helmets");
    reveal_strlit("Shields");
    reveal_strlit("Gloves");
    reveal_strlit("Boots");
    reveal_strlit("Quiver");
}

/// Which jewelry a base type names: ring, amulet or belt.
pub fn get_jewelry_type(s: &String) -> (r: Result<ItemType, String>)
    ensures
        crate::records::result_view(r) == jewelry_type(s@),
{
    proof {
        lemma_literal_patterns();
    }
    let s = s.as_str();
    if contains_text(RING_PATTERN, s) {
        return Ok(ItemType::Ring);
    }
    if is_match(AMULET_PATTERN, s) {
        return Ok(ItemType::Amulet);
    }
    if is_match(BELT_PATTERN, s) {
        return Ok(ItemType::Belt);
    }
    Err(JEWELRY_UNKNOWN.to_owned())
}

/// Which weapon an icon path shows.
pub fn get_weapon_type(s: &String) -> (r: Result<ItemType, String>)
    ensures
        crate::records::result_view(r) == weapon_type(s@),
{
    proof {
        lemma_literal_patterns();
    }
    let s = s.as_str();
    if contains_text(ONE_HAND_PATTERN, s) {
        if contains_text(AXE_PATTERN, s) {
            return Ok(ItemType::Axe1H);
        }
        if contains_text(MACE_PATTERN, s) {
            return Ok(ItemType::Mace1H);
        }
        if contains_text(SWORD_PATTERN, s) {
            return Ok(ItemType::Sword1H);
        }
        if contains_text(CLAW_PATTERN, s) {
            return Ok(ItemType::Claw);
        }
        if contains_text(DAGGER_PATTERN, s) {
            return Ok(ItemType::Dagger);
        }
        if contains_text(WAND_PATTERN, s) {
            return Ok(ItemType::Wand);
        }
        if contains_text(SCEPTER_PATTERN, s) {
            return Ok(ItemType::Sceptre);
        }
        if contains_text(RAPIER_PATTERN, s) {
            return Ok(ItemType::Rapier);
        }
    }
    if contains_text(TWO_HAND_PATTERN, s) {
        if contains_text(MACE_PATTERN, s) {
            return Ok(ItemType::Mace2H);
        }
        if contains_text(AXE_PATTERN, s) {
            return Ok(ItemType::Axe2H);
        }
        if contains_text(SWORD_PATTERN, s) {
            return Ok(ItemType::Sword2H);
        }
        if contains_text(STAFF_PATTERN, s) {
            return Ok(ItemType::Staff);
        }
        if contains_text(BOW_PATTERN, s) {
            return Ok(ItemType::Bow);
        }
    }
    Err(WEAPON_UNKNOWN.to_owned())
}

/// Which armour an icon path shows.
pub fn get_armour_type(s: &String) -> (r: Result<ItemType, String>)
    ensures
        crate::records::result_view(r) == armour_type(s@),
{
    proof {
        lemma_literal_patterns();
    }
    let s = s.as_str();
    if contains_text(BODY_PATTERN, s) {
        return Ok(ItemType::Body);
    }
    if contains_text(HELM_PATTERN, s) {
        return Ok(ItemType::Helm);
    }
    if contains_text(SHIELD_PATTERN, s) {
        return Ok(ItemType::Shield);
    }
    if contains_text(GLOVES_PATTERN, s) {
        return Ok(ItemType::Gloves);
    }
    if contains_text(BOOTS_PATTERN, s) {
        return Ok(ItemType::Boots);
    }
    if contains_text(QUIVER_PATTERN, s) {
        return Ok(ItemType::Quiver);
    }
    Err(ARMOUR_UNKNOWN.to_owned())
}

/// The kind of an item, as `item_type_of` states it.
pub fn get_item_type(item: &Item) -> (r: Result<ItemType, String>)
    ensures
        crate::records::result_view(r) == item_type_of(item.frame_type, item.base_item@, item.icon@),
{
    proof {
        lemma_literal_patterns();
    }
    if item.frame_type == 4 {
        return Ok(ItemType::Gem);
    }
    if item.frame_type == 5 {
        return Ok(ItemType::Currency);
    }
    if item.frame_type == 6 {
        return Ok(ItemType::DivinationCard);
    }
    if item.frame_type == 8 {
        return Ok(ItemType::ProphecyCard);
    }
    let base = item.base_item.as_str();
    if contains_text(JEWEL_PATTERN, base) {
        return Ok(ItemType::Jewel);
    }
    if contains_text(FLASK_PATTERN, base) {
        return Ok(ItemType::Flask);
    }
    if is_match(JEWELRY_PATTERN, base) {
        return get_jewelry_type(&item.base_item);
    }
    if contains_text(MAP_PATTERN, base) {
        return Ok(ItemType::AtlasMap);
    }
    if is_match(MAP_PIECE_PATTERN, base) {
        return Ok(ItemType::MapPiece);
    }
    let icon = item.icon.as_str();
    if contains_text(WEAPON_PATTERN, icon) {
        return get_weapon_type(&item.icon);
    }
    if is_match(ARMOUR_PATTERN, icon) {
        return get_armour_type(&item.icon);
    }
    Ok(ItemType::Unknown)
}

} // verus!
