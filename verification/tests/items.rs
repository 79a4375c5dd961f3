use poe_indexer::input::{Item, Property, Requirement, Socket, Stash, JsonSite};
use poe_indexer::item::{parse_item, NO_COORDS, NO_Y_COORD, PSEUDO_MOD_WITHOUT_VALUE, TOTAL_OUT_OF_RANGE};
use poe_indexer::item_type::{
    get_armour_type, get_item_type, get_jewelry_type, get_weapon_type, ARMOUR_UNKNOWN,
    JEWELRY_UNKNOWN, WEAPON_UNKNOWN,
};
use poe_indexer::price::{parse_price, NO_PRICE, PRICE_NOT_A_NUMBER};
use poe_indexer::props::{
    parse_props, NO_NUMBER_AFTER_NUMBERS, PROPERTY_WITHOUT_VALUE, VALUE_NOT_TEXT, WEIRD_LAYOUT,
};
use poe_indexer::records::{ItemType, Price, PropValues, RustProperty, RustReq};
use poe_indexer::requirements::{
    parse_requirements, REQUIREMENT_NOT_TEXT, REQUIREMENT_OUT_OF_RANGE, REQUIREMENT_WITHOUT_VALUE,
};
use poe_indexer::sockets::parse_socket;
use poe_indexer::stash::{parse_site, parse_stash};

fn text(s: &str) -> Option<String> {
    Some(s.to_string())
}

fn socket(group: i16, attr: &str) -> Socket {
    Socket { group, attribute: attr.to_string() }
}

fn item(base: &str, icon: &str, frame_type: i16) -> Item {
    Item {
        verified: false,
        width: 2,
        height: 3,
        item_level: 70,
        icon: icon.to_string(),
        support: None,
        league: "Standard".to_string(),
        item_id: "item-1".to_string(),
        sockets: Vec::new(),
        name: "Doom Shell".to_string(),
        base_item: base.to_string(),
        identified: true,
        corrupted: false,
        locked_to_char: false,
        note: None,
        properties: None,
        requirements: None,
        implicit_mods: None,
        explicit_mods: None,
        crafted_mods: None,
        enchanted_mods: None,
        descr_text: None,
        frame_type,
        x: Some(1),
        y: Some(2),
        socketed_items: Vec::new(),
    }
}

fn lines(ls: &[&str]) -> Option<Vec<String>> {
    Some(ls.iter().map(|s| s.to_string()).collect())
}

#[test]
fn parse_socket_writes_groups_and_links() {
    let s = vec![socket(0, "D"), socket(0, "D"), socket(0, "S"), socket(1, "I"), socket(1, "D")];
    assert_eq!(parse_socket(s), ("|D-D-S|I-D|".to_string(), 6, 3));
}

#[test]
fn parse_socket_of_no_sockets() {
    assert_eq!(parse_socket(Vec::new()), (String::new(), 0, 0));
}

#[test]
fn parse_socket_first_socket_in_group_minus_one() {
    assert_eq!(parse_socket(vec![socket(-1, "R")]), ("-R|".to_string(), 2, 1));
}

#[test]
fn parse_socket_unlinked_sockets() {
    let s = vec![socket(0, "R"), socket(1, "G"), socket(2, "B")];
    assert_eq!(parse_socket(s), ("|R|G|B|".to_string(), 4, 1));
}

#[test]
fn parse_price_reads_the_three_parts() {
    assert_eq!(
        parse_price(&"~b/o 5 chaos".to_string()),
        Ok(Price { prefix: "b/o".to_string(), value: "5".to_string(), suffix: "chaos".to_string() })
    );
    assert_eq!(
        parse_price(&"~price 1.5 exa".to_string()),
        Ok(Price { prefix: "price".to_string(), value: "1.5".to_string(), suffix: "exa".to_string() })
    );
}

#[test]
fn parse_price_gives_back_the_parts_it_was_written_from() {
    for (p, v, u) in [("b/o", "5", "chaos"), ("price", "0.5", "exa"), ("b/o", "12", "alch")] {
        assert_eq!(
            parse_price(&format!("~{} {} {}", p, v, u)),
            Ok(Price { prefix: p.to_string(), value: v.to_string(), suffix: u.to_string() })
        );
    }
}

#[test]
fn parse_price_errors() {
    assert_eq!(parse_price(&"my stash".to_string()), Err(NO_PRICE.to_string()));
    assert_eq!(parse_price(&"~b/o 5 ch".to_string()), Err(NO_PRICE.to_string()));
    assert_eq!(parse_price(&"~b/o 1.2.3 chaos".to_string()), Err(PRICE_NOT_A_NUMBER.to_string()));
}

#[test]
fn parse_requirements_reads_values() {
    let reqs = vec![
        Requirement { name: "Level".to_string(), values: vec![vec![text("62"), None]], display_mode: 0 },
        Requirement { name: "Str".to_string(), values: vec![vec![text("111"), None]], display_mode: 1 },
    ];
    assert_eq!(
        parse_requirements(Some(reqs)),
        Ok(vec![
            RustReq { name: "Level".to_string(), val: 62 },
            RustReq { name: "Str".to_string(), val: 111 }
        ])
    );
    assert_eq!(parse_requirements(None), Ok(Vec::new()));
}

#[test]
fn parse_requirements_errors() {
    let not_text = vec![Requirement { name: "Level".to_string(), values: vec![vec![None]], display_mode: 0 }];
    assert_eq!(parse_requirements(Some(not_text)), Err(REQUIREMENT_NOT_TEXT.to_string()));
    let empty = vec![Requirement { name: "Level".to_string(), values: vec![], display_mode: 0 }];
    assert_eq!(parse_requirements(Some(empty)), Err(REQUIREMENT_WITHOUT_VALUE.to_string()));
    let big = vec![Requirement { name: "Level".to_string(), values: vec![vec![text("40000")]], display_mode: 0 }];
    assert_eq!(parse_requirements(Some(big)), Err(REQUIREMENT_OUT_OF_RANGE.to_string()));
}

fn prop(name: &str, values: Vec<Vec<Option<String>>>) -> Property {
    Property { name: name.to_string(), values, display_mode: 0 }
}

fn values(v1: &str, v2: &str) -> PropValues {
    PropValues { val1: v1.to_string(), val2: v2.to_string() }
}

#[test]
fn parse_props_reads_numbers() {
    let props = vec![
        prop("Armour", vec![vec![text("523"), None]]),
        prop("Physical Damage", vec![vec![text("12-40"), None], vec![text("3-4"), None]]),
        prop("Quality", vec![vec![text("+20%"), None]]),
        prop("Two Handed Sword", vec![]),
        prop("Sword", vec![vec![text("none"), None]]),
    ];
    let parsed = parse_props(Some(props)).unwrap();
    assert_eq!(parsed.len(), 5);
    assert_eq!(parsed[0], RustProperty { name: "Armour".to_string(), values: Some(vec![values("523", "0.0")]) });
    assert_eq!(
        parsed[1],
        RustProperty { name: "Physical Damage".to_string(), values: Some(vec![values("12", "40"), values("3", "4")]) }
    );
    assert_eq!(parsed[2], RustProperty { name: "Quality".to_string(), values: Some(vec![values("20", "0.0")]) });
    assert_eq!(parsed[3], RustProperty { name: "Two Handed Sword".to_string(), values: None });
    assert_eq!(parsed[4], RustProperty { name: "Sword".to_string(), values: None });
}

#[test]
fn parse_props_stops_at_a_property_without_name() {
    let props = vec![
        prop("", vec![vec![text("Bow"), None]]),
        prop("Armour", vec![vec![text("523"), None]]),
    ];
    assert_eq!(
        parse_props(Some(props)),
        Ok(vec![RustProperty { name: "Bow".to_string(), values: None }])
    );
    assert_eq!(parse_props(None), Ok(Vec::new()));
}

#[test]
fn parse_props_errors() {
    assert_eq!(
        parse_props(Some(vec![prop("", vec![vec![None]])])),
        Err(WEIRD_LAYOUT.to_string())
    );
    assert_eq!(
        parse_props(Some(vec![prop("", vec![])])),
        Err(PROPERTY_WITHOUT_VALUE.to_string())
    );
    assert_eq!(
        parse_props(Some(vec![prop("Armour", vec![vec![None]])])),
        Err(VALUE_NOT_TEXT.to_string())
    );
    assert_eq!(
        parse_props(Some(vec![prop("Armour", vec![vec![text("5")], vec![text("none")]])])),
        Err(NO_NUMBER_AFTER_NUMBERS.to_string())
    );
    assert_eq!(
        parse_props(Some(vec![prop("Armour", vec![vec![]])])),
        Err(PROPERTY_WITHOUT_VALUE.to_string())
    );
    assert_eq!(
        parse_props(Some(vec![prop("Armour", vec![vec![text("1.2.3")]])])),
        Err(poe_indexer::props::PROPERTY_NOT_A_NUMBER.to_string())
    );
}

#[test]
fn get_item_type_by_frame() {
    let icon = "Art/2DItems/Weapons/OneHandWeapons/OneHandAxes/Axe1.png";
    assert_eq!(get_item_type(&item("Vaal Haste", icon, 4)), Ok(ItemType::Gem));
    assert_eq!(get_item_type(&item("Chaos Orb", icon, 5)), Ok(ItemType::Currency));
    assert_eq!(get_item_type(&item("The Doctor", icon, 6)), Ok(ItemType::DivinationCard));
    assert_eq!(get_item_type(&item("The Twins", icon, 8)), Ok(ItemType::ProphecyCard));
}

#[test]
fn get_item_type_by_base_and_icon() {
    let plain = "Art/2DItems/Other.png";
    assert_eq!(get_item_type(&item("Cobalt Jewel", plain, 2)), Ok(ItemType::Jewel));
    assert_eq!(get_item_type(&item("Divine Life Flask", plain, 1)), Ok(ItemType::Flask));
    assert_eq!(get_item_type(&item("Coral Ring", plain, 1)), Ok(ItemType::Ring));
    assert_eq!(get_item_type(&item("Paua Amulet", plain, 1)), Ok(ItemType::Amulet));
    assert_eq!(get_item_type(&item("Rustic Sash", plain, 1)), Ok(ItemType::Belt));
    assert_eq!(get_item_type(&item("Strand Map", plain, 0)), Ok(ItemType::AtlasMap));
    assert_eq!(get_item_type(&item("Sacrifice at Dusk", plain, 0)), Ok(ItemType::MapPiece));
    assert_eq!(
        get_item_type(&item("Vaal Axe", "Art/2DItems/Weapons/TwoHandWeapons/TwoHandAxes/A.png", 2)),
        Ok(ItemType::Axe2H)
    );
    assert_eq!(
        get_item_type(&item("Glorious Plate", "Art/2DItems/Armours/BodyArmours/B.png", 2)),
        Ok(ItemType::Body)
    );
    assert_eq!(get_item_type(&item("Some Thing", plain, 0)), Ok(ItemType::Unknown));
    assert_eq!(
        get_item_type(&item("Odd", "Art/2DItems/Weapons/Odd.png", 0)),
        Err(WEAPON_UNKNOWN.to_string())
    );
    assert_eq!(
        get_item_type(&item("Odd", "Art/2DItems/Armours/Odd.png", 0)),
        Err(ARMOUR_UNKNOWN.to_string())
    );
}

#[test]
fn kind_helpers() {
    assert_eq!(get_jewelry_type(&"Cobalt".to_string()), Err(JEWELRY_UNKNOWN.to_string()));
    assert_eq!(get_jewelry_type(&"Onyx Talisman".to_string()), Ok(ItemType::Amulet));
    assert_eq!(
        get_weapon_type(&"OneHandWeapons/Rapiers/Rapier1.png".to_string()),
        Ok(ItemType::Rapier)
    );
    assert_eq!(get_weapon_type(&"TwoHandWeapons/Bows/B.png".to_string()), Ok(ItemType::Bow));
    assert_eq!(get_weapon_type(&"OneHandWeapons/Odd.png".to_string()), Err(WEAPON_UNKNOWN.to_string()));
    assert_eq!(get_armour_type(&"Armours/Helmets/H.png".to_string()), Ok(ItemType::Helm));
    assert_eq!(get_armour_type(&"Quivers/Quiver1.png".to_string()), Ok(ItemType::Quiver));
}

#[test]
fn parse_item_totals_and_bases() {
    let mut it = item("Glorious Plate", "Art/2DItems/Armours/BodyArmours/B.png", 2);
    it.sockets = vec![socket(0, "S"), socket(0, "S")];
    it.note = text("~b/o 3 chaos");
    it.explicit_mods = lines(&[
        "+30% to Fire Resistance",
        "+20 to maximum Life",
        "+11 to Strength",
        "+15% to Cold and Lightning Resistances",
        "+9% to Chaos Resistance",
    ]);
    it.implicit_mods = lines(&["+8% to all Elemental Resistances"]);
    it.crafted_mods = lines(&["+12 to maximum Life"]);
    it.properties = Some(vec![
        prop("Armour", vec![vec![text("523.7"), None]]),
        prop("Evasion", vec![vec![text("40"), None]]),
    ]);
    it.requirements = Some(vec![Requirement { name: "Level".to_string(), values: vec![vec![text("68")]], display_mode: 0 }]);
    let parsed = parse_item(it, &"stash-9".to_string(), &None).unwrap();
    assert_eq!(parsed.item_type, ItemType::Body);
    assert_eq!(parsed.contained_in, "stash-9");
    assert_eq!(parsed.price, Some(Price { prefix: "b/o".to_string(), value: "3".to_string(), suffix: "chaos".to_string() }));
    assert_eq!(parsed.note, "~b/o 3 chaos");
    assert_eq!(parsed.sockets, "|S-S|");
    assert_eq!(parsed.socket_nr, 3);
    assert_eq!(parsed.socket_li, 2);
    assert_eq!(parsed.armour, 523);
    assert_eq!(parsed.evasion, 40);
    assert_eq!(parsed.energy_s, 0);
    // fire 30 and, through the pattern that matches `Cold`, 15 once; all 8 counts three times
    assert_eq!(parsed.ele_resistance, 30 + 15 + 24);
    assert_eq!(parsed.resistance, 30 + 15 + 9 + 24);
    assert_eq!(parsed.max_life, 20 + 5 + 12);
    assert_eq!(parsed.requirements, vec![RustReq { name: "Level".to_string(), val: 68 }]);
    assert_eq!(parsed.explicit_mods.len(), 5);
    assert!(!parsed.socketed_items);
    assert_eq!((parsed.x, parsed.y), (1, 2));
}

#[test]
fn parse_item_keeps_the_stash_price() {
    let mut it = item("Coral Ring", "x", 1);
    it.note = text("~b/o 3 chaos");
    let stash_price = Some(Price { prefix: "price".to_string(), value: "9".to_string(), suffix: "exa".to_string() });
    let parsed = parse_item(it, &"s".to_string(), &stash_price).unwrap();
    assert_eq!(parsed.price, stash_price);
}

#[test]
fn parse_item_errors() {
    let mut no_x = item("Coral Ring", "x", 1);
    no_x.x = None;
    assert_eq!(parse_item(no_x, &"s".to_string(), &None).unwrap_err(), NO_COORDS);
    let mut no_y = item("Coral Ring", "x", 1);
    no_y.y = None;
    assert_eq!(parse_item(no_y, &"s".to_string(), &None).unwrap_err(), NO_Y_COORD);
    let mut no_value = item("Coral Ring", "x", 1);
    no_value.explicit_mods = lines(&["Adds to maximum Life"]);
    assert_eq!(parse_item(no_value, &"s".to_string(), &None).unwrap_err(), PSEUDO_MOD_WITHOUT_VALUE);
    let mut too_much = item("Coral Ring", "x", 1);
    too_much.explicit_mods = lines(&["+20000 to maximum Life", "+20000 to maximum Life"]);
    assert_eq!(parse_item(too_much, &"s".to_string(), &None).unwrap_err(), TOTAL_OUT_OF_RANGE);
    let weapon = item("Odd", "Weapons/Odd", 0);
    assert_eq!(parse_item(weapon, &"s".to_string(), &None).unwrap_err(), WEAPON_UNKNOWN);
}

fn stash(name: Option<&str>, items: Vec<Item>) -> Stash {
    Stash {
        acc_name: None,
        last_char_name: "Char".to_string(),
        stash_id: "stash-1".to_string(),
        stash_name: name.map(|s| s.to_string()),
        stash_type: "PremiumStash".to_string(),
        items,
        is_public: true,
    }
}

#[test]
fn parse_stash_gives_its_price_to_every_item() {
    let mut second = item("Paua Amulet", "x", 1);
    second.note = text("~b/o 1 chaos");
    let parsed = parse_stash(stash(Some("~price 2 chaos"), vec![item("Coral Ring", "x", 1), second])).unwrap();
    assert_eq!(parsed.item_nr, 2);
    assert_eq!(parsed.items.len(), 2);
    assert_eq!(parsed.acc_name, "");
    assert_eq!(parsed.stash_name, "~price 2 chaos");
    let price = Some(Price { prefix: "price".to_string(), value: "2".to_string(), suffix: "chaos".to_string() });
    for it in &parsed.items {
        assert_eq!(it.contained_in, "stash-1");
        assert_eq!(it.price, price);
    }
}

#[test]
fn parse_stash_without_price_uses_notes() {
    let mut first = item("Coral Ring", "x", 1);
    first.note = text("~b/o 4 alch");
    let mut s = stash(None, vec![first, item("Paua Amulet", "x", 1)]);
    s.acc_name = text("someone");
    let parsed = parse_stash(s).unwrap();
    assert_eq!(parsed.acc_name, "someone");
    assert_eq!(parsed.stash_name, "");
    assert_eq!(parsed.items[0].price, Some(Price { prefix: "b/o".to_string(), value: "4".to_string(), suffix: "alch".to_string() }));
    assert_eq!(parsed.items[1].price, None);
}

#[test]
fn parse_stash_fails_on_a_bad_item() {
    let mut bad = item("Coral Ring", "x", 1);
    bad.x = None;
    assert_eq!(parse_stash(stash(None, vec![item("Coral Ring", "x", 1), bad])).unwrap_err(), NO_COORDS);
}

#[test]
fn parse_site_parses_each_stash_on_its_own() {
    let mut bad = item("Coral Ring", "x", 1);
    bad.x = None;
    let site = JsonSite {
        next_change_id: "1-2-3-4-5".to_string(),
        stashes: vec![stash(None, vec![bad]), stash(None, vec![item("Coral Ring", "x", 1)]), stash(None, vec![])],
    };
    let results = parse_site(site);
    assert_eq!(results.len(), 3);
    assert_eq!(results[0].as_ref().unwrap_err(), NO_COORDS);
    assert_eq!(results[1].as_ref().unwrap().items.len(), 1);
    assert_eq!(results[2].as_ref().unwrap().item_nr, 0);
}
