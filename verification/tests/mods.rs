use poe_indexer::mods::{
    mod_from_groups, parse_mod, parse_mods, MOD_NOT_PARSED_PREFIX, MOD_VALUE_OUT_OF_RANGE,
};
use poe_indexer::records::RustMod;

#[test]
fn parse_mod_test() {
    assert_eq!(
        Ok(RustMod { name: format!("Adds ## to ## Fire Damage to Attacks"), val1: Some(18), val2: Some(31) }),
        parse_mod(format!("Adds 18 to 31 Fire Damage to Attacks"))
    );

    assert_eq!(
        Ok(RustMod { name: format!("##% increased Global Critical Strike Chance"), val1: Some(37), val2: None }),
        parse_mod(format!("37% increased Global Critical Strike Chance"))
    );

    assert_eq!(
        Ok(RustMod { name: format!("+## to Melee Weapon and Unarmed range"), val1: Some(1), val2: None }),
        parse_mod(format!("+1 to Melee Weapon and Unarmed range"))
    );

    assert_eq!(
        Ok(RustMod { name: format!("Reflects ## Physical Damage to Melee Attackers"), val1: Some(56), val2: None }),
        parse_mod(format!("Reflects 56 Physical Damage to Melee Attackers"))
    );

    assert_eq!(
        Ok(RustMod { name: format!("Gain an Endurance Charge when you take a Critical Strike"), val1: None, val2: None }),
        parse_mod(format!("Gain an Endurance Charge when you take a Critical Strike"))
    );
}

#[test]
fn parse_mod_of_empty_line_names_the_line() {
    assert_eq!(
        Err(format!("{}\"\"", MOD_NOT_PARSED_PREFIX)),
        parse_mod(String::new())
    );
    assert_eq!(Err("could not parse this mod \"\"".to_string()), parse_mod(String::new()));
}

#[test]
fn parse_mod_rejects_numbers_beyond_i16() {
    assert_eq!(
        Err(MOD_VALUE_OUT_OF_RANGE.to_string()),
        parse_mod("Adds 99999 to 3 Cold Damage".to_string())
    );
}

#[test]
fn parse_mod_marks_every_number() {
    let m = parse_mod("Adds 1 to 2 and 3 to 4".to_string()).unwrap();
    assert_eq!(m.name, "Adds ## to ## and ## to ##");
    assert_eq!(m.val1, Some(1));
    assert_eq!(m.val2, Some(2));
}

#[test]
fn parse_mods_reads_each_line_in_order() {
    let lines = vec![
        "+10 to maximum Life".to_string(),
        "Adds 1 to 5 Fire Damage".to_string(),
        "Cannot be Frozen".to_string(),
    ];
    let mods = parse_mods(Some(lines)).unwrap();
    assert_eq!(mods.len(), 3);
    assert_eq!(mods[0], RustMod { name: "+## to maximum Life".to_string(), val1: Some(10), val2: None });
    // the greedy pattern for lines that do not start with a number keeps the last digit
    assert_eq!(mods[1], RustMod { name: "Adds ## to ## Fire Damage".to_string(), val1: Some(5), val2: None });
    assert_eq!(mods[2], RustMod { name: "Cannot be Frozen".to_string(), val1: None, val2: None });
}

#[test]
fn parse_mods_without_list_is_empty() {
    assert_eq!(parse_mods(None), Ok(Vec::new()));
    assert_eq!(parse_mods(Some(Vec::new())), Ok(Vec::new()));
}

#[test]
fn parse_mods_stops_at_a_number_out_of_range() {
    let lines = vec!["+1 to Strength".to_string(), "+70000 to Dexterity".to_string()];
    assert_eq!(parse_mods(Some(lines)), Err(MOD_VALUE_OUT_OF_RANGE.to_string()));
}

#[test]
fn mod_from_groups_reads_both_numbers() {
    assert_eq!(
        mod_from_groups("x".to_string(), Some("7".to_string()), Some("-3".to_string())),
        Ok(RustMod { name: "x".to_string(), val1: Some(7), val2: Some(-3) })
    );
    assert_eq!(
        mod_from_groups("x".to_string(), Some("7".to_string()), Some("seven".to_string())),
        Err(MOD_VALUE_OUT_OF_RANGE.to_string())
    );
}
