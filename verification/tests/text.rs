use poe_indexer::pattern::{capture_group, contains_text, is_match};
use poe_indexer::text::{is_decimal, parse_i16, same_text, truncate_to_i16};

#[test]
fn parse_i16_reads_signed_decimals() {
    assert_eq!(parse_i16("62"), Some(62));
    assert_eq!(parse_i16("+5"), Some(5));
    assert_eq!(parse_i16("-32768"), Some(-32768));
    assert_eq!(parse_i16("32767"), Some(32767));
    assert_eq!(parse_i16("007"), Some(7));
}

#[test]
fn parse_i16_rejects_what_from_str_radix_rejects() {
    assert_eq!(parse_i16("32768"), None);
    assert_eq!(parse_i16("-32769"), None);
    assert_eq!(parse_i16(""), None);
    assert_eq!(parse_i16("-"), None);
    assert_eq!(parse_i16("+"), None);
    assert_eq!(parse_i16("1a"), None);
    assert_eq!(parse_i16("123456789012"), None);
    for s in ["0", "12", "-7", "+30", "x", "", "99999"] {
        assert_eq!(parse_i16(s), i16::from_str_radix(s, 10).ok());
    }
}

#[test]
fn is_decimal_accepts_what_f32_reads() {
    for s in ["1", "1.5", ".5", "1.", "0.0", "523"] {
        assert!(is_decimal(s), "{}", s);
        assert!(s.parse::<f32>().is_ok());
    }
    for s in [".", "", "1.2.3", "1e5", "-1"] {
        assert!(!is_decimal(s), "{}", s);
    }
}

#[test]
fn truncate_to_i16_drops_the_fraction() {
    assert_eq!(truncate_to_i16("12.9"), 12);
    assert_eq!(truncate_to_i16("523"), 523);
    assert_eq!(truncate_to_i16(".5"), 0);
    assert_eq!(truncate_to_i16("99999"), 32767);
    assert_eq!(truncate_to_i16("12.9") as f32, "12.9".parse::<f32>().unwrap() as i16 as f32);
}

#[test]
fn same_text_compares_characters() {
    assert!(same_text("Armour", "Armour"));
    assert!(!same_text("Armour", "Armours"));
    assert!(!same_text("Evasion", "Evasiom"));
}

#[test]
fn pattern_searches() {
    assert!(is_match("(Belt)|(Sash)", "Rustic Sash"));
    assert!(!is_match("(Belt)|(Sash)", "Coral Ring"));
    assert!(contains_text("Map", "Strand Map"));
    assert!(!contains_text("Map", "Strand map"));
    let caps = vec![Some("a".to_string()), None];
    assert_eq!(capture_group(&caps, 0), Some("a".to_string()));
    assert_eq!(capture_group(&caps, 1), None);
    assert_eq!(capture_group(&caps, 5), None);
}
