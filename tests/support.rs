use ps2api::json::{parse_decimal, parse_json_object, quote_json_string, str_eq, JsonValue};
use ps2api::rest::{CharacterClass, CharacterResolves, Resolveable};
use ps2api::utils::CensusError;
use ps2api::text::{join_commas, u64_to_decimal, u8_to_decimal};
use ps2api::worlds::{World, Worlds};

#[test]
fn decimal_parsing() {
    assert_eq!(parse_decimal("0", 255), Some(0));
    assert_eq!(parse_decimal("255", 255), Some(255));
    assert_eq!(parse_decimal("+7", 255), Some(7));
    assert_eq!(parse_decimal("256", 255), None);
    assert_eq!(parse_decimal("", 255), None);
    assert_eq!(parse_decimal("+", 255), None);
    assert_eq!(parse_decimal("-1", 255), None);
    assert_eq!(parse_decimal("1a", 255), None);
    assert_eq!(parse_decimal("18446744073709551615", u64::MAX), Some(u64::MAX));
    assert_eq!(parse_decimal("18446744073709551616", u64::MAX), None);
    assert_eq!(parse_decimal("007", 255), Some(7));
}

#[test]
fn json_members() {
    let o = parse_json_object(r#"{"a":null,"b":true,"c":12,"d":"x","e":[1,2],"f":{"g":1}}"#).unwrap();
    assert!(matches!(o.get("a"), Some(JsonValue::Null)));
    assert!(matches!(o.get("b"), Some(JsonValue::Bool(true))));
    match o.get("c") {
        Some(JsonValue::Number(n)) => assert_eq!(n, "12"),
        other => panic!("unexpected {:?}", other),
    }
    match o.get("e") {
        Some(JsonValue::Array(t)) => assert_eq!(t, "[1,2]"),
        other => panic!("unexpected {:?}", other),
    }
    match o.get("f") {
        Some(JsonValue::Object(t)) => assert_eq!(t, r#"{"g":1}"#),
        other => panic!("unexpected {:?}", other),
    }
    assert!(o.get("z").is_none());
    assert!(parse_json_object("[1]").is_err());
    assert!(parse_json_object("{").is_err());
}

#[test]
fn quoting() {
    assert_eq!(quote_json_string("all"), "\"all\"");
    assert_eq!(quote_json_string("a\"b\n"), "\"a\\\"b\\n\"");
}

#[test]
fn string_equality() {
    assert!(str_eq("abc", "abc"));
    assert!(!str_eq("abc", "abd"));
    assert!(!str_eq("abc", "ab"));
}

#[test]
fn character_classes() {
    assert_eq!(CharacterClass::new("light assault"), Some(CharacterClass::LightAssault));
    assert_eq!(CharacterClass::new("combat_medic"), Some(CharacterClass::CombatMedic));
    assert_eq!(CharacterClass::new("7"), Some(CharacterClass::Max));
    assert_eq!(CharacterClass::new("2"), None);
    assert_eq!(CharacterClass::HeavyAssault.to_id(), "6");
    assert_eq!(CharacterClass::new(&CharacterClass::Engineer.to_id()), Some(CharacterClass::Engineer));
}

#[test]
fn character_resolves() {
    assert_eq!(CharacterResolves::from_resolve_string("weapon_stat"), Some(CharacterResolves::WeaponStat));
    assert_eq!(CharacterResolves::from_resolve_string("nothing"), None);
    assert_eq!(CharacterResolves::OutfitMemberExtended.to_resolve_string(), "outfit_member_extended");
    let r = CharacterResolves::OutfitMember;
    assert_eq!(CharacterResolves::from_resolve_string(&r.to_resolve_string()), Some(r));
}

#[test]
fn world_ids() {
    assert_eq!(Worlds::COBALT.id_u8(), 13);
    assert_eq!(Worlds::CONNERY.id_string(), "1");
    assert_eq!(Worlds::SOLTECH.id_string(), "40");
    assert_eq!(u8_to_decimal(255), "255");
    assert_eq!(u8_to_decimal(100), "100");
    assert_eq!(u8_to_decimal(0), "0");
}

#[test]
fn error_text() {
    let e = CensusError::new("boom".to_string());
    assert_eq!(e.to_string(), "Census Error: boom");
    let e = CensusError::with_parent("boom".to_string(), "cause".to_string());
    assert_eq!(e.to_string(), "Census Error: boom \nParent Error: cause");
}


#[test]
fn decimal_and_join() {
    assert_eq!(u64_to_decimal(0), "0");
    assert_eq!(u64_to_decimal(1234567890), "1234567890");
    assert_eq!(u64_to_decimal(u64::MAX), "18446744073709551615");
    assert_eq!(join_commas(&vec!["a".to_string(), "b".to_string(), "c".to_string()]), "a,b,c");
    assert_eq!(join_commas(&vec![]), "");
}
