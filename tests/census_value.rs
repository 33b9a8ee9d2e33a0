use ps2api::census_value::{bool_from_lowered, CensusValue};
use ps2api::json::JsonValue;

fn text(s: &str) -> JsonValue {
    JsonValue::Text(s.to_string())
}

fn number(s: &str) -> JsonValue {
    JsonValue::Number(s.to_string())
}

#[test]
fn empty_and_set_values() {
    let v: CensusValue<u8> = CensusValue::new_empty();
    assert!(v.value.is_none());
    assert!(v.last_updated.is_none());
    let v = CensusValue::new_value(7u64);
    assert_eq!(v.value, Some(7));
    assert!(v.last_updated.is_some());
}

#[test]
fn text_values() {
    let v = CensusValue::<String>::from_json(&text("Name"));
    assert_eq!(v.value, Some("Name".to_string()));
    let mut v = CensusValue::<String>::from_json(&number("3"));
    assert!(v.value.is_none());
    assert!(!v.update(&JsonValue::Null));
    assert!(v.last_updated.is_none());
}

#[test]
fn byte_values() {
    assert_eq!(CensusValue::<u8>::from_json(&number("200")).value, Some(200));
    assert_eq!(CensusValue::<u8>::from_json(&text("42")).value, Some(42));
    assert_eq!(CensusValue::<u8>::from_json(&number("256")).value, None);
    assert_eq!(CensusValue::<u8>::from_json(&number("1.5")).value, None);
    let mut v = CensusValue::<u8>::from_json(&text("9"));
    assert!(!v.update(&text("x")));
    assert_eq!(v.value, Some(9));
}

#[test]
fn counter_values() {
    assert_eq!(CensusValue::<u64>::from_json(&text("18446744073709551615")).value, Some(u64::MAX));
    assert_eq!(CensusValue::<u64>::from_json(&number("-1")).value, None);
}

#[test]
fn flag_values() {
    assert_eq!(CensusValue::<bool>::from_json(&JsonValue::Bool(true)).value, Some(true));
    assert_eq!(CensusValue::<bool>::from_json(&text("TRUE")).value, Some(true));
    assert_eq!(CensusValue::<bool>::from_json(&text("False")).value, Some(false));
    assert_eq!(CensusValue::<bool>::from_json(&text("1")).value, Some(true));
    assert_eq!(CensusValue::<bool>::from_json(&number("0")).value, Some(false));
    assert_eq!(CensusValue::<bool>::from_json(&number("2")).value, None);
    assert_eq!(CensusValue::<bool>::from_json(&text("yes")).value, None);
}

#[test]
fn lowered_words() {
    assert_eq!(bool_from_lowered("true"), Some(true));
    assert_eq!(bool_from_lowered("0"), Some(false));
    assert_eq!(bool_from_lowered("True"), None);
}
