use ps2api::api_command::{ApiCommand, Echo, Subscribe};
use ps2api::event_types::ApiSubscriptionName;

#[test]
fn subscribe_round_trip() {
    let sub = Subscribe {
        subscription_names: vec![ApiSubscriptionName::AchievementEarned],
        character_ids: Some(vec!["all".to_string()]),
        server_ids: Some(vec!["all".to_string()]),
        match_chars_and_world: Some(true),
    };
    let text = sub.to_json();
    let v: serde_json::Value = serde_json::from_str(&text).unwrap();
    assert_eq!(v["eventNames"], serde_json::Value::Array(vec![serde_json::Value::String("AchievementEarned".to_string())]));
    assert_eq!(v["characters"], serde_json::Value::Array(vec![serde_json::Value::String("all".to_string())]));
    assert_eq!(v["worlds"], serde_json::Value::Array(vec![serde_json::Value::String("all".to_string())]));
    assert_eq!(v["service"], serde_json::Value::String("event".to_string()));
    assert_eq!(v["action"], serde_json::Value::String("subscribe".to_string()));
    assert_eq!(v["logicalAndCharactersWithWorlds"], serde_json::Value::Bool(true));
}

#[test]
fn subscribe_exact_text() {
    let sub = Subscribe {
        subscription_names: vec![ApiSubscriptionName::AchievementEarned],
        character_ids: Some(vec!["all".to_string()]),
        server_ids: Some(vec!["all".to_string()]),
        match_chars_and_world: Some(true),
    };
    assert_eq!(
        sub.to_json(),
        r#"{"action":"subscribe","characters":["all"],"eventNames":["AchievementEarned"],"logicalAndCharactersWithWorlds":true,"service":"event","worlds":["all"]}"#
    );
}

#[test]
fn subscribe_defaults() {
    let sub = Subscribe {
        subscription_names: vec![ApiSubscriptionName::Death, ApiSubscriptionName::PlayerLogin],
        character_ids: None,
        server_ids: None,
        match_chars_and_world: None,
    };
    assert_eq!(
        sub.to_json(),
        r#"{"action":"subscribe","characters":[],"eventNames":["Death","PlayerLogin"],"logicalAndCharactersWithWorlds":false,"service":"event","worlds":[]}"#
    );
}

#[test]
fn subscribe_escapes_strings() {
    let sub = Subscribe {
        subscription_names: vec![],
        character_ids: Some(vec!["a\"b".to_string(), "c\\d".to_string()]),
        server_ids: Some(vec!["1".to_string(), "13".to_string()]),
        match_chars_and_world: Some(false),
    };
    let text = sub.to_json();
    let v: serde_json::Value = serde_json::from_str(&text).unwrap();
    assert_eq!(v["characters"][0], serde_json::Value::String("a\"b".to_string()));
    assert_eq!(v["characters"][1], serde_json::Value::String("c\\d".to_string()));
    assert_eq!(v["worlds"][1], serde_json::Value::String("13".to_string()));
    assert_eq!(v["eventNames"], serde_json::Value::Array(vec![]));
}

#[test]
fn echo_text() {
    let echo = Echo { payload: r#"{"test":"hello"}"#.to_string() };
    assert_eq!(echo.to_json(), r#"{"action":"echo","payload":{"test":"hello"},"service":"event"}"#);
}
