use ps2api::entities::{Achievement, Character};
use ps2api::json::parse_json_object;

const CHARACTER: &str = r#"{"character_id":"5428010618015189713","name":{"first":"Dreadnaut","first_lower":"dreadnaut"},
 "faction_id":"1","head_id":"3","title_id":"80","times":{"creation":"1358195937","last_save":"1388621345",
 "last_login":"1388612233","login_count":"360","minutes_played":"13476"},"certs":{"earned_points":"39457",
 "gifted_points":"1377","spent_points":"40602","available_points":"232","percent_to_next":"0.52"},
 "battle_rank":{"percent_to_next":"48","value":"100"},"profile_id":"17","daily_ribbon":{"count":"0","time":"1388563200"},
 "prestige_level":"0"}"#;

#[test]
fn character_reads_its_record() {
    let json = parse_json_object(CHARACTER).unwrap();
    let c = Character::from_json_value(&json).unwrap();
    assert_eq!(c.id, "5428010618015189713");
    assert_eq!(c.name.value, Some("Dreadnaut".to_string()));
    assert_eq!(c.faction_id.value, Some(1));
    assert_eq!(c.last_updated.value, Some("1388621345".to_string()));
    assert_eq!(c.minutes_played.value, Some(13476));
    assert_eq!(c.certs_available.value, Some(232));
    assert_eq!(c.certs_progress.value, None);
    assert_eq!(c.battle_rank.value, Some(100));
    assert_eq!(c.battle_rank_progress.value, Some(48));
    assert_eq!(c.daily_ribbon_count.value, Some(0));
    assert_eq!(c.is_asp.value, Some(false));
    assert!(c.last_login.last_updated.is_some());
}

#[test]
fn character_without_id() {
    let json = parse_json_object(r#"{"character_id":5}"#).unwrap();
    let err = Character::from_json_value(&json).unwrap_err();
    assert_eq!(err.err_msg, "Could not get character id");
}

#[test]
fn update_keeps_unread_fields() {
    let mut c = Character::new("1".to_string());
    c.update(&parse_json_object(CHARACTER).unwrap());
    c.update(&parse_json_object(r#"{"battle_rank":{"value":"101"}}"#).unwrap());
    assert_eq!(c.battle_rank.value, Some(101));
    assert_eq!(c.name.value, Some("Dreadnaut".to_string()));
}

#[test]
fn achievement_reads_its_record() {
    let mut a = Achievement::new(90217);
    assert!(a.name.value.is_none());
    let json = parse_json_object(
        r#"{"achievement_id":"90217","item_id":"0","name":{"en":"Medic Ribbon","de":"Sanitater"},"reward_id":"4",
        "repeatable":"1","description":{"en":"Heal allies"},"image_set_id":"2","image_id":"3","image_path":"/files/ps2/images/static/3.png"}"#,
    )
    .unwrap();
    a.update(&json);
    assert_eq!(a.id, 90217);
    assert_eq!(a.name.value, Some("Medic Ribbon".to_string()));
    assert_eq!(a.description.value, Some("Heal allies".to_string()));
    assert_eq!(a.repeatable.value, Some(true));
    assert_eq!(a.image_path.value, Some("/files/ps2/images/static/3.png".to_string()));
}
