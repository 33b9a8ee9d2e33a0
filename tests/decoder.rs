use ps2api::decoder::{decode_payload, parse_service_message};
use ps2api::event_types::{ApiCharacterEvents, ApiEvent, ApiEventTypes, ApiSubscriptionName};
use ps2api::json::{parse_json_object, JsonObject};
use ps2api::utils::CensusError;

fn object(text: &str) -> JsonObject {
    parse_json_object(text).expect("test input is a JSON object")
}

fn decode(text: &str) -> Result<ApiEvent, CensusError> {
    decode_payload(&object(text))
}

fn field_error(key: &str) -> String {
    format!("Malformed service message: could not parse field '{}'", key)
}

const ZONE_FIELDS: &str = r#""character_id":"5428010618015189713","timestamp":"1384999997","world_id":"17","zone_id":"2""#;

#[test]
fn achievement_earned_decodes() {
    let text = format!(r#"{{"event_name":"AchievementEarned","achievement_id":"90217",{}}}"#, ZONE_FIELDS);
    match decode(&text) {
        Ok(ApiEvent::AchievementEarned(e)) => {
            assert_eq!(e.character_id, "5428010618015189713");
            assert_eq!(e.timestamp, "1384999997");
            assert_eq!(e.world_id, 17);
            assert_eq!(e.zone_id, 2);
            assert_eq!(e.achievement_id, 90217);
        }
        other => panic!("unexpected {:?}", other),
    }
}

#[test]
fn player_login_decodes() {
    let text = r#"{"event_name":"PlayerLogin","character_id":"123","timestamp":"99","world_id":"13"}"#;
    match decode(text) {
        Ok(ApiEvent::PlayerLogin(e)) => {
            assert_eq!(e.character_id, "123");
            assert_eq!(e.timestamp, "99");
            assert_eq!(e.world_id, 13);
        }
        other => panic!("unexpected {:?}", other),
    }
}

#[test]
fn player_logout_decodes() {
    let text = r#"{"event_name":"PlayerLogout","character_id":"124","timestamp":"100","world_id":"1"}"#;
    match decode(text) {
        Ok(ApiEvent::PlayerLogout(e)) => {
            assert_eq!(e.character_id, "124");
            assert_eq!(e.world_id, 1);
        }
        other => panic!("unexpected {:?}", other),
    }
}

#[test]
fn continent_lock_decodes() {
    let text = r#"{"event_name":"ContinentLock","timestamp":"5","world_id":"10","zone_id":"8",
        "triggering_faction":"2","previous_faction":"1","vs_population":"30","nc_population":"40",
        "tr_population":"30","metagame_event_id":"147","event_type":"lock"}"#;
    match decode(text) {
        Ok(ApiEvent::ContinentLock(e)) => {
            assert_eq!(e.zone_id, 8);
            assert_eq!(e.triggering_faction, "2");
            assert_eq!(e.nc_population, "40");
            assert_eq!(e.event_type, "lock");
        }
        other => panic!("unexpected {:?}", other),
    }
}

#[test]
fn continent_unlock_decodes() {
    let text = r#"{"event_name":"ContinentUnlock","timestamp":"5","world_id":"10","zone_id":"6",
        "triggering_faction":"3","previous_faction":"1","vs_population":"30","nc_population":"40",
        "tr_population":"30","metagame_event_id":"148","event_type":"unlock"}"#;
    match decode(text) {
        Ok(ApiEvent::ContinentUnlock(e)) => {
            assert_eq!(e.zone_id, 6);
            assert_eq!(e.metagame_event_id, "148");
        }
        other => panic!("unexpected {:?}", other),
    }
}

#[test]
fn facility_control_decodes() {
    let text = r#"{"event_name":"FacilityControl","timestamp":"5","world_id":"17","zone_id":"4",
        "facility_id":"222280","new_faction_id":"3","old_faction_id":"2","outfit_id":"0","duration_held":"3600"}"#;
    match decode(text) {
        Ok(ApiEvent::FacilityControl(e)) => {
            assert_eq!(e.facility_id, "222280");
            assert_eq!(e.new_faction_id, 3);
            assert_eq!(e.old_faction_id, 2);
            assert_eq!(e.duration_held, "3600");
        }
        other => panic!("unexpected {:?}", other),
    }
}

#[test]
fn metagame_event_decodes() {
    let text = r#"{"event_name":"MetagameEvent","timestamp":"5","world_id":"17","zone_id":"4",
        "experience_bonus":"25.0","faction_nc":"33.3","faction_tr":"33.3","faction_vs":"33.3",
        "metagame_event_id":"211","metagame_event_state":"135"}"#;
    match decode(text) {
        Ok(ApiEvent::MetagameEvent(e)) => {
            assert_eq!(e.experience_bonus, "25.0");
            assert_eq!(e.metagame_event_state, "135");
        }
        other => panic!("unexpected {:?}", other),
    }
}

#[test]
fn battle_rank_up_decodes() {
    let text = format!(r#"{{"event_name":"BattleRankUp","battle_rank":"120",{}}}"#, ZONE_FIELDS);
    match decode(&text) {
        Ok(ApiEvent::BattleRankUp(e)) => assert_eq!(e.battle_rank, 120),
        other => panic!("unexpected {:?}", other),
    }
}

#[test]
fn death_decodes_flags_from_digit_strings() {
    let text = format!(
        r#"{{"event_name":"Death","attacker_character_id":"1","attacker_fire_mode_id":"2","attacker_loadout_id":"3",
        "attacker_vehicle_id":"0","attacker_weapon_id":"80","character_loadout_id":"4","is_critical":"0",
        "is_headshot":"1","vehicle_id":"0",{}}}"#,
        ZONE_FIELDS
    );
    match decode(&text) {
        Ok(ApiEvent::Death(e)) => {
            assert_eq!(e.attacker_weapon_id, "80");
            assert!(!e.is_critical);
            assert!(e.is_headshot);
            assert_eq!(e.world_id, 17);
        }
        other => panic!("unexpected {:?}", other),
    }
}

#[test]
fn death_rejects_boolean_flag() {
    let text = format!(
        r#"{{"event_name":"Death","attacker_character_id":"1","attacker_fire_mode_id":"2","attacker_loadout_id":"3",
        "attacker_vehicle_id":"0","attacker_weapon_id":"80","character_loadout_id":"4","is_critical":false,
        "is_headshot":"1","vehicle_id":"0",{}}}"#,
        ZONE_FIELDS
    );
    let err = decode(&text).unwrap_err();
    assert_eq!(err.err_msg, field_error("is_critical"));
}

#[test]
fn item_added_decodes() {
    let text = format!(
        r#"{{"event_name":"ItemAdded","context":"vendor","item_count":"18446744073709551615","item_id":"7",{}}}"#,
        ZONE_FIELDS
    );
    match decode(&text) {
        Ok(ApiEvent::ItemAdded(e)) => {
            assert_eq!(e.item_count, u64::MAX);
            assert_eq!(e.item_id, "7");
            assert_eq!(e.context, "vendor");
        }
        other => panic!("unexpected {:?}", other),
    }
}

#[test]
fn skill_added_decodes() {
    let text = format!(r#"{{"event_name":"SkillAdded","skill_id":"55",{}}}"#, ZONE_FIELDS);
    match decode(&text) {
        Ok(ApiEvent::SkillAdded(e)) => assert_eq!(e.skill_id, "55"),
        other => panic!("unexpected {:?}", other),
    }
}

#[test]
fn vehicle_destroy_decodes() {
    let text = format!(
        r#"{{"event_name":"VehicleDestroy","attacker_character_id":"9","attacker_loadout_id":"8",
        "attacker_vehicle_id":"7","attacker_weapon_id":"6","facility_id":"0","faction_id":"2","vehicle_id":"4",{}}}"#,
        ZONE_FIELDS
    );
    match decode(&text) {
        Ok(ApiEvent::VehicleDestroy(e)) => {
            assert_eq!(e.attacker_character_id, "9");
            assert_eq!(e.faction_id, 2);
            assert_eq!(e.vehicle_id, "4");
        }
        other => panic!("unexpected {:?}", other),
    }
}

#[test]
fn gain_experience_decodes() {
    let text = format!(
        r#"{{"event_name":"GainExperience","amount":"100","experience_id":"1","loudout_id":"3","other_id":"0",{}}}"#,
        ZONE_FIELDS
    );
    match decode(&text) {
        Ok(ApiEvent::GainExperience(e)) => {
            assert_eq!(e.amount, "100");
            assert_eq!(e.loudout_id, "3");
        }
        other => panic!("unexpected {:?}", other),
    }
}

#[test]
fn facility_capture_and_defend_decode() {
    let capture = format!(r#"{{"event_name":"PlayerFacilityCapture","facility_id":"1","outfit_id":"2",{}}}"#, ZONE_FIELDS);
    let defend = format!(r#"{{"event_name":"PlayerFacilityDefend","facility_id":"3","outfit_id":"4",{}}}"#, ZONE_FIELDS);
    match decode(&capture) {
        Ok(ApiEvent::PlayerFacilityCapture(e)) => assert_eq!(e.outfit_id, "2"),
        other => panic!("unexpected {:?}", other),
    }
    match decode(&defend) {
        Ok(ApiEvent::PlayerFacilityDefend(e)) => assert_eq!(e.facility_id, "3"),
        other => panic!("unexpected {:?}", other),
    }
}

#[test]
fn numeric_json_accepted_for_integer_fields() {
    let text = r#"{"event_name":"PlayerLogin","character_id":"1","timestamp":"2","world_id":25}"#;
    match decode(text) {
        Ok(ApiEvent::PlayerLogin(e)) => assert_eq!(e.world_id, 25),
        other => panic!("unexpected {:?}", other),
    }
}

#[test]
fn world_id_over_eight_bits_is_rejected() {
    let text = r#"{"event_name":"PlayerLogin","character_id":"1","timestamp":"2","world_id":"256"}"#;
    let err = decode(text).unwrap_err();
    assert_eq!(err.err_msg, field_error("world_id"));
    assert!(err.parent_err.is_none());
}

#[test]
fn missing_field_is_named() {
    let text = r#"{"event_name":"PlayerLogin","character_id":"1","world_id":"2"}"#;
    let err = decode(text).unwrap_err();
    assert_eq!(err.err_msg, field_error("timestamp"));
}

#[test]
fn first_missing_field_is_named() {
    let text = r#"{"event_name":"AchievementEarned","timestamp":"2"}"#;
    let err = decode(text).unwrap_err();
    assert_eq!(err.err_msg, field_error("character_id"));
}

#[test]
fn text_field_given_as_number_is_rejected() {
    let text = r#"{"event_name":"PlayerLogin","character_id":5,"timestamp":"2","world_id":"2"}"#;
    let err = decode(text).unwrap_err();
    assert_eq!(err.err_msg, field_error("character_id"));
}

#[test]
fn unknown_event_name_is_distinct() {
    let err = decode(r#"{"event_name":"Teleport","character_id":"1"}"#).unwrap_err();
    assert_eq!(err.err_msg, "Unknown event name: Teleport");
    assert!(!err.err_msg.contains("could not parse field"));
}

#[test]
fn payload_without_event_name_is_not_a_service_message() {
    let err = decode(r#"{"character_id":"1"}"#).unwrap_err();
    assert_eq!(err.err_msg, "Not a service message");
}

#[test]
fn service_message_frame_decodes_its_payload() {
    let frame = object(
        r#"{"payload":{"achievement_id":"90217","character_id":"5428010618015189713","event_name":"AchievementEarned","timestamp":"1384999997","world_id":"1","zone_id":"2"},"service":"event","type":"serviceMessage"}"#,
    );
    match parse_service_message(&frame) {
        Ok(ev) => match ev.to_type() {
            ApiEventTypes::Character(ApiCharacterEvents::AchievementEarned(e)) => {
                assert_eq!(e.achievement_id, 90217);
                assert_eq!(e.world_id, 1);
            }
            other => panic!("unexpected {:?}", other),
        },
        Err(e) => panic!("unexpected {:?}", e),
    }
}

#[test]
fn service_message_without_payload_object() {
    let frame = object(r#"{"payload":"nothing","type":"serviceMessage"}"#);
    assert_eq!(parse_service_message(&frame).unwrap_err().err_msg, "Not a service message");
}

#[test]
fn subscription_names_are_wire_names() {
    assert_eq!(ApiSubscriptionName::AchievementEarned.str(), "AchievementEarned");
    assert_eq!(ApiSubscriptionName::PlayerFacilityDefend.str(), "PlayerFacilityDefend");
    assert_eq!(ApiSubscriptionName::Death.str(), "Death");
}
