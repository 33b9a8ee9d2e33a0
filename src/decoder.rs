use vstd::prelude::*;

use crate::api_events::{
    AchievementEarned, BattleRankUp, ContinentLock, ContinentUnlock, Death, FacilityControl,
    GainExperience, ItemAdded, MetagameEvent, PlayerFacilityCapture, PlayerFacilityDefend,
    PlayerLogin, PlayerLogout, SkillAdded, VehicleDestroy,
};
use crate::event_types::{ApiEvent, ApiSubscriptionName};
use crate::json::{json_object_fields, member, parse_json_object, str_eq, JsonFields, JsonLeaf, JsonObject, JsonValue};
use crate::parse_helpers::{field_error_msg, field_ok, first_bad_field, text_member, Layout};
use crate::utils::CensusError;

verus! {

/// The kind of event whose wire name is `name`, if any.
pub open spec fn kind_named(name: Seq<char>) -> Option<ApiSubscriptionName> {
    if name == "PlayerLogin"@ {
        Some(ApiSubscriptionName::PlayerLogin)
    } else if name == "PlayerLogout"@ {
        Some(ApiSubscriptionName::PlayerLogout)
    } else if name == "ContinentLock"@ {
        Some(ApiSubscriptionName::ContinentLock)
    } else if name == "ContinentUnlock"@ {
        Some(ApiSubscriptionName::ContinentUnlock)
    } else if name == "FacilityControl"@ {
        Some(ApiSubscriptionName::FacilityControl)
    } else if name == "MetagameEvent"@ {
        Some(ApiSubscriptionName::MetagameEvent)
    } else if name == "AchievementEarned"@ {
        Some(ApiSubscriptionName::AchievementEarned)
    } else if name == "BattleRankUp"@ {
        Some(ApiSubscriptionName::BattleRankUp)
    } else if name == "Death"@ {
        Some(ApiSubscriptionName::Death)
    } else if name == "ItemAdded"@ {
        Some(ApiSubscriptionName::ItemAdded)
    } else if name == "SkillAdded"@ {
        Some(ApiSubscriptionName::SkillAdded)
    } else if name == "VehicleDestroy"@ {
        Some(ApiSubscriptionName::VehicleDestroy)
    } else if name == "GainExperience"@ {
        Some(ApiSubscriptionName::GainExperience)
    } else if name == "PlayerFacilityCapture"@ {
        Some(ApiSubscriptionName::PlayerFacilityCapture)
    } else if name == "PlayerFacilityDefend"@ {
        Some(ApiSubscriptionName::PlayerFacilityDefend)
    } else {
        None
    }
}

/// The fields read for the event named `name`, or `None` for a name this
/// library does not know.
pub open spec fn layout_for(name: Seq<char>) -> Option<Layout> {
    match kind_named(name) {
        Some(kind) => Some(kind_layout(kind)),
        None => None,
    }
}

/// The message of the error for a payload without a string `event_name`.
pub open spec fn not_service_message_msg() -> Seq<char> {
    "Not a service message"@
}

/// The message of the error for an `event_name` this library does not know.
pub open spec fn unknown_event_msg(name: Seq<char>) -> Seq<char> {
    "Unknown event name: "@ + name
}

/// The message decoding the payload `o` fails with, or `None` where it succeeds.
pub open spec fn decode_failure(o: JsonFields) -> Option<Seq<char>> {
    match text_member(o, "event_name"@) {
        None => Some(not_service_message_msg()),
        Some(name) => match layout_for(name) {
            None => Some(unknown_event_msg(name)),
            Some(layout) => match first_bad_field(o, layout, 0) {
                Some(key) => Some(field_error_msg(key)),
                None => None,
            },
        },
    }
}

/// Whether `ev` is the event that the payload `o` describes: of the kind its
/// `event_name` names, with each field read from the payload.
pub open spec fn event_decoded_from(ev: ApiEvent, o: JsonFields) -> bool {
    &&& ev.subscription() matches Some(kind)
    &&& text_member(o, "event_name"@) == Some(kind.name())
    &&& match ev {
        ApiEvent::PlayerLogin(e) => e.decoded_from(o),
        ApiEvent::PlayerLogout(e) => e.decoded_from(o),
        ApiEvent::ContinentLock(e) => e.decoded_from(o),
        ApiEvent::ContinentUnlock(e) => e.decoded_from(o),
        ApiEvent::FacilityControl(e) => e.decoded_from(o),
        ApiEvent::MetagameEvent(e) => e.decoded_from(o),
        ApiEvent::AchievementEarned(e) => e.decoded_from(o),
        ApiEvent::BattleRankUp(e) => e.decoded_from(o),
        ApiEvent::Death(e) => e.decoded_from(o),
        ApiEvent::ItemAdded(e) => e.decoded_from(o),
        ApiEvent::SkillAdded(e) => e.decoded_from(o),
        ApiEvent::VehicleDestroy(e) => e.decoded_from(o),
        ApiEvent::GainExperience(e) => e.decoded_from(o),
        ApiEvent::PlayerFacilityCapture(e) => e.decoded_from(o),
        ApiEvent::PlayerFacilityDefend(e) => e.decoded_from(o),
        _ => false,
    }
}

/// Decodes the payload of a service message into a typed event, by its
/// `event_name`.
pub fn decode_payload(payload: &JsonObject) -> (r: Result<ApiEvent, CensusError>)
    ensures
        match r {
            Ok(ev) => decode_failure(payload@) is None && event_decoded_from(ev, payload@),
            Err(e) => decode_failure(payload@) == Some(e.err_msg@) && e.parent_err is None,
        },
{
    let name = match payload.get("event_name") {
        Some(JsonValue::Text(name)) => name.as_str(),
        _ => {
            return Err(CensusError::new(String::from_str("Not a service message")));
        },
    };
    proof {
        reveal_strlit("PlayerLogin");
        reveal_strlit("PlayerLogout");
        reveal_strlit("ContinentLock");
        reveal_strlit("ContinentUnlock");
        reveal_strlit("FacilityControl");
        reveal_strlit("MetagameEvent");
        reveal_strlit("AchievementEarned");
        reveal_strlit("BattleRankUp");
        reveal_strlit("Death");
        reveal_strlit("ItemAdded");
        reveal_strlit("SkillAdded");
        reveal_strlit("VehicleDestroy");
        reveal_strlit("GainExperience");
        reveal_strlit("PlayerFacilityCapture");
        reveal_strlit("PlayerFacilityDefend");
    }
    if str_eq(name, ApiSubscriptionName::PlayerLogin.str()) {
        return match PlayerLogin::from_json(payload) {
            Ok(e) => Ok(ApiEvent::PlayerLogin(e)),
            Err(e) => Err(e),
        };
    }
    if str_eq(name, ApiSubscriptionName::PlayerLogout.str()) {
        return match PlayerLogout::from_json(payload) {
            Ok(e) => Ok(ApiEvent::PlayerLogout(e)),
            Err(e) => Err(e),
        };
    }
    if str_eq(name, ApiSubscriptionName::ContinentLock.str()) {
        return match ContinentLock::from_json(payload) {
            Ok(e) => Ok(ApiEvent::ContinentLock(e)),
            Err(e) => Err(e),
        };
    }
    if str_eq(name, ApiSubscriptionName::ContinentUnlock.str()) {
        return match ContinentUnlock::from_json(payload) {
            Ok(e) => Ok(ApiEvent::ContinentUnlock(e)),
            Err(e) => Err(e),
        };
    }
    if str_eq(name, ApiSubscriptionName::FacilityControl.str()) {
        return match FacilityControl::from_json(payload) {
            Ok(e) => Ok(ApiEvent::FacilityControl(e)),
            Err(e) => Err(e),
        };
    }
    if str_eq(name, ApiSubscriptionName::MetagameEvent.str()) {
        return match MetagameEvent::from_json(payload) {
            Ok(e) => Ok(ApiEvent::MetagameEvent(e)),
            Err(e) => Err(e),
        };
    }
    if str_eq(name, ApiSubscriptionName::AchievementEarned.str()) {
        return match AchievementEarned::from_json(payload) {
            Ok(e) => Ok(ApiEvent::AchievementEarned(e)),
            Err(e) => Err(e),
        };
    }
    if str_eq(name, ApiSubscriptionName::BattleRankUp.str()) {
        return match BattleRankUp::from_json(payload) {
            Ok(e) => Ok(ApiEvent::BattleRankUp(e)),
            Err(e) => Err(e),
        };
    }
    if str_eq(name, ApiSubscriptionName::Death.str()) {
        return match Death::from_json(payload) {
            Ok(e) => Ok(ApiEvent::Death(e)),
            Err(e) => Err(e),
        };
    }
    if str_eq(name, ApiSubscriptionName::ItemAdded.str()) {
        return match ItemAdded::from_json(payload) {
            Ok(e) => Ok(ApiEvent::ItemAdded(e)),
            Err(e) => Err(e),
        };
    }
    if str_eq(name, ApiSubscriptionName::SkillAdded.str()) {
        return match SkillAdded::from_json(payload) {
            Ok(e) => Ok(ApiEvent::SkillAdded(e)),
            Err(e) => Err(e),
        };
    }
    if str_eq(name, ApiSubscriptionName::VehicleDestroy.str()) {
        return match VehicleDestroy::from_json(payload) {
            Ok(e) => Ok(ApiEvent::VehicleDestroy(e)),
            Err(e) => Err(e),
        };
    }
    if str_eq(name, ApiSubscriptionName::GainExperience.str()) {
        return match GainExperience::from_json(payload) {
            Ok(e) => Ok(ApiEvent::GainExperience(e)),
            Err(e) => Err(e),
        };
    }
    if str_eq(name, ApiSubscriptionName::PlayerFacilityCapture.str()) {
        return match PlayerFacilityCapture::from_json(payload) {
            Ok(e) => Ok(ApiEvent::PlayerFacilityCapture(e)),
            Err(e) => Err(e),
        };
    }
    if str_eq(name, ApiSubscriptionName::PlayerFacilityDefend.str()) {
        return match PlayerFacilityDefend::from_json(payload) {
            Ok(e) => Ok(ApiEvent::PlayerFacilityDefend(e)),
            Err(e) => Err(e),
        };
    }
    let mut msg = String::from_str("Unknown event name: ");
    msg.append(name);
    Err(CensusError::new(msg))
}

/// The payload object of a service message: its `payload` member read as a
/// JSON object, or the empty object where there is none.
pub open spec fn service_payload(message: JsonFields) -> JsonFields {
    match member(message, "payload"@) {
        Some(JsonLeaf::Object(text)) => match json_object_fields(text) {
            Some(p) => p,
            None => Seq::empty(),
        },
        _ => Seq::empty(),
    }
}

/// Decodes the event that a service message frame carries in its `payload`.
pub fn parse_service_message(message: &JsonObject) -> (r: Result<ApiEvent, CensusError>)
    ensures
        match r {
            Ok(ev) => decode_failure(service_payload(message@)) is None && event_decoded_from(
                ev,
                service_payload(message@),
            ),
            Err(e) => decode_failure(service_payload(message@)) == Some(e.err_msg@)
                && e.parent_err is None,
        },
{
    let payload = match message.get("payload") {
        Some(JsonValue::Object(text)) => match parse_json_object(text.as_str()) {
            Ok(p) => p,
            Err(_) => JsonObject { members: Vec::new() },
        },
        _ => JsonObject { members: Vec::new() },
    };
    assert(payload@ == service_payload(message@)) by {
        if payload.members@.len() == 0 {
            assert(payload@ =~= Seq::<(Seq<char>, JsonLeaf)>::empty());
        }
    }
    decode_payload(&payload)
}

/// The fields read for events of `kind`.
pub open spec fn kind_layout(kind: ApiSubscriptionName) -> Layout {
    match kind {
        ApiSubscriptionName::PlayerLogin => PlayerLogin::layout(),
        ApiSubscriptionName::PlayerLogout => PlayerLogout::layout(),
        ApiSubscriptionName::ContinentLock => ContinentLock::layout(),
        ApiSubscriptionName::ContinentUnlock => ContinentUnlock::layout(),
        ApiSubscriptionName::FacilityControl => FacilityControl::layout(),
        ApiSubscriptionName::MetagameEvent => MetagameEvent::layout(),
        ApiSubscriptionName::AchievementEarned => AchievementEarned::layout(),
        ApiSubscriptionName::BattleRankUp => BattleRankUp::layout(),
        ApiSubscriptionName::Death => Death::layout(),
        ApiSubscriptionName::ItemAdded => ItemAdded::layout(),
        ApiSubscriptionName::SkillAdded => SkillAdded::layout(),
        ApiSubscriptionName::VehicleDestroy => VehicleDestroy::layout(),
        ApiSubscriptionName::GainExperience => GainExperience::layout(),
        ApiSubscriptionName::PlayerFacilityCapture => PlayerFacilityCapture::layout(),
        ApiSubscriptionName::PlayerFacilityDefend => PlayerFacilityDefend::layout(),
    }
}

/// Whether the payload `o` holds every field that events of `kind` read, in
/// readable form.
pub open spec fn well_formed(o: JsonFields, kind: ApiSubscriptionName) -> bool {
    first_bad_field(o, kind_layout(kind), 0) is None
}

proof fn lemma_layout_for_kind(kind: ApiSubscriptionName)
    ensures
        kind_named(kind.name()) == Some(kind),
        layout_for(kind.name()) == Some(kind_layout(kind)),
{
    reveal_strlit("PlayerLogin");
    reveal_strlit("PlayerLogout");
    reveal_strlit("ContinentLock");
    reveal_strlit("ContinentUnlock");
    reveal_strlit("FacilityControl");
    reveal_strlit("MetagameEvent");
    reveal_strlit("AchievementEarned");
    reveal_strlit("BattleRankUp");
    reveal_strlit("Death");
    reveal_strlit("ItemAdded");
    reveal_strlit("SkillAdded");
    reveal_strlit("VehicleDestroy");
    reveal_strlit("GainExperience");
    reveal_strlit("PlayerFacilityCapture");
    reveal_strlit("PlayerFacilityDefend");
    assert("PlayerLogin"@.len() == 11 && "PlayerLogin"@[0] == 'P');
    assert("PlayerLogout"@.len() == 12 && "PlayerLogout"@[0] == 'P');
    assert("ContinentLock"@.len() == 13 && "ContinentLock"@[0] == 'C');
    assert("ContinentUnlock"@.len() == 15 && "ContinentUnlock"@[0] == 'C');
    assert("FacilityControl"@.len() == 15 && "FacilityControl"@[0] == 'F');
    assert("MetagameEvent"@.len() == 13 && "MetagameEvent"@[0] == 'M');
    assert("AchievementEarned"@.len() == 17 && "AchievementEarned"@[0] == 'A');
    assert("BattleRankUp"@.len() == 12 && "BattleRankUp"@[0] == 'B');
    assert("Death"@.len() == 5 && "Death"@[0] == 'D');
    assert("ItemAdded"@.len() == 9 && "ItemAdded"@[0] == 'I');
    assert("SkillAdded"@.len() == 10 && "SkillAdded"@[0] == 'S');
    assert("VehicleDestroy"@.len() == 14 && "VehicleDestroy"@[0] == 'V');
    assert("GainExperience"@.len() == 14 && "GainExperience"@[0] == 'G');
    assert("PlayerFacilityCapture"@.len() == 21 && "PlayerFacilityCapture"@[0] == 'P');
    assert("PlayerFacilityDefend"@.len() == 20 && "PlayerFacilityDefend"@[0] == 'P');
    match kind {
        ApiSubscriptionName::PlayerLogin => {},
        ApiSubscriptionName::PlayerLogout => {},
        ApiSubscriptionName::ContinentLock => {},
        ApiSubscriptionName::ContinentUnlock => {},
        ApiSubscriptionName::FacilityControl => {},
        ApiSubscriptionName::MetagameEvent => {},
        ApiSubscriptionName::AchievementEarned => {},
        ApiSubscriptionName::BattleRankUp => {},
        ApiSubscriptionName::Death => {},
        ApiSubscriptionName::ItemAdded => {},
        ApiSubscriptionName::SkillAdded => {},
        ApiSubscriptionName::VehicleDestroy => {},
        ApiSubscriptionName::GainExperience => {},
        ApiSubscriptionName::PlayerFacilityCapture => {},
        ApiSubscriptionName::PlayerFacilityDefend => {},
    }
}

proof fn lemma_first_bad_is_bad(o: JsonFields, l: Layout, i: int)
    requires
        0 <= i,
    ensures
        first_bad_field(o, l, i) matches Some(k) ==> exists|j: int|
            i <= j < l.len() && l[j].0 == k && !field_ok(o, l[j].0, #[trigger] l[j].1),
    decreases l.len() - i,
{
    if i < l.len() && field_ok(o, l[i].0, l[i].1) {
        lemma_first_bad_is_bad(o, l, i + 1);
    }
}

proof fn lemma_first_bad_single(o: JsonFields, l: Layout, i: int, b: int)
    requires
        0 <= i <= b < l.len(),
        !field_ok(o, l[b].0, l[b].1),
        forall|j: int| i <= j < l.len() && j != b ==> field_ok(o, l[j].0, #[trigger] l[j].1),
    ensures
        first_bad_field(o, l, i) == Some(l[b].0),
    decreases b - i,
{
    if i < b {
        lemma_first_bad_single(o, l, i + 1, b);
    }
}

/// A payload that names a kind of event and holds each field that kind reads
/// decodes without error; the event decoded is of that kind, and each of its
/// fields is the payload's field of that name, read as its kind.
pub proof fn lemma_well_formed_payload_decodes(o: JsonFields, kind: ApiSubscriptionName)
    requires
        text_member(o, "event_name"@) == Some(kind.name()),
        well_formed(o, kind),
    ensures
        decode_failure(o) is None,
        forall|ev: ApiEvent| #[trigger] event_decoded_from(ev, o) ==> ev.subscription() == Some(kind),
{
    lemma_layout_for_kind(kind);
    assert forall|ev: ApiEvent| #[trigger] event_decoded_from(ev, o) implies ev.subscription() == Some(kind) by {
        let k = ev.subscription().unwrap();
        assert(k.name() == kind.name());
        lemma_kind_name_injective(k, kind);
    }
}

/// Two kinds with the same wire name are the same kind.
pub proof fn lemma_kind_name_injective(a: ApiSubscriptionName, b: ApiSubscriptionName)
    requires
        a.name() == b.name(),
    ensures
        a == b,
{
    lemma_layout_for_kind(a);
    lemma_layout_for_kind(b);
}

/// A payload of a known kind that lacks one field the kind reads, and holds
/// all the others, fails with the error that names the missing field.
pub proof fn lemma_missing_field_is_named(o: JsonFields, kind: ApiSubscriptionName, i: int)
    requires
        text_member(o, "event_name"@) == Some(kind.name()),
        0 <= i < kind_layout(kind).len(),
        member(o, kind_layout(kind)[i].0) is None,
        forall|j: int|
            0 <= j < kind_layout(kind).len() && j != i ==> field_ok(
                o,
                kind_layout(kind)[j].0,
                #[trigger] kind_layout(kind)[j].1,
            ),
    ensures
        decode_failure(o) == Some(field_error_msg(kind_layout(kind)[i].0)),
{
    lemma_layout_for_kind(kind);
    lemma_first_bad_single(o, kind_layout(kind), 0, i);
}

/// When a payload of a known kind fails to decode, the error names a field
/// the kind reads that the payload lacks or holds in unreadable form.
pub proof fn lemma_decode_failure_names_field(o: JsonFields, kind: ApiSubscriptionName)
    requires
        text_member(o, "event_name"@) == Some(kind.name()),
        decode_failure(o) is Some,
    ensures
        exists|j: int|
            0 <= j < kind_layout(kind).len() && decode_failure(o) == Some(
                field_error_msg(kind_layout(kind)[j].0),
            ) && !field_ok(o, kind_layout(kind)[j].0, #[trigger] kind_layout(kind)[j].1),
{
    lemma_layout_for_kind(kind);
    lemma_first_bad_is_bad(o, kind_layout(kind), 0);
}

/// A payload whose `event_name` no kind has fails with the unknown-name error,
/// which differs from every field error and from the not-a-service-message error.
pub proof fn lemma_unknown_name_is_distinct(o: JsonFields, name: Seq<char>, key: Seq<char>)
    requires
        text_member(o, "event_name"@) == Some(name),
        forall|kind: ApiSubscriptionName| kind.name() != name,
    ensures
        decode_failure(o) == Some(unknown_event_msg(name)),
        unknown_event_msg(name) != field_error_msg(key),
        unknown_event_msg(name) != not_service_message_msg(),
{
    assert(ApiSubscriptionName::PlayerLogin.name() != name);
    assert(ApiSubscriptionName::PlayerLogout.name() != name);
    assert(ApiSubscriptionName::ContinentLock.name() != name);
    assert(ApiSubscriptionName::ContinentUnlock.name() != name);
    assert(ApiSubscriptionName::FacilityControl.name() != name);
    assert(ApiSubscriptionName::MetagameEvent.name() != name);
    assert(ApiSubscriptionName::AchievementEarned.name() != name);
    assert(ApiSubscriptionName::BattleRankUp.name() != name);
    assert(ApiSubscriptionName::Death.name() != name);
    assert(ApiSubscriptionName::ItemAdded.name() != name);
    assert(ApiSubscriptionName::SkillAdded.name() != name);
    assert(ApiSubscriptionName::VehicleDestroy.name() != name);
    assert(ApiSubscriptionName::GainExperience.name() != name);
    assert(ApiSubscriptionName::PlayerFacilityCapture.name() != name);
    assert(ApiSubscriptionName::PlayerFacilityDefend.name() != name);
    reveal_strlit("Unknown event name: ");
    reveal_strlit("Malformed service message: could not parse field '");
    reveal_strlit("Not a service message");
    assert(unknown_event_msg(name)[0] == 'U');
    assert(field_error_msg(key)[0] == 'M');
    assert(not_service_message_msg()[0] == 'N');
}

} // verus!
