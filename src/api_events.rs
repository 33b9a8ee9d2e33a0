use vstd::prelude::*;

use crate::json::{JsonFields, JsonObject};
use crate::parse_helpers::{
    first_bad_field, flag_member, is_field_error, parse_bool_from_numstr, parse_character_id,
    parse_string, parse_timestamp, parse_world_id, parse_zone_id, text_member, try_parse_to,
    unsigned_member, FieldKind, Layout,
};
use crate::utils::CensusError;

verus! {

/// The event service's state changed.
#[derive(Debug)]
pub struct ServiceStateChange {
    pub endpoint: String,
    pub online: bool,
}

/// The connection's state changed.
#[derive(Debug)]
pub struct ConnectionStateChange {
    pub connected: bool,
}

/// A character logged in.
#[derive(Debug)]
pub struct PlayerLogin {
    pub character_id: String,
    pub world_id: u8,
    pub timestamp: String,
}

impl PlayerLogin {
    /// The payload fields this event reads, in order.
    pub open spec fn layout() -> Layout {
        seq![
            ("character_id"@, FieldKind::Text),
            ("timestamp"@, FieldKind::Text),
            ("world_id"@, FieldKind::Unsigned(0xff)),
        ]
    }

    /// Whether each field of `self` is the payload's field of that name, read as its kind.
    pub open spec fn decoded_from(self, o: JsonFields) -> bool {
        &&& text_member(o, "character_id"@) == Some(self.character_id@)
        &&& text_member(o, "timestamp"@) == Some(self.timestamp@)
        &&& unsigned_member(o, "world_id"@, 0xff) == Some(self.world_id as int)
    }

    /// Reads the event from its payload object.
    pub fn from_json(json: &JsonObject) -> (r: Result<Self, CensusError>)
        ensures
            match r {
                Ok(e) => first_bad_field(json@, Self::layout(), 0) is None && e.decoded_from(json@),
                Err(e) => first_bad_field(json@, Self::layout(), 0) matches Some(k) && is_field_error(e, k),
            },
    {
        proof {
            reveal_with_fuel(first_bad_field, 4);
        }
        let character_id = match parse_character_id(json) {
            Ok(v) => v,
            Err(e) => return Err(e),
        };
        let timestamp = match parse_timestamp(json) {
            Ok(v) => v,
            Err(e) => return Err(e),
        };
        let world_id = match parse_world_id(json) {
            Ok(v) => v,
            Err(e) => return Err(e),
        };
        Ok(PlayerLogin {
            character_id,
            world_id,
            timestamp,
        })
    }
}

/// A character logged out.
#[derive(Debug)]
pub struct PlayerLogout {
    pub character_id: String,
    pub world_id: u8,
    pub timestamp: String,
}

impl PlayerLogout {
    /// The payload fields this event reads, in order.
    pub open spec fn layout() -> Layout {
        seq![
            ("character_id"@, FieldKind::Text),
            ("timestamp"@, FieldKind::Text),
            ("world_id"@, FieldKind::Unsigned(0xff)),
        ]
    }

    /// Whether each field of `self` is the payload's field of that name, read as its kind.
    pub open spec fn decoded_from(self, o: JsonFields) -> bool {
        &&& text_member(o, "character_id"@) == Some(self.character_id@)
        &&& text_member(o, "timestamp"@) == Some(self.timestamp@)
        &&& unsigned_member(o, "world_id"@, 0xff) == Some(self.world_id as int)
    }

    /// Reads the event from its payload object.
    pub fn from_json(json: &JsonObject) -> (r: Result<Self, CensusError>)
        ensures
            match r {
                Ok(e) => first_bad_field(json@, Self::layout(), 0) is None && e.decoded_from(json@),
                Err(e) => first_bad_field(json@, Self::layout(), 0) matches Some(k) && is_field_error(e, k),
            },
    {
        proof {
            reveal_with_fuel(first_bad_field, 4);
        }
        let character_id = match parse_character_id(json) {
            Ok(v) => v,
            Err(e) => return Err(e),
        };
        let timestamp = match parse_timestamp(json) {
            Ok(v) => v,
            Err(e) => return Err(e),
        };
        let world_id = match parse_world_id(json) {
            Ok(v) => v,
            Err(e) => return Err(e),
        };
        Ok(PlayerLogout {
            character_id,
            world_id,
            timestamp,
        })
    }
}

/// A continent was locked.
#[derive(Debug)]
pub struct ContinentLock {
    pub timestamp: String,
    pub world_id: u8,
    pub zone_id: u32,
    pub triggering_faction: String,
    pub previous_faction: String,
    pub vs_population: String,
    pub nc_population: String,
    pub tr_population: String,
    pub metagame_event_id: String,
    pub event_type: String,
}

impl ContinentLock {
    /// The payload fields this event reads, in order.
    pub open spec fn layout() -> Layout {
        seq![
            ("timestamp"@, FieldKind::Text),
            ("world_id"@, FieldKind::Unsigned(0xff)),
            ("zone_id"@, FieldKind::Unsigned(0xffff_ffff)),
            ("triggering_faction"@, FieldKind::Text),
            ("previous_faction"@, FieldKind::Text),
            ("vs_population"@, FieldKind::Text),
            ("nc_population"@, FieldKind::Text),
            ("tr_population"@, FieldKind::Text),
            ("metagame_event_id"@, FieldKind::Text),
            ("event_type"@, FieldKind::Text),
        ]
    }

    /// Whether each field of `self` is the payload's field of that name, read as its kind.
    pub open spec fn decoded_from(self, o: JsonFields) -> bool {
        &&& text_member(o, "timestamp"@) == Some(self.timestamp@)
        &&& unsigned_member(o, "world_id"@, 0xff) == Some(self.world_id as int)
        &&& unsigned_member(o, "zone_id"@, 0xffff_ffff) == Some(self.zone_id as int)
        &&& text_member(o, "triggering_faction"@) == Some(self.triggering_faction@)
        &&& text_member(o, "previous_faction"@) == Some(self.previous_faction@)
        &&& text_member(o, "vs_population"@) == Some(self.vs_population@)
        &&& text_member(o, "nc_population"@) == Some(self.nc_population@)
        &&& text_member(o, "tr_population"@) == Some(self.tr_population@)
        &&& text_member(o, "metagame_event_id"@) == Some(self.metagame_event_id@)
        &&& text_member(o, "event_type"@) == Some(self.event_type@)
    }

    /// Reads the event from its payload object.
    pub fn from_json(json: &JsonObject) -> (r: Result<Self, CensusError>)
        ensures
            match r {
                Ok(e) => first_bad_field(json@, Self::layout(), 0) is None && e.decoded_from(json@),
                Err(e) => first_bad_field(json@, Self::layout(), 0) matches Some(k) && is_field_error(e, k),
            },
    {
        proof {
            reveal_with_fuel(first_bad_field, 11);
        }
        let timestamp = match parse_timestamp(json) {
            Ok(v) => v,
            Err(e) => return Err(e),
        };
        let world_id = match parse_world_id(json) {
            Ok(v) => v,
            Err(e) => return Err(e),
        };
        let zone_id = match parse_zone_id(json) {
            Ok(v) => v,
            Err(e) => return Err(e),
        };
        let triggering_faction = match parse_string("triggering_faction", json) {
            Ok(v) => v,
            Err(e) => return Err(e),
        };
        let previous_faction = match parse_string("previous_faction", json) {
            Ok(v) => v,
            Err(e) => return Err(e),
        };
        let vs_population = match parse_string("vs_population", json) {
            Ok(v) => v,
            Err(e) => return Err(e),
        };
        let nc_population = match parse_string("nc_population", json) {
            Ok(v) => v,
            Err(e) => return Err(e),
        };
        let tr_population = match parse_string("tr_population", json) {
            Ok(v) => v,
            Err(e) => return Err(e),
        };
        let metagame_event_id = match parse_string("metagame_event_id", json) {
            Ok(v) => v,
            Err(e) => return Err(e),
        };
        let event_type = match parse_string("event_type", json) {
            Ok(v) => v,
            Err(e) => return Err(e),
        };
        Ok(ContinentLock {
            timestamp,
            world_id,
            zone_id,
            triggering_faction,
            previous_faction,
            vs_population,
            nc_population,
            tr_population,
            metagame_event_id,
            event_type,
        })
    }
}

/// A continent was unlocked.
#[derive(Debug)]
pub struct ContinentUnlock {
    pub timestamp: String,
    pub world_id: u8,
    pub zone_id: u32,
    pub triggering_faction: String,
    pub previous_faction: String,
    pub vs_population: String,
    pub nc_population: String,
    pub tr_population: String,
    pub metagame_event_id: String,
    pub event_type: String,
}

impl ContinentUnlock {
    /// The payload fields this event reads, in order.
    pub open spec fn layout() -> Layout {
        seq![
            ("timestamp"@, FieldKind::Text),
            ("world_id"@, FieldKind::Unsigned(0xff)),
            ("zone_id"@, FieldKind::Unsigned(0xffff_ffff)),
            ("triggering_faction"@, FieldKind::Text),
            ("previous_faction"@, FieldKind::Text),
            ("vs_population"@, FieldKind::Text),
            ("nc_population"@, FieldKind::Text),
            ("tr_population"@, FieldKind::Text),
            ("metagame_event_id"@, FieldKind::Text),
            ("event_type"@, FieldKind::Text),
        ]
    }

    /// Whether each field of `self` is the payload's field of that name, read as its kind.
    pub open spec fn decoded_from(self, o: JsonFields) -> bool {
        &&& text_member(o, "timestamp"@) == Some(self.timestamp@)
        &&& unsigned_member(o, "world_id"@, 0xff) == Some(self.world_id as int)
        &&& unsigned_member(o, "zone_id"@, 0xffff_ffff) == Some(self.zone_id as int)
        &&& text_member(o, "triggering_faction"@) == Some(self.triggering_faction@)
        &&& text_member(o, "previous_faction"@) == Some(self.previous_faction@)
        &&& text_member(o, "vs_population"@) == Some(self.vs_population@)
        &&& text_member(o, "nc_population"@) == Some(self.nc_population@)
        &&& text_member(o, "tr_population"@) == Some(self.tr_population@)
        &&& text_member(o, "metagame_event_id"@) == Some(self.metagame_event_id@)
        &&& text_member(o, "event_type"@) == Some(self.event_type@)
    }

    /// Reads the event from its payload object.
    pub fn from_json(json: &JsonObject) -> (r: Result<Self, CensusError>)
        ensures
            match r {
                Ok(e) => first_bad_field(json@, Self::layout(), 0) is None && e.decoded_from(json@),
                Err(e) => first_bad_field(json@, Self::layout(), 0) matches Some(k) && is_field_error(e, k),
            },
    {
        proof {
            reveal_with_fuel(first_bad_field, 11);
        }
        let timestamp = match parse_timestamp(json) {
            Ok(v) => v,
            Err(e) => return Err(e),
        };
        let world_id = match parse_world_id(json) {
            Ok(v) => v,
            Err(e) => return Err(e),
        };
        let zone_id = match parse_zone_id(json) {
            Ok(v) => v,
            Err(e) => return Err(e),
        };
        let triggering_faction = match parse_string("triggering_faction", json) {
            Ok(v) => v,
            Err(e) => return Err(e),
        };
        let previous_faction = match parse_string("previous_faction", json) {
            Ok(v) => v,
            Err(e) => return Err(e),
        };
        let vs_population = match parse_string("vs_population", json) {
            Ok(v) => v,
            Err(e) => return Err(e),
        };
        let nc_population = match parse_string("nc_population", json) {
            Ok(v) => v,
            Err(e) => return Err(e),
        };
        let tr_population = match parse_string("tr_population", json) {
            Ok(v) => v,
            Err(e) => return Err(e),
        };
        let metagame_event_id = match parse_string("metagame_event_id", json) {
            Ok(v) => v,
            Err(e) => return Err(e),
        };
        let event_type = match parse_string("event_type", json) {
            Ok(v) => v,
            Err(e) => return Err(e),
        };
        Ok(ContinentUnlock {
            timestamp,
            world_id,
            zone_id,
            triggering_faction,
            previous_faction,
            vs_population,
            nc_population,
            tr_population,
            metagame_event_id,
            event_type,
        })
    }
}

/// A facility changed hands or was held.
#[derive(Debug)]
pub struct FacilityControl {
    pub timestamp: String,
    pub world_id: u8,
    pub zone_id: u32,
    pub facility_id: String,
    pub new_faction_id: u8,
    pub old_faction_id: u8,
    pub outfit_id: String,
    pub duration_held: String,
}

impl FacilityControl {
    /// The payload fields this event reads, in order.
    pub open spec fn layout() -> Layout {
        seq![
            ("timestamp"@, FieldKind::Text),
            ("world_id"@, FieldKind::Unsigned(0xff)),
            ("zone_id"@, FieldKind::Unsigned(0xffff_ffff)),
            ("facility_id"@, FieldKind::Text),
            ("new_faction_id"@, FieldKind::Unsigned(0xff)),
            ("old_faction_id"@, FieldKind::Unsigned(0xff)),
            ("outfit_id"@, FieldKind::Text),
            ("duration_held"@, FieldKind::Text),
        ]
    }

    /// Whether each field of `self` is the payload's field of that name, read as its kind.
    pub open spec fn decoded_from(self, o: JsonFields) -> bool {
        &&& text_member(o, "timestamp"@) == Some(self.timestamp@)
        &&& unsigned_member(o, "world_id"@, 0xff) == Some(self.world_id as int)
        &&& unsigned_member(o, "zone_id"@, 0xffff_ffff) == Some(self.zone_id as int)
        &&& text_member(o, "facility_id"@) == Some(self.facility_id@)
        &&& unsigned_member(o, "new_faction_id"@, 0xff) == Some(self.new_faction_id as int)
        &&& unsigned_member(o, "old_faction_id"@, 0xff) == Some(self.old_faction_id as int)
        &&& text_member(o, "outfit_id"@) == Some(self.outfit_id@)
        &&& text_member(o, "duration_held"@) == Some(self.duration_held@)
    }

    /// Reads the event from its payload object.
    pub fn from_json(json: &JsonObject) -> (r: Result<Self, CensusError>)
        ensures
            match r {
                Ok(e) => first_bad_field(json@, Self::layout(), 0) is None && e.decoded_from(json@),
                Err(e) => first_bad_field(json@, Self::layout(), 0) matches Some(k) && is_field_error(e, k),
            },
    {
        proof {
            reveal_with_fuel(first_bad_field, 9);
        }
        let timestamp = match parse_timestamp(json) {
            Ok(v) => v,
            Err(e) => return Err(e),
        };
        let world_id = match parse_world_id(json) {
            Ok(v) => v,
            Err(e) => return Err(e),
        };
        let zone_id = match parse_zone_id(json) {
            Ok(v) => v,
            Err(e) => return Err(e),
        };
        let facility_id = match parse_string("facility_id", json) {
            Ok(v) => v,
            Err(e) => return Err(e),
        };
        let new_faction_id = match try_parse_to("new_faction_id", json, 0xff) {
            Ok(v) => v as u8,
            Err(e) => return Err(e),
        };
        let old_faction_id = match try_parse_to("old_faction_id", json, 0xff) {
            Ok(v) => v as u8,
            Err(e) => return Err(e),
        };
        let outfit_id = match parse_string("outfit_id", json) {
            Ok(v) => v,
            Err(e) => return Err(e),
        };
        let duration_held = match parse_string("duration_held", json) {
            Ok(v) => v,
            Err(e) => return Err(e),
        };
        Ok(FacilityControl {
            timestamp,
            world_id,
            zone_id,
            facility_id,
            new_faction_id,
            old_faction_id,
            outfit_id,
            duration_held,
        })
    }
}

/// A world-wide metagame event changed state.
#[derive(Debug)]
pub struct MetagameEvent {
    pub timestamp: String,
    pub world_id: u8,
    pub zone_id: u32,
    pub experience_bonus: String,
    pub faction_nc: String,
    pub faction_tr: String,
    pub faction_vs: String,
    pub metagame_event_id: String,
    pub metagame_event_state: String,
}

impl MetagameEvent {
    /// The payload fields this event reads, in order.
    pub open spec fn layout() -> Layout {
        seq![
            ("timestamp"@, FieldKind::Text),
            ("world_id"@, FieldKind::Unsigned(0xff)),
            ("zone_id"@, FieldKind::Unsigned(0xffff_ffff)),
            ("experience_bonus"@, FieldKind::Text),
            ("faction_nc"@, FieldKind::Text),
            ("faction_tr"@, FieldKind::Text),
            ("faction_vs"@, FieldKind::Text),
            ("metagame_event_id"@, FieldKind::Text),
            ("metagame_event_state"@, FieldKind::Text),
        ]
    }

    /// Whether each field of `self` is the payload's field of that name, read as its kind.
    pub open spec fn decoded_from(self, o: JsonFields) -> bool {
        &&& text_member(o, "timestamp"@) == Some(self.timestamp@)
        &&& unsigned_member(o, "world_id"@, 0xff) == Some(self.world_id as int)
        &&& unsigned_member(o, "zone_id"@, 0xffff_ffff) == Some(self.zone_id as int)
        &&& text_member(o, "experience_bonus"@) == Some(self.experience_bonus@)
        &&& text_member(o, "faction_nc"@) == Some(self.faction_nc@)
        &&& text_member(o, "faction_tr"@) == Some(self.faction_tr@)
        &&& text_member(o, "faction_vs"@) == Some(self.faction_vs@)
        &&& text_member(o, "metagame_event_id"@) == Some(self.metagame_event_id@)
        &&& text_member(o, "metagame_event_state"@) == Some(self.metagame_event_state@)
    }

    /// Reads the event from its payload object.
    pub fn from_json(json: &JsonObject) -> (r: Result<Self, CensusError>)
        ensures
            match r {
                Ok(e) => first_bad_field(json@, Self::layout(), 0) is None && e.decoded_from(json@),
                Err(e) => first_bad_field(json@, Self::layout(), 0) matches Some(k) && is_field_error(e, k),
            },
    {
        proof {
            reveal_with_fuel(first_bad_field, 10);
        }
        let timestamp = match parse_timestamp(json) {
            Ok(v) => v,
            Err(e) => return Err(e),
        };
        let world_id = match parse_world_id(json) {
            Ok(v) => v,
            Err(e) => return Err(e),
        };
        let zone_id = match parse_zone_id(json) {
            Ok(v) => v,
            Err(e) => return Err(e),
        };
        let experience_bonus = match parse_string("experience_bonus", json) {
            Ok(v) => v,
            Err(e) => return Err(e),
        };
        let faction_nc = match parse_string("faction_nc", json) {
            Ok(v) => v,
            Err(e) => return Err(e),
        };
        let faction_tr = match parse_string("faction_tr", json) {
            Ok(v) => v,
            Err(e) => return Err(e),
        };
        let faction_vs = match parse_string("faction_vs", json) {
            Ok(v) => v,
            Err(e) => return Err(e),
        };
        let metagame_event_id = match parse_string("metagame_event_id", json) {
            Ok(v) => v,
            Err(e) => return Err(e),
        };
        let metagame_event_state = match parse_string("metagame_event_state", json) {
            Ok(v) => v,
            Err(e) => return Err(e),
        };
        Ok(MetagameEvent {
            timestamp,
            world_id,
            zone_id,
            experience_bonus,
            faction_nc,
            faction_tr,
            faction_vs,
            metagame_event_id,
            metagame_event_state,
        })
    }
}

/// A character earned an achievement.
#[derive(Debug)]
pub struct AchievementEarned {
    pub character_id: String,
    pub timestamp: String,
    pub world_id: u8,
    pub zone_id: u32,
    pub achievement_id: u64,
}

impl AchievementEarned {
    /// The payload fields this event reads, in order.
    pub open spec fn layout() -> Layout {
        seq![
            ("character_id"@, FieldKind::Text),
            ("timestamp"@, FieldKind::Text),
            ("world_id"@, FieldKind::Unsigned(0xff)),
            ("zone_id"@, FieldKind::Unsigned(0xffff_ffff)),
            ("achievement_id"@, FieldKind::Unsigned(0xffff_ffff_ffff_ffff)),
        ]
    }

    /// Whether each field of `self` is the payload's field of that name, read as its kind.
    pub open spec fn decoded_from(self, o: JsonFields) -> bool {
        &&& text_member(o, "character_id"@) == Some(self.character_id@)
        &&& text_member(o, "timestamp"@) == Some(self.timestamp@)
        &&& unsigned_member(o, "world_id"@, 0xff) == Some(self.world_id as int)
        &&& unsigned_member(o, "zone_id"@, 0xffff_ffff) == Some(self.zone_id as int)
        &&& unsigned_member(o, "achievement_id"@, 0xffff_ffff_ffff_ffff) == Some(self.achievement_id as int)
    }

    /// Reads the event from its payload object.
    pub fn from_json(json: &JsonObject) -> (r: Result<Self, CensusError>)
        ensures
            match r {
                Ok(e) => first_bad_field(json@, Self::layout(), 0) is None && e.decoded_from(json@),
                Err(e) => first_bad_field(json@, Self::layout(), 0) matches Some(k) && is_field_error(e, k),
            },
    {
        proof {
            reveal_with_fuel(first_bad_field, 6);
        }
        let character_id = match parse_character_id(json) {
            Ok(v) => v,
            Err(e) => return Err(e),
        };
        let timestamp = match parse_timestamp(json) {
            Ok(v) => v,
            Err(e) => return Err(e),
        };
        let world_id = match parse_world_id(json) {
            Ok(v) => v,
            Err(e) => return Err(e),
        };
        let zone_id = match parse_zone_id(json) {
            Ok(v) => v,
            Err(e) => return Err(e),
        };
        let achievement_id = match try_parse_to("achievement_id", json, 0xffff_ffff_ffff_ffff) {
            Ok(v) => v,
            Err(e) => return Err(e),
        };
        Ok(AchievementEarned {
            character_id,
            timestamp,
            world_id,
            zone_id,
            achievement_id,
        })
    }
}

/// A character reached a new battle rank.
#[derive(Debug)]
pub struct BattleRankUp {
    pub character_id: String,
    pub timestamp: String,
    pub world_id: u8,
    pub zone_id: u32,
    pub battle_rank: u8,
}

impl BattleRankUp {
    /// The payload fields this event reads, in order.
    pub open spec fn layout() -> Layout {
        seq![
            ("character_id"@, FieldKind::Text),
            ("timestamp"@, FieldKind::Text),
            ("world_id"@, FieldKind::Unsigned(0xff)),
            ("zone_id"@, FieldKind::Unsigned(0xffff_ffff)),
            ("battle_rank"@, FieldKind::Unsigned(0xff)),
        ]
    }

    /// Whether each field of `self` is the payload's field of that name, read as its kind.
    pub open spec fn decoded_from(self, o: JsonFields) -> bool {
        &&& text_member(o, "character_id"@) == Some(self.character_id@)
        &&& text_member(o, "timestamp"@) == Some(self.timestamp@)
        &&& unsigned_member(o, "world_id"@, 0xff) == Some(self.world_id as int)
        &&& unsigned_member(o, "zone_id"@, 0xffff_ffff) == Some(self.zone_id as int)
        &&& unsigned_member(o, "battle_rank"@, 0xff) == Some(self.battle_rank as int)
    }

    /// Reads the event from its payload object.
    pub fn from_json(json: &JsonObject) -> (r: Result<Self, CensusError>)
        ensures
            match r {
                Ok(e) => first_bad_field(json@, Self::layout(), 0) is None && e.decoded_from(json@),
                Err(e) => first_bad_field(json@, Self::layout(), 0) matches Some(k) && is_field_error(e, k),
            },
    {
        proof {
            reveal_with_fuel(first_bad_field, 6);
        }
        let character_id = match parse_character_id(json) {
            Ok(v) => v,
            Err(e) => return Err(e),
        };
        let timestamp = match parse_timestamp(json) {
            Ok(v) => v,
            Err(e) => return Err(e),
        };
        let world_id = match parse_world_id(json) {
            Ok(v) => v,
            Err(e) => return Err(e),
        };
        let zone_id = match parse_zone_id(json) {
            Ok(v) => v,
            Err(e) => return Err(e),
        };
        let battle_rank = match try_parse_to("battle_rank", json, 0xff) {
            Ok(v) => v as u8,
            Err(e) => return Err(e),
        };
        Ok(BattleRankUp {
            character_id,
            timestamp,
            world_id,
            zone_id,
            battle_rank,
        })
    }
}

/// A character was killed.
#[derive(Debug)]
pub struct Death {
    pub attacker_character_id: String,
    pub attacker_fire_mode_id: String,
    pub attacker_loadout_id: String,
    pub attacker_vehicle_id: String,
    pub attacker_weapon_id: String,
    pub character_id: String,
    pub character_loadout_id: String,
    pub is_critical: bool,
    pub is_headshot: bool,
    pub timestamp: String,
    pub vehicle_id: String,
    pub world_id: u8,
    pub zone_id: u32,
}

impl Death {
    /// The payload fields this event reads, in order.
    pub open spec fn layout() -> Layout {
        seq![
            ("attacker_character_id"@, FieldKind::Text),
            ("attacker_fire_mode_id"@, FieldKind::Text),
            ("attacker_loadout_id"@, FieldKind::Text),
            ("attacker_vehicle_id"@, FieldKind::Text),
            ("attacker_weapon_id"@, FieldKind::Text),
            ("character_id"@, FieldKind::Text),
            ("character_loadout_id"@, FieldKind::Text),
            ("is_critical"@, FieldKind::Flag),
            ("is_headshot"@, FieldKind::Flag),
            ("timestamp"@, FieldKind::Text),
            ("vehicle_id"@, FieldKind::Text),
            ("world_id"@, FieldKind::Unsigned(0xff)),
            ("zone_id"@, FieldKind::Unsigned(0xffff_ffff)),
        ]
    }

    /// Whether each field of `self` is the payload's field of that name, read as its kind.
    pub open spec fn decoded_from(self, o: JsonFields) -> bool {
        &&& text_member(o, "attacker_character_id"@) == Some(self.attacker_character_id@)
        &&& text_member(o, "attacker_fire_mode_id"@) == Some(self.attacker_fire_mode_id@)
        &&& text_member(o, "attacker_loadout_id"@) == Some(self.attacker_loadout_id@)
        &&& text_member(o, "attacker_vehicle_id"@) == Some(self.attacker_vehicle_id@)
        &&& text_member(o, "attacker_weapon_id"@) == Some(self.attacker_weapon_id@)
        &&& text_member(o, "character_id"@) == Some(self.character_id@)
        &&& text_member(o, "character_loadout_id"@) == Some(self.character_loadout_id@)
        &&& flag_member(o, "is_critical"@) == Some(self.is_critical)
        &&& flag_member(o, "is_headshot"@) == Some(self.is_headshot)
        &&& text_member(o, "timestamp"@) == Some(self.timestamp@)
        &&& text_member(o, "vehicle_id"@) == Some(self.vehicle_id@)
        &&& unsigned_member(o, "world_id"@, 0xff) == Some(self.world_id as int)
        &&& unsigned_member(o, "zone_id"@, 0xffff_ffff) == Some(self.zone_id as int)
    }

    /// Reads the event from its payload object.
    pub fn from_json(json: &JsonObject) -> (r: Result<Self, CensusError>)
        ensures
            match r {
                Ok(e) => first_bad_field(json@, Self::layout(), 0) is None && e.decoded_from(json@),
                Err(e) => first_bad_field(json@, Self::layout(), 0) matches Some(k) && is_field_error(e, k),
            },
    {
        proof {
            reveal_with_fuel(first_bad_field, 14);
        }
        let attacker_character_id = match parse_string("attacker_character_id", json) {
            Ok(v) => v,
            Err(e) => return Err(e),
        };
        let attacker_fire_mode_id = match parse_string("attacker_fire_mode_id", json) {
            Ok(v) => v,
            Err(e) => return Err(e),
        };
        let attacker_loadout_id = match parse_string("attacker_loadout_id", json) {
            Ok(v) => v,
            Err(e) => return Err(e),
        };
        let attacker_vehicle_id = match parse_string("attacker_vehicle_id", json) {
            Ok(v) => v,
            Err(e) => return Err(e),
        };
        let attacker_weapon_id = match parse_string("attacker_weapon_id", json) {
            Ok(v) => v,
            Err(e) => return Err(e),
        };
        let character_id = match parse_character_id(json) {
            Ok(v) => v,
            Err(e) => return Err(e),
        };
        let character_loadout_id = match parse_string("character_loadout_id", json) {
            Ok(v) => v,
            Err(e) => return Err(e),
        };
        let is_critical = match parse_bool_from_numstr("is_critical", json) {
            Ok(v) => v,
            Err(e) => return Err(e),
        };
        let is_headshot = match parse_bool_from_numstr("is_headshot", json) {
            Ok(v) => v,
            Err(e) => return Err(e),
        };
        let timestamp = match parse_timestamp(json) {
            Ok(v) => v,
            Err(e) => return Err(e),
        };
        let vehicle_id = match parse_string("vehicle_id", json) {
            Ok(v) => v,
            Err(e) => return Err(e),
        };
        let world_id = match parse_world_id(json) {
            Ok(v) => v,
            Err(e) => return Err(e),
        };
        let zone_id = match parse_zone_id(json) {
            Ok(v) => v,
            Err(e) => return Err(e),
        };
        Ok(Death {
            attacker_character_id,
            attacker_fire_mode_id,
            attacker_loadout_id,
            attacker_vehicle_id,
            attacker_weapon_id,
            character_id,
            character_loadout_id,
            is_critical,
            is_headshot,
            timestamp,
            vehicle_id,
            world_id,
            zone_id,
        })
    }
}

/// An item was added to a character's inventory.
#[derive(Debug)]
pub struct ItemAdded {
    pub character_id: String,
    pub timestamp: String,
    pub world_id: u8,
    pub zone_id: u32,
    pub context: String,
    pub item_count: u64,
    pub item_id: String,
}

impl ItemAdded {
    /// The payload fields this event reads, in order.
    pub open spec fn layout() -> Layout {
        seq![
            ("character_id"@, FieldKind::Text),
            ("timestamp"@, FieldKind::Text),
            ("world_id"@, FieldKind::Unsigned(0xff)),
            ("zone_id"@, FieldKind::Unsigned(0xffff_ffff)),
            ("context"@, FieldKind::Text),
            ("item_count"@, FieldKind::Unsigned(0xffff_ffff_ffff_ffff)),
            ("item_id"@, FieldKind::Text),
        ]
    }

    /// Whether each field of `self` is the payload's field of that name, read as its kind.
    pub open spec fn decoded_from(self, o: JsonFields) -> bool {
        &&& text_member(o, "character_id"@) == Some(self.character_id@)
        &&& text_member(o, "timestamp"@) == Some(self.timestamp@)
        &&& unsigned_member(o, "world_id"@, 0xff) == Some(self.world_id as int)
        &&& unsigned_member(o, "zone_id"@, 0xffff_ffff) == Some(self.zone_id as int)
        &&& text_member(o, "context"@) == Some(self.context@)
        &&& unsigned_member(o, "item_count"@, 0xffff_ffff_ffff_ffff) == Some(self.item_count as int)
        &&& text_member(o, "item_id"@) == Some(self.item_id@)
    }

    /// Reads the event from its payload object.
    pub fn from_json(json: &JsonObject) -> (r: Result<Self, CensusError>)
        ensures
            match r {
                Ok(e) => first_bad_field(json@, Self::layout(), 0) is None && e.decoded_from(json@),
                Err(e) => first_bad_field(json@, Self::layout(), 0) matches Some(k) && is_field_error(e, k),
            },
    {
        proof {
            reveal_with_fuel(first_bad_field, 8);
        }
        let character_id = match parse_character_id(json) {
            Ok(v) => v,
            Err(e) => return Err(e),
        };
        let timestamp = match parse_timestamp(json) {
            Ok(v) => v,
            Err(e) => return Err(e),
        };
        let world_id = match parse_world_id(json) {
            Ok(v) => v,
            Err(e) => return Err(e),
        };
        let zone_id = match parse_zone_id(json) {
            Ok(v) => v,
            Err(e) => return Err(e),
        };
        let context = match parse_string("context", json) {
            Ok(v) => v,
            Err(e) => return Err(e),
        };
        let item_count = match try_parse_to("item_count", json, 0xffff_ffff_ffff_ffff) {
            Ok(v) => v,
            Err(e) => return Err(e),
        };
        let item_id = match parse_string("item_id", json) {
            Ok(v) => v,
            Err(e) => return Err(e),
        };
        Ok(ItemAdded {
            character_id,
            timestamp,
            world_id,
            zone_id,
            context,
            item_count,
            item_id,
        })
    }
}

/// A character unlocked a skill.
#[derive(Debug)]
pub struct SkillAdded {
    pub character_id: String,
    pub timestamp: String,
    pub world_id: u8,
    pub zone_id: u32,
    pub skill_id: String,
}

impl SkillAdded {
    /// The payload fields this event reads, in order.
    pub open spec fn layout() -> Layout {
        seq![
            ("character_id"@, FieldKind::Text),
            ("timestamp"@, FieldKind::Text),
            ("world_id"@, FieldKind::Unsigned(0xff)),
            ("zone_id"@, FieldKind::Unsigned(0xffff_ffff)),
            ("skill_id"@, FieldKind::Text),
        ]
    }

    /// Whether each field of `self` is the payload's field of that name, read as its kind.
    pub open spec fn decoded_from(self, o: JsonFields) -> bool {
        &&& text_member(o, "character_id"@) == Some(self.character_id@)
        &&& text_member(o, "timestamp"@) == Some(self.timestamp@)
        &&& unsigned_member(o, "world_id"@, 0xff) == Some(self.world_id as int)
        &&& unsigned_member(o, "zone_id"@, 0xffff_ffff) == Some(self.zone_id as int)
        &&& text_member(o, "skill_id"@) == Some(self.skill_id@)
    }

    /// Reads the event from its payload object.
    pub fn from_json(json: &JsonObject) -> (r: Result<Self, CensusError>)
        ensures
            match r {
                Ok(e) => first_bad_field(json@, Self::layout(), 0) is None && e.decoded_from(json@),
                Err(e) => first_bad_field(json@, Self::layout(), 0) matches Some(k) && is_field_error(e, k),
            },
    {
        proof {
            reveal_with_fuel(first_bad_field, 6);
        }
        let character_id = match parse_character_id(json) {
            Ok(v) => v,
            Err(e) => return Err(e),
        };
        let timestamp = match parse_timestamp(json) {
            Ok(v) => v,
            Err(e) => return Err(e),
        };
        let world_id = match parse_world_id(json) {
            Ok(v) => v,
            Err(e) => return Err(e),
        };
        let zone_id = match parse_zone_id(json) {
            Ok(v) => v,
            Err(e) => return Err(e),
        };
        let skill_id = match parse_string("skill_id", json) {
            Ok(v) => v,
            Err(e) => return Err(e),
        };
        Ok(SkillAdded {
            character_id,
            timestamp,
            world_id,
            zone_id,
            skill_id,
        })
    }
}

/// A vehicle was destroyed.
#[derive(Debug)]
pub struct VehicleDestroy {
    pub attacker_character_id: String,
    pub attacker_loadout_id: String,
    pub attacker_vehicle_id: String,
    pub attacker_weapon_id: String,
    pub character_id: String,
    pub facility_id: String,
    pub faction_id: u8,
    pub timestamp: String,
    pub vehicle_id: String,
    pub world_id: u8,
    pub zone_id: u32,
}

impl VehicleDestroy {
    /// The payload fields this event reads, in order.
    pub open spec fn layout() -> Layout {
        seq![
            ("attacker_character_id"@, FieldKind::Text),
            ("attacker_loadout_id"@, FieldKind::Text),
            ("attacker_vehicle_id"@, FieldKind::Text),
            ("attacker_weapon_id"@, FieldKind::Text),
            ("character_id"@, FieldKind::Text),
            ("timestamp"@, FieldKind::Text),
            ("world_id"@, FieldKind::Unsigned(0xff)),
            ("zone_id"@, FieldKind::Unsigned(0xffff_ffff)),
            ("facility_id"@, FieldKind::Text),
            ("faction_id"@, FieldKind::Unsigned(0xff)),
            ("vehicle_id"@, FieldKind::Text),
        ]
    }

    /// Whether each field of `self` is the payload's field of that name, read as its kind.
    pub open spec fn decoded_from(self, o: JsonFields) -> bool {
        &&& text_member(o, "attacker_character_id"@) == Some(self.attacker_character_id@)
        &&& text_member(o, "attacker_loadout_id"@) == Some(self.attacker_loadout_id@)
        &&& text_member(o, "attacker_vehicle_id"@) == Some(self.attacker_vehicle_id@)
        &&& text_member(o, "attacker_weapon_id"@) == Some(self.attacker_weapon_id@)
        &&& text_member(o, "character_id"@) == Some(self.character_id@)
        &&& text_member(o, "timestamp"@) == Some(self.timestamp@)
        &&& unsigned_member(o, "world_id"@, 0xff) == Some(self.world_id as int)
        &&& unsigned_member(o, "zone_id"@, 0xffff_ffff) == Some(self.zone_id as int)
        &&& text_member(o, "facility_id"@) == Some(self.facility_id@)
        &&& unsigned_member(o, "faction_id"@, 0xff) == Some(self.faction_id as int)
        &&& text_member(o, "vehicle_id"@) == Some(self.vehicle_id@)
    }

    /// Reads the event from its payload object.
    pub fn from_json(json: &JsonObject) -> (r: Result<Self, CensusError>)
        ensures
            match r {
                Ok(e) => first_bad_field(json@, Self::layout(), 0) is None && e.decoded_from(json@),
                Err(e) => first_bad_field(json@, Self::layout(), 0) matches Some(k) && is_field_error(e, k),
            },
    {
        proof {
            reveal_with_fuel(first_bad_field, 12);
        }
        let attacker_character_id = match parse_string("attacker_character_id", json) {
            Ok(v) => v,
            Err(e) => return Err(e),
        };
        let attacker_loadout_id = match parse_string("attacker_loadout_id", json) {
            Ok(v) => v,
            Err(e) => return Err(e),
        };
        let attacker_vehicle_id = match parse_string("attacker_vehicle_id", json) {
            Ok(v) => v,
            Err(e) => return Err(e),
        };
        let attacker_weapon_id = match parse_string("attacker_weapon_id", json) {
            Ok(v) => v,
            Err(e) => return Err(e),
        };
        let character_id = match parse_character_id(json) {
            Ok(v) => v,
            Err(e) => return Err(e),
        };
        let timestamp = match parse_timestamp(json) {
            Ok(v) => v,
            Err(e) => return Err(e),
        };
        let world_id = match parse_world_id(json) {
            Ok(v) => v,
            Err(e) => return Err(e),
        };
        let zone_id = match parse_zone_id(json) {
            Ok(v) => v,
            Err(e) => return Err(e),
        };
        let facility_id = match parse_string("facility_id", json) {
            Ok(v) => v,
            Err(e) => return Err(e),
        };
        let faction_id = match try_parse_to("faction_id", json, 0xff) {
            Ok(v) => v as u8,
            Err(e) => return Err(e),
        };
        let vehicle_id = match parse_string("vehicle_id", json) {
            Ok(v) => v,
            Err(e) => return Err(e),
        };
        Ok(VehicleDestroy {
            attacker_character_id,
            attacker_loadout_id,
            attacker_vehicle_id,
            attacker_weapon_id,
            character_id,
            facility_id,
            faction_id,
            timestamp,
            vehicle_id,
            world_id,
            zone_id,
        })
    }
}

/// A character gained experience.
#[derive(Debug)]
pub struct GainExperience {
    pub character_id: String,
    pub timestamp: String,
    pub world_id: u8,
    pub zone_id: u32,
    pub amount: String,
    pub experience_id: String,
    pub loudout_id: String,
    pub other_id: String,
}

impl GainExperience {
    /// The payload fields this event reads, in order.
    pub open spec fn layout() -> Layout {
        seq![
            ("character_id"@, FieldKind::Text),
            ("timestamp"@, FieldKind::Text),
            ("world_id"@, FieldKind::Unsigned(0xff)),
            ("zone_id"@, FieldKind::Unsigned(0xffff_ffff)),
            ("amount"@, FieldKind::Text),
            ("experience_id"@, FieldKind::Text),
            ("loudout_id"@, FieldKind::Text),
            ("other_id"@, FieldKind::Text),
        ]
    }

    /// Whether each field of `self` is the payload's field of that name, read as its kind.
    pub open spec fn decoded_from(self, o: JsonFields) -> bool {
        &&& text_member(o, "character_id"@) == Some(self.character_id@)
        &&& text_member(o, "timestamp"@) == Some(self.timestamp@)
        &&& unsigned_member(o, "world_id"@, 0xff) == Some(self.world_id as int)
        &&& unsigned_member(o, "zone_id"@, 0xffff_ffff) == Some(self.zone_id as int)
        &&& text_member(o, "amount"@) == Some(self.amount@)
        &&& text_member(o, "experience_id"@) == Some(self.experience_id@)
        &&& text_member(o, "loudout_id"@) == Some(self.loudout_id@)
        &&& text_member(o, "other_id"@) == Some(self.other_id@)
    }

    /// Reads the event from its payload object.
    pub fn from_json(json: &JsonObject) -> (r: Result<Self, CensusError>)
        ensures
            match r {
                Ok(e) => first_bad_field(json@, Self::layout(), 0) is None && e.decoded_from(json@),
                Err(e) => first_bad_field(json@, Self::layout(), 0) matches Some(k) && is_field_error(e, k),
            },
    {
        proof {
            reveal_with_fuel(first_bad_field, 9);
        }
        let character_id = match parse_character_id(json) {
            Ok(v) => v,
            Err(e) => return Err(e),
        };
        let timestamp = match parse_timestamp(json) {
            Ok(v) => v,
            Err(e) => return Err(e),
        };
        let world_id = match parse_world_id(json) {
            Ok(v) => v,
            Err(e) => return Err(e),
        };
        let zone_id = match parse_zone_id(json) {
            Ok(v) => v,
            Err(e) => return Err(e),
        };
        let amount = match parse_string("amount", json) {
            Ok(v) => v,
            Err(e) => return Err(e),
        };
        let experience_id = match parse_string("experience_id", json) {
            Ok(v) => v,
            Err(e) => return Err(e),
        };
        let loudout_id = match parse_string("loudout_id", json) {
            Ok(v) => v,
            Err(e) => return Err(e),
        };
        let other_id = match parse_string("other_id", json) {
            Ok(v) => v,
            Err(e) => return Err(e),
        };
        Ok(GainExperience {
            character_id,
            timestamp,
            world_id,
            zone_id,
            amount,
            experience_id,
            loudout_id,
            other_id,
        })
    }
}

/// A character took part in capturing a facility.
#[derive(Debug)]
pub struct PlayerFacilityCapture {
    pub character_id: String,
    pub timestamp: String,
    pub world_id: u8,
    pub zone_id: u32,
    pub facility_id: String,
    pub outfit_id: String,
}

impl PlayerFacilityCapture {
    /// The payload fields this event reads, in order.
    pub open spec fn layout() -> Layout {
        seq![
            ("character_id"@, FieldKind::Text),
            ("timestamp"@, FieldKind::Text),
            ("world_id"@, FieldKind::Unsigned(0xff)),
            ("zone_id"@, FieldKind::Unsigned(0xffff_ffff)),
            ("facility_id"@, FieldKind::Text),
            ("outfit_id"@, FieldKind::Text),
        ]
    }

    /// Whether each field of `self` is the payload's field of that name, read as its kind.
    pub open spec fn decoded_from(self, o: JsonFields) -> bool {
        &&& text_member(o, "character_id"@) == Some(self.character_id@)
        &&& text_member(o, "timestamp"@) == Some(self.timestamp@)
        &&& unsigned_member(o, "world_id"@, 0xff) == Some(self.world_id as int)
        &&& unsigned_member(o, "zone_id"@, 0xffff_ffff) == Some(self.zone_id as int)
        &&& text_member(o, "facility_id"@) == Some(self.facility_id@)
        &&& text_member(o, "outfit_id"@) == Some(self.outfit_id@)
    }

    /// Reads the event from its payload object.
    pub fn from_json(json: &JsonObject) -> (r: Result<Self, CensusError>)
        ensures
            match r {
                Ok(e) => first_bad_field(json@, Self::layout(), 0) is None && e.decoded_from(json@),
                Err(e) => first_bad_field(json@, Self::layout(), 0) matches Some(k) && is_field_error(e, k),
            },
    {
        proof {
            reveal_with_fuel(first_bad_field, 7);
        }
        let character_id = match parse_character_id(json) {
            Ok(v) => v,
            Err(e) => return Err(e),
        };
        let timestamp = match parse_timestamp(json) {
            Ok(v) => v,
            Err(e) => return Err(e),
        };
        let world_id = match parse_world_id(json) {
            Ok(v) => v,
            Err(e) => return Err(e),
        };
        let zone_id = match parse_zone_id(json) {
            Ok(v) => v,
            Err(e) => return Err(e),
        };
        let facility_id = match parse_string("facility_id", json) {
            Ok(v) => v,
            Err(e) => return Err(e),
        };
        let outfit_id = match parse_string("outfit_id", json) {
            Ok(v) => v,
            Err(e) => return Err(e),
        };
        Ok(PlayerFacilityCapture {
            character_id,
            timestamp,
            world_id,
            zone_id,
            facility_id,
            outfit_id,
        })
    }
}

/// A character took part in defending a facility.
#[derive(Debug)]
pub struct PlayerFacilityDefend {
    pub character_id: String,
    pub timestamp: String,
    pub world_id: u8,
    pub zone_id: u32,
    pub facility_id: String,
    pub outfit_id: String,
}

impl PlayerFacilityDefend {
    /// The payload fields this event reads, in order.
    pub open spec fn layout() -> Layout {
        seq![
            ("character_id"@, FieldKind::Text),
            ("timestamp"@, FieldKind::Text),
            ("world_id"@, FieldKind::Unsigned(0xff)),
            ("zone_id"@, FieldKind::Unsigned(0xffff_ffff)),
            ("facility_id"@, FieldKind::Text),
            ("outfit_id"@, FieldKind::Text),
        ]
    }

    /// Whether each field of `self` is the payload's field of that name, read as its kind.
    pub open spec fn decoded_from(self, o: JsonFields) -> bool {
        &&& text_member(o, "character_id"@) == Some(self.character_id@)
        &&& text_member(o, "timestamp"@) == Some(self.timestamp@)
        &&& unsigned_member(o, "world_id"@, 0xff) == Some(self.world_id as int)
        &&& unsigned_member(o, "zone_id"@, 0xffff_ffff) == Some(self.zone_id as int)
        &&& text_member(o, "facility_id"@) == Some(self.facility_id@)
        &&& text_member(o, "outfit_id"@) == Some(self.outfit_id@)
    }

    /// Reads the event from its payload object.
    pub fn from_json(json: &JsonObject) -> (r: Result<Self, CensusError>)
        ensures
            match r {
                Ok(e) => first_bad_field(json@, Self::layout(), 0) is None && e.decoded_from(json@),
                Err(e) => first_bad_field(json@, Self::layout(), 0) matches Some(k) && is_field_error(e, k),
            },
    {
        proof {
            reveal_with_fuel(first_bad_field, 7);
        }
        let character_id = match parse_character_id(json) {
            Ok(v) => v,
            Err(e) => return Err(e),
        };
        let timestamp = match parse_timestamp(json) {
            Ok(v) => v,
            Err(e) => return Err(e),
        };
        let world_id = match parse_world_id(json) {
            Ok(v) => v,
            Err(e) => return Err(e),
        };
        let zone_id = match parse_zone_id(json) {
            Ok(v) => v,
            Err(e) => return Err(e),
        };
        let facility_id = match parse_string("facility_id", json) {
            Ok(v) => v,
            Err(e) => return Err(e),
        };
        let outfit_id = match parse_string("outfit_id", json) {
            Ok(v) => v,
            Err(e) => return Err(e),
        };
        Ok(PlayerFacilityDefend {
            character_id,
            timestamp,
            world_id,
            zone_id,
            facility_id,
            outfit_id,
        })
    }
}

} // verus!
