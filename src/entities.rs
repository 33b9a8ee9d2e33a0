use vstd::prelude::*;

use crate::census_value::{byte_updated, count_updated, flag_updated, text_updated, CensusValue};
use crate::json::{member, member_or_null, nested_member, JsonLeaf, JsonObject, JsonValue};
use crate::utils::CensusError;

verus! {

/// An achievement, as far as it has been read from the service.
#[derive(Clone, Debug)]
pub struct Achievement {
    pub id: u64,
    pub item_id: CensusValue<String>,
    pub name: CensusValue<String>,
    pub reward_id: CensusValue<String>,
    pub repeatable: CensusValue<bool>,
    pub description: CensusValue<String>,
    pub image_set_id: CensusValue<String>,
    pub image_id: CensusValue<String>,
    pub image_path: CensusValue<String>,
}

impl Achievement {
    /// Whether no field has been read yet.
    pub open spec fn is_unread(&self) -> bool {
        &&& self.item_id.is_empty()
        &&& self.name.is_empty()
        &&& self.reward_id.is_empty()
        &&& self.repeatable.is_empty()
        &&& self.description.is_empty()
        &&& self.image_set_id.is_empty()
        &&& self.image_id.is_empty()
        &&& self.image_path.is_empty()
    }

    /// Whether `new` is `old` after reading the record `json`.
    pub open spec fn updated(old: Achievement, new: Achievement, json: JsonObject) -> bool {
        &&& new.id == old.id
        &&& text_updated(old.item_id, new.item_id, member_or_null(json@, "item_id"@))
        &&& text_updated(old.name, new.name, nested_member(json@, "name"@, "en"@))
        &&& text_updated(old.reward_id, new.reward_id, member_or_null(json@, "reward_id"@))
        &&& flag_updated(old.repeatable, new.repeatable, member_or_null(json@, "repeatable"@))
        &&& text_updated(old.description, new.description, nested_member(json@, "description"@, "en"@))
        &&& text_updated(old.image_set_id, new.image_set_id, member_or_null(json@, "image_set_id"@))
        &&& text_updated(old.image_id, new.image_id, member_or_null(json@, "image_id"@))
        &&& text_updated(old.image_path, new.image_path, member_or_null(json@, "image_path"@))
    }

    /// A record of which nothing has been read.
    pub fn new(id: u64) -> (r: Achievement)
        ensures
            r.id == id,
            r.is_unread(),
    {
        Achievement {
            id,
            item_id: CensusValue::new_empty(),
            name: CensusValue::new_empty(),
            reward_id: CensusValue::new_empty(),
            repeatable: CensusValue::new_empty(),
            description: CensusValue::new_empty(),
            image_set_id: CensusValue::new_empty(),
            image_id: CensusValue::new_empty(),
            image_path: CensusValue::new_empty(),
        }
    }

    /// Reads each field that the record `json` holds in readable form;
    /// the others keep their values.
    pub fn update(&mut self, json: &JsonObject)
        ensures
            Self::updated(*old(self), *final(self), *json),
    {
        self.item_id.update(&json.get_or_null("item_id"));
        self.name.update(&json.get_nested("name", "en"));
        self.reward_id.update(&json.get_or_null("reward_id"));
        self.repeatable.update(&json.get_or_null("repeatable"));
        self.description.update(&json.get_nested("description", "en"));
        self.image_set_id.update(&json.get_or_null("image_set_id"));
        self.image_id.update(&json.get_or_null("image_id"));
        self.image_path.update(&json.get_or_null("image_path"));
    }
}

/// A character, as far as it has been read from the service.
#[derive(Clone, Debug)]
pub struct Character {
    pub id: String,
    pub name: CensusValue<String>,
    pub faction_id: CensusValue<u8>,
    pub head_id: CensusValue<String>,
    pub title_id: CensusValue<String>,
    pub created_at: CensusValue<String>,
    pub last_updated: CensusValue<String>,
    pub last_login: CensusValue<String>,
    pub login_count: CensusValue<u64>,
    pub minutes_played: CensusValue<u64>,
    pub certs_earned: CensusValue<u64>,
    pub certs_gifted: CensusValue<u64>,
    pub certs_spent: CensusValue<u64>,
    pub certs_available: CensusValue<u64>,
    pub certs_progress: CensusValue<u8>,
    pub battle_rank: CensusValue<u8>,
    pub battle_rank_progress: CensusValue<u8>,
    pub profile_id: CensusValue<u8>,
    pub daily_ribbon_count: CensusValue<u8>,
    pub daily_ribbon_time: CensusValue<String>,
    pub is_asp: CensusValue<bool>,
}

impl Character {
    /// Whether no field has been read yet.
    pub open spec fn is_unread(&self) -> bool {
        &&& self.name.is_empty()
        &&& self.faction_id.is_empty()
        &&& self.head_id.is_empty()
        &&& self.title_id.is_empty()
        &&& self.created_at.is_empty()
        &&& self.last_updated.is_empty()
        &&& self.last_login.is_empty()
        &&& self.login_count.is_empty()
        &&& self.minutes_played.is_empty()
        &&& self.certs_earned.is_empty()
        &&& self.certs_gifted.is_empty()
        &&& self.certs_spent.is_empty()
        &&& self.certs_available.is_empty()
        &&& self.certs_progress.is_empty()
        &&& self.battle_rank.is_empty()
        &&& self.battle_rank_progress.is_empty()
        &&& self.profile_id.is_empty()
        &&& self.daily_ribbon_count.is_empty()
        &&& self.daily_ribbon_time.is_empty()
        &&& self.is_asp.is_empty()
    }

    /// Whether `new` is `old` after reading the record `json`.
    pub open spec fn updated(old: Character, new: Character, json: JsonObject) -> bool {
        &&& new.id == old.id
        &&& text_updated(old.name, new.name, nested_member(json@, "name"@, "first"@))
        &&& byte_updated(old.faction_id, new.faction_id, member_or_null(json@, "faction_id"@))
        &&& text_updated(old.head_id, new.head_id, member_or_null(json@, "head_id"@))
        &&& text_updated(old.title_id, new.title_id, member_or_null(json@, "title_id"@))
        &&& text_updated(old.created_at, new.created_at, nested_member(json@, "times"@, "creation"@))
        &&& text_updated(old.last_updated, new.last_updated, nested_member(json@, "times"@, "last_save"@))
        &&& text_updated(old.last_login, new.last_login, nested_member(json@, "times"@, "last_login"@))
        &&& count_updated(old.login_count, new.login_count, nested_member(json@, "times"@, "login_count"@))
        &&& count_updated(old.minutes_played, new.minutes_played, nested_member(json@, "times"@, "minutes_played"@))
        &&& count_updated(old.certs_earned, new.certs_earned, nested_member(json@, "certs"@, "earned_points"@))
        &&& count_updated(old.certs_gifted, new.certs_gifted, nested_member(json@, "certs"@, "gifted_points"@))
        &&& count_updated(old.certs_spent, new.certs_spent, nested_member(json@, "certs"@, "spent_points"@))
        &&& count_updated(old.certs_available, new.certs_available, nested_member(json@, "certs"@, "available_points"@))
        &&& byte_updated(old.certs_progress, new.certs_progress, nested_member(json@, "certs"@, "percent_to_next"@))
        &&& byte_updated(old.battle_rank, new.battle_rank, nested_member(json@, "battle_rank"@, "value"@))
        &&& byte_updated(old.battle_rank_progress, new.battle_rank_progress, nested_member(json@, "battle_rank"@, "percent_to_next"@))
        &&& byte_updated(old.profile_id, new.profile_id, member_or_null(json@, "profile_id"@))
        &&& byte_updated(old.daily_ribbon_count, new.daily_ribbon_count, nested_member(json@, "daily_ribbon"@, "count"@))
        &&& text_updated(old.daily_ribbon_time, new.daily_ribbon_time, nested_member(json@, "daily_ribbon"@, "time"@))
        &&& flag_updated(old.is_asp, new.is_asp, member_or_null(json@, "prestige_level"@))
    }

    /// A record of which nothing has been read.
    pub fn new(id: String) -> (r: Character)
        ensures
            r.id == id,
            r.is_unread(),
    {
        Character {
            id,
            name: CensusValue::new_empty(),
            faction_id: CensusValue::new_empty(),
            head_id: CensusValue::new_empty(),
            title_id: CensusValue::new_empty(),
            created_at: CensusValue::new_empty(),
            last_updated: CensusValue::new_empty(),
            last_login: CensusValue::new_empty(),
            login_count: CensusValue::new_empty(),
            minutes_played: CensusValue::new_empty(),
            certs_earned: CensusValue::new_empty(),
            certs_gifted: CensusValue::new_empty(),
            certs_spent: CensusValue::new_empty(),
            certs_available: CensusValue::new_empty(),
            certs_progress: CensusValue::new_empty(),
            battle_rank: CensusValue::new_empty(),
            battle_rank_progress: CensusValue::new_empty(),
            profile_id: CensusValue::new_empty(),
            daily_ribbon_count: CensusValue::new_empty(),
            daily_ribbon_time: CensusValue::new_empty(),
            is_asp: CensusValue::new_empty(),
        }
    }

    /// Reads each field that the record `json` holds in readable form;
    /// the others keep their values.
    pub fn update(&mut self, json: &JsonObject)
        ensures
            Self::updated(*old(self), *final(self), *json),
    {
        self.name.update(&json.get_nested("name", "first"));
        self.faction_id.update(&json.get_or_null("faction_id"));
        self.head_id.update(&json.get_or_null("head_id"));
        self.title_id.update(&json.get_or_null("title_id"));
        self.created_at.update(&json.get_nested("times", "creation"));
        self.last_updated.update(&json.get_nested("times", "last_save"));
        self.last_login.update(&json.get_nested("times", "last_login"));
        self.login_count.update(&json.get_nested("times", "login_count"));
        self.minutes_played.update(&json.get_nested("times", "minutes_played"));
        self.certs_earned.update(&json.get_nested("certs", "earned_points"));
        self.certs_gifted.update(&json.get_nested("certs", "gifted_points"));
        self.certs_spent.update(&json.get_nested("certs", "spent_points"));
        self.certs_available.update(&json.get_nested("certs", "available_points"));
        self.certs_progress.update(&json.get_nested("certs", "percent_to_next"));
        self.battle_rank.update(&json.get_nested("battle_rank", "value"));
        self.battle_rank_progress.update(&json.get_nested("battle_rank", "percent_to_next"));
        self.profile_id.update(&json.get_or_null("profile_id"));
        self.daily_ribbon_count.update(&json.get_nested("daily_ribbon", "count"));
        self.daily_ribbon_time.update(&json.get_nested("daily_ribbon", "time"));
        self.is_asp.update(&json.get_or_null("prestige_level"));
    }

    /// A character read from its record, which must hold its id as a string.
    pub fn from_json_value(json: &JsonObject) -> (r: Result<Character, CensusError>)
        ensures
            match r {
                Ok(c) => member(json@, "character_id"@) matches Some(JsonLeaf::Text(id)) && c.id@ == id
                    && exists|fresh: Character|
                    fresh.id == c.id && fresh.is_unread() && #[trigger] Self::updated(fresh, c, *json),
                Err(e) => !(member(json@, "character_id"@) matches Some(JsonLeaf::Text(_)))
                    && e.err_msg@ == "Could not get character id"@ && e.parent_err is None,
            },
    {
        let id = match json.get("character_id") {
            Some(JsonValue::Text(id)) => id.clone(),
            _ => {
                return Err(CensusError::new(String::from_str("Could not get character id")));
            },
        };
        let mut c = Character::new(id);
        let ghost fresh = c;
        c.update(json);
        assert(Self::updated(fresh, c, *json));
        Ok(c)
    }
}

/// An item held by a character.
#[derive(Clone, Debug)]
pub struct Item {
    pub id: u128,
    pub stack_count: u64,
}

/// An outfit, as far as it has been read from the service.
#[derive(Clone, Debug)]
pub struct Outfit {
    pub id: String,
    pub name: CensusValue<String>,
    pub tag: CensusValue<String>,
    pub created_at: CensusValue<std::time::SystemTime>,
    pub leader_character_id: CensusValue<String>,
    pub member_count: u64,
}

} // verus!
