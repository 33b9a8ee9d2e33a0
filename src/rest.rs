use vstd::prelude::*;

use crate::json::str_eq;

verus! {

/// A kind of related record that a query can ask the service to embed.
pub trait Resolveable: Sized {
    /// The kind's name in a query.
    spec fn resolve_name(&self) -> Seq<char>;

    /// The kind with the query name `name`, if any.
    spec fn named(name: Seq<char>) -> Option<Self>;

    fn from_resolve_string(resolve: &str) -> (r: Option<Self>)
        ensures
            r == Self::named(resolve@),
    ;

    fn to_resolve_string(&self) -> (r: String)
        ensures
            r@ == self.resolve_name(),
    ;
}

/// The records a character query can embed.
#[derive(Debug, Clone, Copy, PartialEq, Eq, Structural)]
pub enum CharacterResolves {
    Item,
    ItemFull,
    Profile,
    Faction,
    Stat,
    StatByFaction,
    WeaponStat,
    WeaponStatByFaction,
    StatHistory,
    OnlineStatus,
    Friends,
    World,
    Outfit,
    OutfitMember,
    OutfitMemberExtended,
    Currency,
}

impl Resolveable for CharacterResolves {
    open spec fn resolve_name(&self) -> Seq<char> {
        match self {
            CharacterResolves::Item => "item"@,
            CharacterResolves::ItemFull => "item_full"@,
            CharacterResolves::Profile => "profile"@,
            CharacterResolves::Faction => "faction"@,
            CharacterResolves::Stat => "stat"@,
            CharacterResolves::StatByFaction => "stat_by_faction"@,
            CharacterResolves::WeaponStat => "weapon_stat"@,
            CharacterResolves::WeaponStatByFaction => "weapon_stat_by_faction"@,
            CharacterResolves::StatHistory => "stat_history"@,
            CharacterResolves::OnlineStatus => "online_status"@,
            CharacterResolves::Friends => "friends"@,
            CharacterResolves::World => "world"@,
            CharacterResolves::Outfit => "outfit"@,
            CharacterResolves::OutfitMember => "outfit_member"@,
            CharacterResolves::OutfitMemberExtended => "outfit_member_extended"@,
            CharacterResolves::Currency => "currency"@,
        }
    }

    open spec fn named(name: Seq<char>) -> Option<Self> {
        if name == "item"@ {
            Some(CharacterResolves::Item)
        } else if name == "item_full"@ {
            Some(CharacterResolves::ItemFull)
        } else if name == "profile"@ {
            Some(CharacterResolves::Profile)
        } else if name == "faction"@ {
            Some(CharacterResolves::Faction)
        } else if name == "stat"@ {
            Some(CharacterResolves::Stat)
        } else if name == "stat_by_faction"@ {
            Some(CharacterResolves::StatByFaction)
        } else if name == "weapon_stat"@ {
            Some(CharacterResolves::WeaponStat)
        } else if name == "weapon_stat_by_faction"@ {
            Some(CharacterResolves::WeaponStatByFaction)
        } else if name == "stat_history"@ {
            Some(CharacterResolves::StatHistory)
        } else if name == "online_status"@ {
            Some(CharacterResolves::OnlineStatus)
        } else if name == "friends"@ {
            Some(CharacterResolves::Friends)
        } else if name == "world"@ {
            Some(CharacterResolves::World)
        } else if name == "outfit"@ {
            Some(CharacterResolves::Outfit)
        } else if name == "outfit_member"@ {
            Some(CharacterResolves::OutfitMember)
        } else if name == "outfit_member_extended"@ {
            Some(CharacterResolves::OutfitMemberExtended)
        } else if name == "currency"@ {
            Some(CharacterResolves::Currency)
        } else {
            None
        }
    }

    fn from_resolve_string(resolve: &str) -> (r: Option<Self>) {
        if str_eq(resolve, "item") {
            return Some(CharacterResolves::Item);
        }
        if str_eq(resolve, "item_full") {
            return Some(CharacterResolves::ItemFull);
        }
        if str_eq(resolve, "profile") {
            return Some(CharacterResolves::Profile);
        }
        if str_eq(resolve, "faction") {
            return Some(CharacterResolves::Faction);
        }
        if str_eq(resolve, "stat") {
            return Some(CharacterResolves::Stat);
        }
        if str_eq(resolve, "stat_by_faction") {
            return Some(CharacterResolves::StatByFaction);
        }
        if str_eq(resolve, "weapon_stat") {
            return Some(CharacterResolves::WeaponStat);
        }
        if str_eq(resolve, "weapon_stat_by_faction") {
            return Some(CharacterResolves::WeaponStatByFaction);
        }
        if str_eq(resolve, "stat_history") {
            return Some(CharacterResolves::StatHistory);
        }
        if str_eq(resolve, "online_status") {
            return Some(CharacterResolves::OnlineStatus);
        }
        if str_eq(resolve, "friends") {
            return Some(CharacterResolves::Friends);
        }
        if str_eq(resolve, "world") {
            return Some(CharacterResolves::World);
        }
        if str_eq(resolve, "outfit") {
            return Some(CharacterResolves::Outfit);
        }
        if str_eq(resolve, "outfit_member") {
            return Some(CharacterResolves::OutfitMember);
        }
        if str_eq(resolve, "outfit_member_extended") {
            return Some(CharacterResolves::OutfitMemberExtended);
        }
        if str_eq(resolve, "currency") {
            return Some(CharacterResolves::Currency);
        }
        None
    }

    fn to_resolve_string(&self) -> (r: String) {
        let name = match self {
            CharacterResolves::Item => "item",
            CharacterResolves::ItemFull => "item_full",
            CharacterResolves::Profile => "profile",
            CharacterResolves::Faction => "faction",
            CharacterResolves::Stat => "stat",
            CharacterResolves::StatByFaction => "stat_by_faction",
            CharacterResolves::WeaponStat => "weapon_stat",
            CharacterResolves::WeaponStatByFaction => "weapon_stat_by_faction",
            CharacterResolves::StatHistory => "stat_history",
            CharacterResolves::OnlineStatus => "online_status",
            CharacterResolves::Friends => "friends",
            CharacterResolves::World => "world",
            CharacterResolves::Outfit => "outfit",
            CharacterResolves::OutfitMember => "outfit_member",
            CharacterResolves::OutfitMemberExtended => "outfit_member_extended",
            CharacterResolves::Currency => "currency",
        };
        String::from_str(name)
    }
}

/// Each character resolve is read back from its own query name.
pub proof fn lemma_character_resolve_round_trip(r: CharacterResolves)
    ensures
        CharacterResolves::named(r.resolve_name()) == Some(r),
{
    reveal_strlit("item");
    reveal_strlit("item_full");
    reveal_strlit("profile");
    reveal_strlit("faction");
    reveal_strlit("stat");
    reveal_strlit("stat_by_faction");
    reveal_strlit("weapon_stat");
    reveal_strlit("weapon_stat_by_faction");
    reveal_strlit("stat_history");
    reveal_strlit("online_status");
    reveal_strlit("friends");
    reveal_strlit("world");
    reveal_strlit("outfit");
    reveal_strlit("outfit_member");
    reveal_strlit("outfit_member_extended");
    reveal_strlit("currency");
    assert("item"@.len() == 4 && "item"@[0] == 'i' && "item"@.last() == 'm');
    assert("item_full"@.len() == 9 && "item_full"@[0] == 'i' && "item_full"@.last() == 'l');
    assert("profile"@.len() == 7 && "profile"@[0] == 'p' && "profile"@.last() == 'e');
    assert("faction"@.len() == 7 && "faction"@[0] == 'f' && "faction"@.last() == 'n');
    assert("stat"@.len() == 4 && "stat"@[0] == 's' && "stat"@.last() == 't');
    assert("stat_by_faction"@.len() == 15 && "stat_by_faction"@[0] == 's' && "stat_by_faction"@.last() == 'n');
    assert("weapon_stat"@.len() == 11 && "weapon_stat"@[0] == 'w' && "weapon_stat"@.last() == 't');
    assert("weapon_stat_by_faction"@.len() == 22 && "weapon_stat_by_faction"@[0] == 'w' && "weapon_stat_by_faction"@.last() == 'n');
    assert("stat_history"@.len() == 12 && "stat_history"@[0] == 's' && "stat_history"@.last() == 'y');
    assert("online_status"@.len() == 13 && "online_status"@[0] == 'o' && "online_status"@.last() == 's');
    assert("friends"@.len() == 7 && "friends"@[0] == 'f' && "friends"@.last() == 's');
    assert("world"@.len() == 5 && "world"@[0] == 'w' && "world"@.last() == 'd');
    assert("outfit"@.len() == 6 && "outfit"@[0] == 'o' && "outfit"@.last() == 't');
    assert("outfit_member"@.len() == 13 && "outfit_member"@[0] == 'o' && "outfit_member"@.last() == 'r');
    assert("outfit_member_extended"@.len() == 22 && "outfit_member_extended"@[0] == 'o' && "outfit_member_extended"@.last() == 'd');
    assert("currency"@.len() == 8 && "currency"@[0] == 'c' && "currency"@.last() == 'y');
    match r {
        CharacterResolves::Item => {},
        CharacterResolves::ItemFull => {},
        CharacterResolves::Profile => {},
        CharacterResolves::Faction => {},
        CharacterResolves::Stat => {},
        CharacterResolves::StatByFaction => {},
        CharacterResolves::WeaponStat => {},
        CharacterResolves::WeaponStatByFaction => {},
        CharacterResolves::StatHistory => {},
        CharacterResolves::OnlineStatus => {},
        CharacterResolves::Friends => {},
        CharacterResolves::World => {},
        CharacterResolves::Outfit => {},
        CharacterResolves::OutfitMember => {},
        CharacterResolves::OutfitMemberExtended => {},
        CharacterResolves::Currency => {},
    }
}

/// A character's class.
#[derive(Debug, Clone, Copy, PartialEq, Eq, Structural)]
pub enum CharacterClass {
    Infiltrator,
    LightAssault,
    CombatMedic,
    Engineer,
    HeavyAssault,
    Max,
}

impl CharacterClass {
    /// The class with the name or the id `name_or_id`, if any.
    pub open spec fn named(name_or_id: Seq<char>) -> Option<CharacterClass> {
        if name_or_id == "infiltrator"@ {
            Some(CharacterClass::Infiltrator)
        } else if name_or_id == "max"@ {
            Some(CharacterClass::Max)
        } else if name_or_id == "engineer"@ {
            Some(CharacterClass::Engineer)
        } else if name_or_id == "light assault"@ {
            Some(CharacterClass::LightAssault)
        } else if name_or_id == "combat medic"@ {
            Some(CharacterClass::CombatMedic)
        } else if name_or_id == "heavy assault"@ {
            Some(CharacterClass::HeavyAssault)
        } else if name_or_id == "light_assault"@ {
            Some(CharacterClass::LightAssault)
        } else if name_or_id == "combat_medic"@ {
            Some(CharacterClass::CombatMedic)
        } else if name_or_id == "heavy_assault"@ {
            Some(CharacterClass::HeavyAssault)
        } else if name_or_id == "lightassault"@ {
            Some(CharacterClass::LightAssault)
        } else if name_or_id == "combatmedic"@ {
            Some(CharacterClass::CombatMedic)
        } else if name_or_id == "heavyassault"@ {
            Some(CharacterClass::HeavyAssault)
        } else if name_or_id == "1"@ {
            Some(CharacterClass::Infiltrator)
        } else if name_or_id == "3"@ {
            Some(CharacterClass::LightAssault)
        } else if name_or_id == "4"@ {
            Some(CharacterClass::CombatMedic)
        } else if name_or_id == "5"@ {
            Some(CharacterClass::Engineer)
        } else if name_or_id == "6"@ {
            Some(CharacterClass::HeavyAssault)
        } else if name_or_id == "7"@ {
            Some(CharacterClass::Max)
        } else {
            None
        }
    }

    /// The class's id.
    pub open spec fn id(self) -> Seq<char> {
        match self {
            CharacterClass::Infiltrator => "1"@,
            CharacterClass::LightAssault => "3"@,
            CharacterClass::CombatMedic => "4"@,
            CharacterClass::Engineer => "5"@,
            CharacterClass::HeavyAssault => "6"@,
            CharacterClass::Max => "7"@,
        }
    }

    /// The class named by a lower-case name (with a space, an underscore or
    /// nothing between words) or by its id.
    pub fn new(name_or_id: &str) -> (r: Option<CharacterClass>)
        ensures
            r == Self::named(name_or_id@),
    {
        if str_eq(name_or_id, "infiltrator") {
            return Some(CharacterClass::Infiltrator);
        }
        if str_eq(name_or_id, "max") {
            return Some(CharacterClass::Max);
        }
        if str_eq(name_or_id, "engineer") {
            return Some(CharacterClass::Engineer);
        }
        if str_eq(name_or_id, "light assault") {
            return Some(CharacterClass::LightAssault);
        }
        if str_eq(name_or_id, "combat medic") {
            return Some(CharacterClass::CombatMedic);
        }
        if str_eq(name_or_id, "heavy assault") {
            return Some(CharacterClass::HeavyAssault);
        }
        if str_eq(name_or_id, "light_assault") {
            return Some(CharacterClass::LightAssault);
        }
        if str_eq(name_or_id, "combat_medic") {
            return Some(CharacterClass::CombatMedic);
        }
        if str_eq(name_or_id, "heavy_assault") {
            return Some(CharacterClass::HeavyAssault);
        }
        if str_eq(name_or_id, "lightassault") {
            return Some(CharacterClass::LightAssault);
        }
        if str_eq(name_or_id, "combatmedic") {
            return Some(CharacterClass::CombatMedic);
        }
        if str_eq(name_or_id, "heavyassault") {
            return Some(CharacterClass::HeavyAssault);
        }
        if str_eq(name_or_id, "1") {
            return Some(CharacterClass::Infiltrator);
        }
        if str_eq(name_or_id, "3") {
            return Some(CharacterClass::LightAssault);
        }
        if str_eq(name_or_id, "4") {
            return Some(CharacterClass::CombatMedic);
        }
        if str_eq(name_or_id, "5") {
            return Some(CharacterClass::Engineer);
        }
        if str_eq(name_or_id, "6") {
            return Some(CharacterClass::HeavyAssault);
        }
        if str_eq(name_or_id, "7") {
            return Some(CharacterClass::Max);
        }
        None
    }

    pub fn to_id(&self) -> (r: String)
        ensures
            r@ == self.id(),
    {
        let id = match self {
            CharacterClass::Infiltrator => "1",
            CharacterClass::LightAssault => "3",
            CharacterClass::CombatMedic => "4",
            CharacterClass::Engineer => "5",
            CharacterClass::HeavyAssault => "6",
            CharacterClass::Max => "7",
        };
        String::from_str(id)
    }
}

/// Each class is read back from its own id.
pub proof fn lemma_class_id_round_trip(c: CharacterClass)
    ensures
        CharacterClass::named(c.id()) == Some(c),
{
    reveal_strlit("infiltrator");
    reveal_strlit("max");
    reveal_strlit("engineer");
    reveal_strlit("light assault");
    reveal_strlit("combat medic");
    reveal_strlit("heavy assault");
    reveal_strlit("light_assault");
    reveal_strlit("combat_medic");
    reveal_strlit("heavy_assault");
    reveal_strlit("lightassault");
    reveal_strlit("combatmedic");
    reveal_strlit("heavyassault");
    reveal_strlit("1");
    reveal_strlit("3");
    reveal_strlit("4");
    reveal_strlit("5");
    reveal_strlit("6");
    reveal_strlit("7");
    assert("infiltrator"@.len() == 11 && "infiltrator"@[0] == 'i');
    assert("max"@.len() == 3 && "max"@[0] == 'm');
    assert("engineer"@.len() == 8 && "engineer"@[0] == 'e');
    assert("light assault"@.len() == 13 && "light assault"@[0] == 'l');
    assert("combat medic"@.len() == 12 && "combat medic"@[0] == 'c');
    assert("heavy assault"@.len() == 13 && "heavy assault"@[0] == 'h');
    assert("light_assault"@.len() == 13 && "light_assault"@[0] == 'l');
    assert("combat_medic"@.len() == 12 && "combat_medic"@[0] == 'c');
    assert("heavy_assault"@.len() == 13 && "heavy_assault"@[0] == 'h');
    assert("lightassault"@.len() == 12 && "lightassault"@[0] == 'l');
    assert("combatmedic"@.len() == 11 && "combatmedic"@[0] == 'c');
    assert("heavyassault"@.len() == 12 && "heavyassault"@[0] == 'h');
    assert("1"@.len() == 1 && "1"@[0] == '1');
    assert("3"@.len() == 1 && "3"@[0] == '3');
    assert("4"@.len() == 1 && "4"@[0] == '4');
    assert("5"@.len() == 1 && "5"@[0] == '5');
    assert("6"@.len() == 1 && "6"@[0] == '6');
    assert("7"@.len() == 1 && "7"@[0] == '7');
    match c {
        CharacterClass::Infiltrator => {},
        CharacterClass::LightAssault => {},
        CharacterClass::CombatMedic => {},
        CharacterClass::Engineer => {},
        CharacterClass::HeavyAssault => {},
        CharacterClass::Max => {},
    }
}

/// A text in each language the service translates into.
pub struct LocalisedString {
    pub de: Option<String>,
    pub en: Option<String>,
    pub es: Option<String>,
    pub fr: Option<String>,
    pub it: Option<String>,
    pub tr: Option<String>,
}

} // verus!
