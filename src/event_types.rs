use vstd::prelude::*;

use crate::api_events::{
    AchievementEarned, BattleRankUp, ConnectionStateChange, ContinentLock, ContinentUnlock, Death,
    FacilityControl, GainExperience, ItemAdded, MetagameEvent, PlayerFacilityCapture,
    PlayerFacilityDefend, PlayerLogin, PlayerLogout, ServiceStateChange, SkillAdded, VehicleDestroy,
};

verus! {

/// The event kinds a client can subscribe to.
#[derive(Debug, Clone, Copy, PartialEq, Eq, Structural)]
pub enum ApiSubscriptionName {
    PlayerLogin,
    PlayerLogout,
    ContinentLock,
    ContinentUnlock,
    FacilityControl,
    MetagameEvent,
    AchievementEarned,
    BattleRankUp,
    Death,
    ItemAdded,
    SkillAdded,
    VehicleDestroy,
    GainExperience,
    PlayerFacilityCapture,
    PlayerFacilityDefend,
}

impl ApiSubscriptionName {
    /// The name of the kind on the wire.
    pub open spec fn name(self) -> Seq<char> {
        match self {
            ApiSubscriptionName::PlayerLogin => "PlayerLogin"@,
            ApiSubscriptionName::PlayerLogout => "PlayerLogout"@,
            ApiSubscriptionName::ContinentLock => "ContinentLock"@,
            ApiSubscriptionName::ContinentUnlock => "ContinentUnlock"@,
            ApiSubscriptionName::FacilityControl => "FacilityControl"@,
            ApiSubscriptionName::MetagameEvent => "MetagameEvent"@,
            ApiSubscriptionName::AchievementEarned => "AchievementEarned"@,
            ApiSubscriptionName::BattleRankUp => "BattleRankUp"@,
            ApiSubscriptionName::Death => "Death"@,
            ApiSubscriptionName::ItemAdded => "ItemAdded"@,
            ApiSubscriptionName::SkillAdded => "SkillAdded"@,
            ApiSubscriptionName::VehicleDestroy => "VehicleDestroy"@,
            ApiSubscriptionName::GainExperience => "GainExperience"@,
            ApiSubscriptionName::PlayerFacilityCapture => "PlayerFacilityCapture"@,
            ApiSubscriptionName::PlayerFacilityDefend => "PlayerFacilityDefend"@,
        }
    }

    /// The name of the kind on the wire, as used in subscriptions and in the
    /// `event_name` of the events it delivers.
    pub fn str(&self) -> (r: &'static str)
        ensures
            r@ == self.name(),
    {
        match self {
            ApiSubscriptionName::PlayerLogin => "PlayerLogin",
            ApiSubscriptionName::PlayerLogout => "PlayerLogout",
            ApiSubscriptionName::ContinentLock => "ContinentLock",
            ApiSubscriptionName::ContinentUnlock => "ContinentUnlock",
            ApiSubscriptionName::FacilityControl => "FacilityControl",
            ApiSubscriptionName::MetagameEvent => "MetagameEvent",
            ApiSubscriptionName::AchievementEarned => "AchievementEarned",
            ApiSubscriptionName::BattleRankUp => "BattleRankUp",
            ApiSubscriptionName::Death => "Death",
            ApiSubscriptionName::ItemAdded => "ItemAdded",
            ApiSubscriptionName::SkillAdded => "SkillAdded",
            ApiSubscriptionName::VehicleDestroy => "VehicleDestroy",
            ApiSubscriptionName::GainExperience => "GainExperience",
            ApiSubscriptionName::PlayerFacilityCapture => "PlayerFacilityCapture",
            ApiSubscriptionName::PlayerFacilityDefend => "PlayerFacilityDefend",
        }
    }
}

/// One event received from the event stream.
///
/// The status variants are never produced by this library's session: it
/// passes heartbeat and state-change frames over rather than surfacing them.
#[derive(Debug)]
pub enum ApiEvent {
    ServiceStateChange(ServiceStateChange),
    ConnectionStateChange(ConnectionStateChange),
    Help,
    PlayerLogin(PlayerLogin),
    PlayerLogout(PlayerLogout),
    ContinentLock(ContinentLock),
    ContinentUnlock(ContinentUnlock),
    FacilityControl(FacilityControl),
    MetagameEvent(MetagameEvent),
    AchievementEarned(AchievementEarned),
    BattleRankUp(BattleRankUp),
    Death(Death),
    ItemAdded(ItemAdded),
    SkillAdded(SkillAdded),
    VehicleDestroy(VehicleDestroy),
    GainExperience(GainExperience),
    PlayerFacilityCapture(PlayerFacilityCapture),
    PlayerFacilityDefend(PlayerFacilityDefend),
}

/// An event sorted into its family.
#[derive(Debug)]
pub enum ApiEventTypes {
    Status(ApiStatusEvents),
    Connection(ApiConnectionEvents),
    World(ApiWorldEvents),
    Character(ApiCharacterEvents),
}

/// Events about the service and the connection themselves.
#[derive(Debug)]
pub enum ApiStatusEvents {
    ServiceStateChange(ServiceStateChange),
    ConnectionStateChange(ConnectionStateChange),
    Help,
}

/// Characters logging in and out.
#[derive(Debug)]
pub enum ApiConnectionEvents {
    PlayerLogin(PlayerLogin),
    PlayerLogout(PlayerLogout),
}

/// Events about a world and its continents.
#[derive(Debug)]
pub enum ApiWorldEvents {
    ContinentLock(ContinentLock),
    ContinentUnlock(ContinentUnlock),
    FacilityControl(FacilityControl),
    MetagameEvent(MetagameEvent),
}

/// Events about one character.
#[derive(Debug)]
pub enum ApiCharacterEvents {
    AchievementEarned(AchievementEarned),
    BattleRankUp(BattleRankUp),
    Death(Death),
    ItemAdded(ItemAdded),
    SkillAdded(SkillAdded),
    VehicleDestroy(VehicleDestroy),
    GainExperience(GainExperience),
    PlayerFacilityCapture(PlayerFacilityCapture),
    PlayerFacilityDefend(PlayerFacilityDefend),
}

impl ApiEvent {
    /// The event sorted into its family.
    pub open spec fn typed(self) -> ApiEventTypes {
        match self {
            ApiEvent::ServiceStateChange(e) => ApiEventTypes::Status(ApiStatusEvents::ServiceStateChange(e)),
            ApiEvent::ConnectionStateChange(e) => ApiEventTypes::Status(
                ApiStatusEvents::ConnectionStateChange(e),
            ),
            ApiEvent::Help => ApiEventTypes::Status(ApiStatusEvents::Help),
            ApiEvent::PlayerLogin(e) => ApiEventTypes::Connection(ApiConnectionEvents::PlayerLogin(e)),
            ApiEvent::PlayerLogout(e) => ApiEventTypes::Connection(ApiConnectionEvents::PlayerLogout(e)),
            ApiEvent::ContinentLock(e) => ApiEventTypes::World(ApiWorldEvents::ContinentLock(e)),
            ApiEvent::ContinentUnlock(e) => ApiEventTypes::World(ApiWorldEvents::ContinentUnlock(e)),
            ApiEvent::FacilityControl(e) => ApiEventTypes::World(ApiWorldEvents::FacilityControl(e)),
            ApiEvent::MetagameEvent(e) => ApiEventTypes::World(ApiWorldEvents::MetagameEvent(e)),
            ApiEvent::AchievementEarned(e) => ApiEventTypes::Character(ApiCharacterEvents::AchievementEarned(e)),
            ApiEvent::BattleRankUp(e) => ApiEventTypes::Character(ApiCharacterEvents::BattleRankUp(e)),
            ApiEvent::Death(e) => ApiEventTypes::Character(ApiCharacterEvents::Death(e)),
            ApiEvent::ItemAdded(e) => ApiEventTypes::Character(ApiCharacterEvents::ItemAdded(e)),
            ApiEvent::SkillAdded(e) => ApiEventTypes::Character(ApiCharacterEvents::SkillAdded(e)),
            ApiEvent::VehicleDestroy(e) => ApiEventTypes::Character(ApiCharacterEvents::VehicleDestroy(e)),
            ApiEvent::GainExperience(e) => ApiEventTypes::Character(ApiCharacterEvents::GainExperience(e)),
            ApiEvent::PlayerFacilityCapture(e) => ApiEventTypes::Character(ApiCharacterEvents::PlayerFacilityCapture(e)),
            ApiEvent::PlayerFacilityDefend(e) => ApiEventTypes::Character(ApiCharacterEvents::PlayerFacilityDefend(e)),
        }
    }

    /// The kind of subscription that delivers this event, for the events that
    /// come from subscriptions.
    pub open spec fn subscription(self) -> Option<ApiSubscriptionName> {
        match self {
            ApiEvent::PlayerLogin(_) => Some(ApiSubscriptionName::PlayerLogin),
            ApiEvent::PlayerLogout(_) => Some(ApiSubscriptionName::PlayerLogout),
            ApiEvent::ContinentLock(_) => Some(ApiSubscriptionName::ContinentLock),
            ApiEvent::ContinentUnlock(_) => Some(ApiSubscriptionName::ContinentUnlock),
            ApiEvent::FacilityControl(_) => Some(ApiSubscriptionName::FacilityControl),
            ApiEvent::MetagameEvent(_) => Some(ApiSubscriptionName::MetagameEvent),
            ApiEvent::AchievementEarned(_) => Some(ApiSubscriptionName::AchievementEarned),
            ApiEvent::BattleRankUp(_) => Some(ApiSubscriptionName::BattleRankUp),
            ApiEvent::Death(_) => Some(ApiSubscriptionName::Death),
            ApiEvent::ItemAdded(_) => Some(ApiSubscriptionName::ItemAdded),
            ApiEvent::SkillAdded(_) => Some(ApiSubscriptionName::SkillAdded),
            ApiEvent::VehicleDestroy(_) => Some(ApiSubscriptionName::VehicleDestroy),
            ApiEvent::GainExperience(_) => Some(ApiSubscriptionName::GainExperience),
            ApiEvent::PlayerFacilityCapture(_) => Some(ApiSubscriptionName::PlayerFacilityCapture),
            ApiEvent::PlayerFacilityDefend(_) => Some(ApiSubscriptionName::PlayerFacilityDefend),
            _ => None,
        }
    }

    /// Sorts the event into its family.
    pub fn to_type(self) -> (r: ApiEventTypes)
        ensures
            r == self.typed(),
    {
        match self {
            ApiEvent::ServiceStateChange(e) => ApiEventTypes::Status(ApiStatusEvents::ServiceStateChange(e)),
            ApiEvent::ConnectionStateChange(e) => ApiEventTypes::Status(
                ApiStatusEvents::ConnectionStateChange(e),
            ),
            ApiEvent::Help => ApiEventTypes::Status(ApiStatusEvents::Help),
            ApiEvent::PlayerLogin(e) => ApiEventTypes::Connection(ApiConnectionEvents::PlayerLogin(e)),
            ApiEvent::PlayerLogout(e) => ApiEventTypes::Connection(ApiConnectionEvents::PlayerLogout(e)),
            ApiEvent::ContinentLock(e) => ApiEventTypes::World(ApiWorldEvents::ContinentLock(e)),
            ApiEvent::ContinentUnlock(e) => ApiEventTypes::World(ApiWorldEvents::ContinentUnlock(e)),
            ApiEvent::FacilityControl(e) => ApiEventTypes::World(ApiWorldEvents::FacilityControl(e)),
            ApiEvent::MetagameEvent(e) => ApiEventTypes::World(ApiWorldEvents::MetagameEvent(e)),
            ApiEvent::AchievementEarned(e) => ApiEventTypes::Character(ApiCharacterEvents::AchievementEarned(e)),
            ApiEvent::BattleRankUp(e) => ApiEventTypes::Character(ApiCharacterEvents::BattleRankUp(e)),
            ApiEvent::Death(e) => ApiEventTypes::Character(ApiCharacterEvents::Death(e)),
            ApiEvent::ItemAdded(e) => ApiEventTypes::Character(ApiCharacterEvents::ItemAdded(e)),
            ApiEvent::SkillAdded(e) => ApiEventTypes::Character(ApiCharacterEvents::SkillAdded(e)),
            ApiEvent::VehicleDestroy(e) => ApiEventTypes::Character(ApiCharacterEvents::VehicleDestroy(e)),
            ApiEvent::GainExperience(e) => ApiEventTypes::Character(ApiCharacterEvents::GainExperience(e)),
            ApiEvent::PlayerFacilityCapture(e) => ApiEventTypes::Character(ApiCharacterEvents::PlayerFacilityCapture(e)),
            ApiEvent::PlayerFacilityDefend(e) => ApiEventTypes::Character(ApiCharacterEvents::PlayerFacilityDefend(e)),
        }
    }
}

} // verus!
