use vstd::prelude::*;

use crate::text::{decimal_text, u8_to_decimal};

verus! {

/// A game server.
pub trait World {
    /// The server's id.
    spec fn id(&self) -> u8;

    fn id_u8(&self) -> (r: u8)
        ensures
            r == self.id(),
    ;

    /// The server's id, written in decimal.
    fn id_string(&self) -> (r: String)
        ensures
            r@ == decimal_text(self.id() as nat),
    {
        u8_to_decimal(self.id_u8())
    }
}

pub const COBALT_ID: u8 = 13;

pub const CONNERY_ID: u8 = 1;

pub const MILLER_ID: u8 = 10;

pub const JAEGER_ID: u8 = 19;

pub const EMERALD_ID: u8 = 17;

pub const SOLTECH_ID: u8 = 40;

pub const APEX_ID: u8 = 24;

pub const BRIGGS_ID: u8 = 25;

/// The PC servers.
#[derive(Debug, Clone, Copy, PartialEq, Eq, Structural)]
pub enum Worlds {
    COBALT,
    CONNERY,
    MILLER,
    JAEGER,
    EMERALD,
    SOLTECH,
    APEX,
    BRIGGS,
}

impl World for Worlds {
    open spec fn id(&self) -> u8 {
        match self {
            Worlds::COBALT => 13,
            Worlds::CONNERY => 1,
            Worlds::MILLER => 10,
            Worlds::JAEGER => 19,
            Worlds::EMERALD => 17,
            Worlds::SOLTECH => 40,
            Worlds::APEX => 24,
            Worlds::BRIGGS => 25,
        }
    }

    fn id_u8(&self) -> (r: u8) {
        match self {
            Worlds::COBALT => COBALT_ID,
            Worlds::CONNERY => CONNERY_ID,
            Worlds::MILLER => MILLER_ID,
            Worlds::JAEGER => JAEGER_ID,
            Worlds::EMERALD => EMERALD_ID,
            Worlds::SOLTECH => SOLTECH_ID,
            Worlds::APEX => APEX_ID,
            Worlds::BRIGGS => BRIGGS_ID,
        }
    }
}

} // verus!
