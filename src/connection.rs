use vstd::prelude::*;

use crate::utils::CensusError;

verus! {

/// The environment of the PC servers.
pub const PC: &'static str = "ps2";

/// The environment of the US PlayStation 4 servers.
pub const PS4_US: &'static str = "ps2ps4us";

/// The environment of the EU PlayStation 4 servers.
pub const PS4_EU: &'static str = "ps2ps4eu";

/// How the reconnect weight of a session moves. All quantities are in tenths
/// of a reconnect.
#[derive(Debug, Clone, Copy, PartialEq, Eq, Structural)]
pub struct BackoffPolicy {
    /// The largest weight at which a reconnect is still attempted.
    pub ceiling: u32,
    /// The weight above which a received message decays the weight.
    pub floor: u32,
    /// How much one received message takes off the weight.
    pub decay: u32,
    /// How much one failed reconnect adds to the weight.
    pub penalty: u32,
}

impl BackoffPolicy {
    /// A policy that can refuse a reconnect: the ceiling is below the largest weight.
    pub open spec fn wf(self) -> bool {
        self.ceiling < u32::MAX
    }

    /// Whether a reconnect is attempted at weight `w`.
    pub open spec fn allows(self, w: int) -> bool {
        w <= self.ceiling
    }

    /// The weight after a message is received at weight `w`.
    pub open spec fn decayed(self, w: int) -> int {
        if w > self.floor {
            if w >= self.decay {
                w - self.decay
            } else {
                0
            }
        } else {
            w
        }
    }

    /// The weight after a reconnect fails at weight `w`.
    pub open spec fn penalized(self, w: int) -> int {
        if w + self.penalty <= u32::MAX {
            w + self.penalty
        } else {
            u32::MAX as int
        }
    }

    /// The standard policy: reconnects are refused once the weight passes ten
    /// reconnects; each message above one reconnect takes a tenth off; each
    /// failed reconnect adds one.
    pub fn standard() -> (r: BackoffPolicy)
        ensures
            r.ceiling == 100,
            r.floor == 10,
            r.decay == 1,
            r.penalty == 10,
            r.wf(),
    {
        BackoffPolicy { ceiling: 100, floor: 10, decay: 1, penalty: 10 }
    }

    pub fn decay_weight(&self, w: u32) -> (r: u32)
        ensures
            r == self.decayed(w as int),
    {
        if w > self.floor {
            if w >= self.decay {
                w - self.decay
            } else {
                0
            }
        } else {
            w
        }
    }

    pub fn penalize_weight(&self, w: u32) -> (r: u32)
        ensures
            r == self.penalized(w as int),
    {
        w.saturating_add(self.penalty)
    }
}

/// The address of the event stream for an environment and a service id.
pub open spec fn streaming_url(environment: Seq<char>, service_id: Seq<char>) -> Seq<char> {
    "wss://push.planetside2.com/streaming?environment="@ + environment + "&service-id=s:"@
        + service_id
}

/// The message of the error for a reconnect past the ceiling.
pub open spec fn too_many_reconnects_msg() -> Seq<char> {
    "Connection dropped too many times"@
}

/// The address to connect to, or the error that refuses the connection where
/// the reconnect weight is past the policy's ceiling.
pub fn connection_target(
    environment: &str,
    service_id: &str,
    reconnect_weight: u32,
    policy: &BackoffPolicy,
) -> (r: Result<String, CensusError>)
    ensures
        match r {
            Ok(url) => policy.allows(reconnect_weight as int) && url@ == streaming_url(
                environment@,
                service_id@,
            ),
            Err(e) => !policy.allows(reconnect_weight as int) && e.err_msg@ == too_many_reconnects_msg()
                && e.parent_err is None,
        },
{
    if reconnect_weight > policy.ceiling {
        return Err(CensusError::new(String::from_str("Connection dropped too many times")));
    }
    let mut url = String::from_str("wss://push.planetside2.com/streaming?environment=");
    url.append(environment);
    url.append("&service-id=s:");
    url.append(service_id);
    Ok(url)
}

} // verus!
