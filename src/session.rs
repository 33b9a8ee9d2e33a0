use vstd::prelude::*;

use crate::connection::{connection_target, BackoffPolicy};
use crate::decoder::{decode_failure, event_decoded_from, parse_service_message, service_payload};
use crate::event_types::ApiEvent;
use crate::json::{json_object_fields, member, parse_json_object, str_eq, JsonFields, JsonObject, JsonValue};
use crate::parse_helpers::text_member;
use crate::utils::CensusError;

verus! {

/// What a frame of the event stream announces, by its `type` member, or by its
/// `subscribe` member where it has no string `type`.
#[derive(Debug)]
pub enum FrameKind {
    Heartbeat,
    ServiceStateChanged,
    ConnectionStateChanged,
    ServiceMessage,
    /// The acknowledgement of a subscription.
    SubscribeAck,
    /// A `type` this library does not know.
    UnknownType(String),
    /// Neither a string `type` nor a `subscribe` acknowledgement.
    Undetermined,
}

/// Whether a frame has a `subscribe` member that is not null.
pub open spec fn is_subscribe_ack(o: JsonFields) -> bool {
    member(o, "subscribe"@) matches Some(v) && !(v is Null)
}

/// Whether `k` is the kind of the frame `o`.
pub open spec fn kind_of_frame(o: JsonFields, k: FrameKind) -> bool {
    match text_member(o, "type"@) {
        Some(t) => if t == "heartbeat"@ {
            k is Heartbeat
        } else if t == "serviceStateChanged"@ {
            k is ServiceStateChanged
        } else if t == "connectionStateChanged"@ {
            k is ConnectionStateChanged
        } else if t == "serviceMessage"@ {
            k is ServiceMessage
        } else {
            k matches FrameKind::UnknownType(s) && s@ == t
        },
        None => if is_subscribe_ack(o) {
            k is SubscribeAck
        } else {
            k is Undetermined
        },
    }
}

/// Sorts a frame by what it announces.
pub fn classify_frame(frame: &JsonObject) -> (r: FrameKind)
    ensures
        kind_of_frame(frame@, r),
{
    match frame.get("type") {
        Some(JsonValue::Text(t)) => {
            if str_eq(t.as_str(), "heartbeat") {
                FrameKind::Heartbeat
            } else if str_eq(t.as_str(), "serviceStateChanged") {
                FrameKind::ServiceStateChanged
            } else if str_eq(t.as_str(), "connectionStateChanged") {
                FrameKind::ConnectionStateChanged
            } else if str_eq(t.as_str(), "serviceMessage") {
                FrameKind::ServiceMessage
            } else {
                FrameKind::UnknownType(t.clone())
            }
        },
        _ => match frame.get("subscribe") {
            Some(JsonValue::Null) => FrameKind::Undetermined,
            Some(_) => FrameKind::SubscribeAck,
            None => FrameKind::Undetermined,
        },
    }
}

/// What the transport handed over.
#[derive(Debug)]
pub enum Inbound {
    /// A text frame.
    Text(String),
    /// A ping or pong frame, which the transport answers by itself.
    Control,
    /// A close frame.
    Close,
    /// A frame whose content is not text; the reason.
    Unreadable(String),
    /// A transport failure; its description.
    Failed(String),
    /// The end of the stream.
    Ended,
}

/// What a session does after a transport event.
#[derive(Debug)]
pub enum Step {
    /// Wait for the next frame (reconnecting first where the session is closed).
    Continue,
    /// Hand this event to the caller.
    Deliver(ApiEvent),
    /// Hand this error to the caller.
    Fail(CensusError),
}

/// Whether the connection of a session is open.
#[derive(Debug, Clone, Copy, PartialEq, Eq, Structural)]
pub enum Phase {
    Open,
    /// No connection yet, or the last one was closed: a reconnect is due.
    Closed,
}

/// The state of an event stream session: where it connects, its reconnect
/// weight, and whether its connection is open.
#[derive(Debug)]
pub struct Session {
    pub environment: String,
    pub service_id: String,
    /// The reconnect weight, in tenths of a reconnect.
    pub reconnect_weight: u32,
    pub policy: BackoffPolicy,
    pub phase: Phase,
}

pub open spec fn fails_with(step: Step, msg: Seq<char>) -> bool {
    step matches Step::Fail(e) && e.err_msg@ == msg && e.parent_err is None
}

pub open spec fn fails_with_parent(step: Step, msg: Seq<char>, parent: Seq<char>) -> bool {
    &&& step matches Step::Fail(e)
    &&& e.err_msg@ == msg
    &&& e.parent_err matches Some(p)
    &&& p@ == parent
}

/// What a service message frame `o` hands to the caller: its decoded event,
/// or the error decoding fails with.
pub open spec fn service_message_step(o: JsonFields, step: Step) -> bool {
    let payload = service_payload(o);
    match step {
        Step::Deliver(ev) => decode_failure(payload) is None && event_decoded_from(ev, payload),
        Step::Fail(e) => decode_failure(payload) == Some(e.err_msg@) && e.parent_err is None,
        Step::Continue => false,
    }
}

impl Session {
    /// The session after a message was received: its weight decayed.
    pub open spec fn after_message(self) -> Session {
        Session { reconnect_weight: self.policy.decayed(self.reconnect_weight as int) as u32, ..self }
    }

    /// The session after a successful reconnect: open, its weight unchanged.
    pub open spec fn reopened(self) -> Session {
        Session { phase: Phase::Open, ..self }
    }

    /// The session after a failed reconnect: still closed, its weight penalized.
    pub open spec fn after_failed_reconnect(self) -> Session {
        Session { reconnect_weight: self.policy.penalized(self.reconnect_weight as int) as u32, ..self }
    }

    /// How a session moves on the parsed text frame `o`.
    pub open spec fn text_frame_step(self, o: JsonFields, next: Session, step: Step) -> bool {
        match text_member(o, "type"@) {
            Some(t) => if t == "heartbeat"@ {
                next == self && step is Continue
            } else {
                &&& next == self.after_message()
                &&& if t == "serviceStateChanged"@ || t == "connectionStateChanged"@ {
                    step is Continue
                } else if t == "serviceMessage"@ {
                    service_message_step(o, step)
                } else {
                    fails_with(step, "Unknown event type: "@ + t)
                }
            },
            None => {
                &&& next == self.after_message()
                &&& if is_subscribe_ack(o) {
                    step is Continue
                } else {
                    fails_with(step, "Could not determine event type"@)
                }
            },
        }
    }

    /// How a session moves on what the transport handed over: `next` is the
    /// session after it, `step` what follows.
    pub open spec fn receives(self, inbound: Inbound, next: Session, step: Step) -> bool {
        match inbound {
            Inbound::Text(t) => match json_object_fields(t@) {
                Some(o) => self.text_frame_step(o, next, step),
                None => next == self && (step matches Step::Fail(e) && e.err_msg@
                    == "Could not parse ws message to json"@ && e.parent_err is Some),
            },
            Inbound::Control => next == self && step is Continue,
            Inbound::Close => next == (Session { phase: Phase::Closed, ..self }) && step is Continue,
            Inbound::Unreadable(reason) => next == self && fails_with_parent(
                step,
                "Could not parse ws message to text"@,
                reason@,
            ),
            Inbound::Failed(reason) => next == self && fails_with_parent(
                step,
                "Unable to get next websocket message"@,
                reason@,
            ),
            Inbound::Ended => next == self && fails_with(step, "The event stream ended"@),
        }
    }

    /// A session for an environment and a service id that has yet to connect.
    pub fn new(environment: &str, service_id: &str, policy: BackoffPolicy) -> (r: Session)
        ensures
            r.environment@ == environment@,
            r.service_id@ == service_id@,
            r.reconnect_weight == 0,
            r.policy == policy,
            r.phase == Phase::Closed,
    {
        Session {
            environment: String::from_str(environment),
            service_id: String::from_str(service_id),
            reconnect_weight: 0,
            policy,
            phase: Phase::Closed,
        }
    }

    pub fn is_open(&self) -> (r: bool)
        ensures
            r == (self.phase == Phase::Open),
    {
        match self.phase {
            Phase::Open => true,
            Phase::Closed => false,
        }
    }

    /// The address to (re)connect to, or the error that refuses it past the
    /// reconnect ceiling.
    pub fn reconnect_target(&self) -> (r: Result<String, CensusError>)
        ensures
            match r {
                Ok(url) => self.policy.allows(self.reconnect_weight as int) && url@
                    == crate::connection::streaming_url(self.environment@, self.service_id@),
                Err(e) => !self.policy.allows(self.reconnect_weight as int) && e.err_msg@
                    == crate::connection::too_many_reconnects_msg() && e.parent_err is None,
            },
    {
        connection_target(self.environment.as_str(), self.service_id.as_str(), self.reconnect_weight, &self.policy)
    }

    /// Records a successful (re)connect.
    pub fn reconnected(&mut self)
        ensures
            *final(self) == old(self).reopened(),
    {
        self.phase = Phase::Open;
    }

    /// Records a failed reconnect, and returns the error for the caller.
    pub fn reconnect_failed(&mut self, reason: String) -> (r: CensusError)
        ensures
            *final(self) == old(self).after_failed_reconnect(),
            r.err_msg@ == "Could not reconnect to census api"@,
            r.parent_err matches Some(p) && p@ == reason@,
    {
        self.reconnect_weight = self.policy.penalize_weight(self.reconnect_weight);
        CensusError::with_parent(String::from_str("Could not reconnect to census api"), reason)
    }

    fn handle_frame(&mut self, frame: &JsonObject) -> (r: Step)
        ensures
            old(self).text_frame_step(frame@, *final(self), r),
    {
        let kind = classify_frame(frame);
        if let FrameKind::Heartbeat = kind {
            return Step::Continue;
        }
        self.reconnect_weight = self.policy.decay_weight(self.reconnect_weight);
        match kind {
            FrameKind::Heartbeat | FrameKind::ServiceStateChanged | FrameKind::ConnectionStateChanged
            | FrameKind::SubscribeAck => Step::Continue,
            FrameKind::ServiceMessage => match parse_service_message(frame) {
                Ok(ev) => Step::Deliver(ev),
                Err(e) => Step::Fail(e),
            },
            FrameKind::UnknownType(t) => {
                let mut msg = String::from_str("Unknown event type: ");
                msg.append(t.as_str());
                Step::Fail(CensusError::new(msg))
            },
            FrameKind::Undetermined => Step::Fail(
                CensusError::new(String::from_str("Could not determine event type")),
            ),
        }
    }

    /// Moves the session on what the transport handed over, and says what
    /// follows. Heartbeats, state changes and subscription acknowledgements
    /// are passed over; a close frame leaves the session closed, due for a
    /// reconnect.
    pub fn receive(&mut self, inbound: Inbound) -> (r: Step)
        ensures
            old(self).receives(inbound, *final(self), r),
    {
        match inbound {
            Inbound::Text(t) => match parse_json_object(t.as_str()) {
                Ok(frame) => self.handle_frame(&frame),
                Err(reason) => Step::Fail(
                    CensusError::with_parent(String::from_str("Could not parse ws message to json"), reason),
                ),
            },
            Inbound::Control => Step::Continue,
            Inbound::Close => {
                self.phase = Phase::Closed;
                Step::Continue
            },
            Inbound::Unreadable(reason) => Step::Fail(
                CensusError::with_parent(String::from_str("Could not parse ws message to text"), reason),
            ),
            Inbound::Failed(reason) => Step::Fail(
                CensusError::with_parent(String::from_str("Unable to get next websocket message"), reason),
            ),
            Inbound::Ended => Step::Fail(CensusError::new(String::from_str("The event stream ended"))),
        }
    }
}

/// Whether `inbound` is a text frame whose `type` is `ty`.
pub open spec fn frame_of_type(inbound: Inbound, ty: Seq<char>) -> bool {
    &&& inbound matches Inbound::Text(t)
    &&& json_object_fields(t@) matches Some(o)
    &&& text_member(o, "type"@) == Some(ty)
}

/// Whether `inbound` is a heartbeat or a state-change frame.
pub open spec fn is_status_frame(inbound: Inbound) -> bool {
    ||| frame_of_type(inbound, "heartbeat"@)
    ||| frame_of_type(inbound, "serviceStateChanged"@)
    ||| frame_of_type(inbound, "connectionStateChanged"@)
}

/// The number of steps that hand an event to the caller.
pub open spec fn delivered_count(steps: Seq<Step>) -> nat
    decreases steps.len(),
{
    if steps.len() == 0 {
        0
    } else {
        delivered_count(steps.drop_last()) + if steps.last() is Deliver {
            1nat
        } else {
            0nat
        }
    }
}

/// Heartbeat and state-change frames never hand an event or an error to the caller.
pub proof fn lemma_status_frames_pass(s: Session, inbound: Inbound, next: Session, step: Step)
    requires
        is_status_frame(inbound),
        s.receives(inbound, next, step),
    ensures
        step is Continue,
{
}

proof fn lemma_no_delivery(steps: Seq<Step>)
    requires
        forall|i: int| 0 <= i < steps.len() ==> #[trigger] steps[i] is Continue,
    ensures
        delivered_count(steps) == 0,
    decreases steps.len(),
{
    if steps.len() > 0 {
        let t = steps.drop_last();
        assert forall|i: int| 0 <= i < t.len() implies #[trigger] t[i] is Continue by {
            assert(t[i] == steps[i]);
        }
        lemma_no_delivery(t);
    }
}

proof fn lemma_heartbeats_keep_session(sessions: Seq<Session>, frames: Seq<Inbound>, steps: Seq<Step>, k: int)
    requires
        sessions.len() == frames.len() + 1,
        steps.len() == frames.len(),
        forall|i: int| 0 <= i < frames.len() ==> #[trigger] sessions[i].receives(frames[i], sessions[i + 1], steps[i]),
        forall|i: int| 0 <= i < frames.len() - 1 ==> frame_of_type(#[trigger] frames[i], "heartbeat"@),
        0 <= k < frames.len(),
    ensures
        sessions[k] == sessions[0],
        forall|i: int| 0 <= i < k ==> #[trigger] steps[i] is Continue,
    decreases k,
{
    if k > 0 {
        lemma_heartbeats_keep_session(sessions, frames, steps, k - 1);
        let j = k - 1;
        assert(sessions[j].receives(frames[j], sessions[j + 1], steps[j]));
        assert(frame_of_type(frames[j], "heartbeat"@));
    }
}

/// Against a stream of heartbeats followed by one service message, the
/// heartbeats pass over without changing the session, and exactly the service
/// message is handed to the caller: as an event where its payload decodes, as
/// its decoding error otherwise.
pub proof fn lemma_heartbeats_then_message(sessions: Seq<Session>, frames: Seq<Inbound>, steps: Seq<Step>)
    requires
        frames.len() > 0,
        sessions.len() == frames.len() + 1,
        steps.len() == frames.len(),
        forall|i: int| 0 <= i < frames.len() ==> #[trigger] sessions[i].receives(frames[i], sessions[i + 1], steps[i]),
        forall|i: int| 0 <= i < frames.len() - 1 ==> frame_of_type(#[trigger] frames[i], "heartbeat"@),
        frame_of_type(frames.last(), "serviceMessage"@),
    ensures
        forall|i: int| 0 <= i < frames.len() - 1 ==> #[trigger] steps[i] is Continue,
        sessions[frames.len() - 1] == sessions[0],
        frames.last() matches Inbound::Text(t) && json_object_fields(t@) matches Some(o)
            && service_message_step(o, steps.last()),
        delivered_count(steps) == if steps.last() is Deliver {
            1nat
        } else {
            0nat
        },
        !(steps.last() is Continue),
{
    let n = frames.len() as int;
    lemma_heartbeats_keep_session(sessions, frames, steps, n - 1);
    reveal_strlit("heartbeat");
    reveal_strlit("serviceMessage");
    reveal_strlit("serviceStateChanged");
    reveal_strlit("connectionStateChanged");
    assert("heartbeat"@.len() == 9);
    assert("serviceMessage"@.len() == 14);
    assert("serviceStateChanged"@.len() == 19);
    assert("connectionStateChanged"@.len() == 22);
    let j = n - 1;
    assert(sessions[j].receives(frames[j], sessions[j + 1], steps[j]));
    let prefix = steps.drop_last();
    assert forall|i: int| 0 <= i < prefix.len() implies #[trigger] prefix[i] is Continue by {
        assert(prefix[i] == steps[i]);
    }
    lemma_no_delivery(prefix);
}

/// A close frame on an open session is passed over without error. It leaves
/// the session closed with its reconnect weight, so that a reconnect is
/// granted exactly where it would have been before; once reconnected, the
/// session is the one from before the close, and handles what follows as it
/// would have.
pub proof fn lemma_close_then_resume(s: Session, next: Session, step: Step)
    requires
        s.phase == Phase::Open,
        s.receives(Inbound::Close, next, step),
    ensures
        step is Continue,
        next.phase == Phase::Closed,
        next.reconnect_weight == s.reconnect_weight,
        next.policy.allows(next.reconnect_weight as int) == s.policy.allows(s.reconnect_weight as int),
        next.reopened() == s,
{
}

proof fn lemma_failures_accumulate(sessions: Seq<Session>, k: int)
    requires
        sessions.len() > 0,
        forall|i: int| 0 <= i < sessions.len() - 1 ==> #[trigger] sessions[i + 1] == sessions[i].after_failed_reconnect(),
        0 <= k < sessions.len(),
    ensures
        sessions[k].policy == sessions[0].policy,
        sessions[k].reconnect_weight >= sessions[0].reconnect_weight + k * sessions[0].policy.penalty
            || sessions[k].reconnect_weight == u32::MAX,
    decreases k,
{
    if k > 0 {
        lemma_failures_accumulate(sessions, k - 1);
        let j = k - 1;
        assert(sessions[j + 1] == sessions[j].after_failed_reconnect());
        assert((k - 1) * sessions[0].policy.penalty + sessions[0].policy.penalty == k * sessions[0].policy.penalty)
            by (nonlinear_arith);
    }
}

/// Each failed reconnect adds the policy's penalty to the weight, and the
/// weight does not decay while no message comes; so after enough consecutive
/// failed reconnects the next attempt is refused with the too-many-reconnects
/// error.
pub proof fn lemma_failed_reconnects_reach_ceiling(sessions: Seq<Session>)
    requires
        sessions.len() > 0,
        sessions[0].policy.wf(),
        forall|i: int| 0 <= i < sessions.len() - 1 ==> #[trigger] sessions[i + 1] == sessions[i].after_failed_reconnect(),
        (sessions.len() - 1) * sessions[0].policy.penalty > sessions[0].policy.ceiling,
    ensures
        !sessions.last().policy.allows(sessions.last().reconnect_weight as int),
{
    lemma_failures_accumulate(sessions, sessions.len() - 1);
}

} // verus!
