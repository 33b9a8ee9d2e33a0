use ps2api::connection::{connection_target, BackoffPolicy, PC, PS4_EU};
use ps2api::event_types::ApiEvent;
use ps2api::json::parse_json_object;
use ps2api::session::{classify_frame, FrameKind, Inbound, Phase, Session, Step};

const HEARTBEAT: &str = r#"{"online":{"EventServerEndpoint_Connery_1":"true"},"service":"event","type":"heartbeat"}"#;
const LOGIN: &str = r#"{"payload":{"character_id":"77","event_name":"PlayerLogin","timestamp":"1","world_id":"1"},"service":"event","type":"serviceMessage"}"#;

fn open_session() -> Session {
    let mut s = Session::new(PC, "example", BackoffPolicy::standard());
    s.reconnected();
    s
}

fn text(t: &str) -> Inbound {
    Inbound::Text(t.to_string())
}

#[test]
fn heartbeats_then_one_event() {
    let mut s = open_session();
    let mut delivered = 0;
    let mut errors = 0;
    let frames: Vec<&str> = vec![HEARTBEAT, HEARTBEAT, HEARTBEAT, HEARTBEAT, HEARTBEAT, LOGIN];
    for f in frames {
        match s.receive(text(f)) {
            Step::Continue => {}
            Step::Deliver(ApiEvent::PlayerLogin(e)) => {
                assert_eq!(e.character_id, "77");
                delivered += 1;
            }
            Step::Deliver(other) => panic!("unexpected {:?}", other),
            Step::Fail(e) => {
                errors += 1;
                panic!("unexpected {:?}", e);
            }
        }
    }
    assert_eq!(delivered, 1);
    assert_eq!(errors, 0);
}

#[test]
fn state_change_frames_pass() {
    let mut s = open_session();
    let service = r#"{"detail":"EventServerEndpoint_Cobalt_13","online":"true","service":"event","type":"serviceStateChanged"}"#;
    let connection = r#"{"connected":"true","service":"push","type":"connectionStateChanged"}"#;
    assert!(matches!(s.receive(text(service)), Step::Continue));
    assert!(matches!(s.receive(text(connection)), Step::Continue));
    assert!(matches!(s.receive(Inbound::Control), Step::Continue));
}

#[test]
fn subscribe_ack_passes() {
    let mut s = open_session();
    let ack = r#"{"subscription":{"characterCount":1,"eventNames":["Death"],"logicalAndCharactersWithWorlds":false,"worlds":[]}}"#;
    // no "subscribe" member: neither a type nor an acknowledgement
    assert!(matches!(s.receive(text(ack)), Step::Fail(_)));
    let ack = r#"{"subscribe":{"characterCount":1,"eventNames":["Death"]}}"#;
    assert!(matches!(s.receive(text(ack)), Step::Continue));
}

#[test]
fn frame_without_type_or_ack_is_an_error() {
    let mut s = open_session();
    match s.receive(text(r#"{"hello":"world"}"#)) {
        Step::Fail(e) => assert_eq!(e.err_msg, "Could not determine event type"),
        _ => panic!("expected an error"),
    }
    match s.receive(text(r#"{"subscribe":null}"#)) {
        Step::Fail(e) => assert_eq!(e.err_msg, "Could not determine event type"),
        _ => panic!("expected an error"),
    }
}

#[test]
fn unknown_type_is_an_error() {
    let mut s = open_session();
    match s.receive(text(r#"{"type":"weather"}"#)) {
        Step::Fail(e) => assert_eq!(e.err_msg, "Unknown event type: weather"),
        _ => panic!("expected an error"),
    }
}

#[test]
fn unparsable_frame_is_an_error() {
    let mut s = open_session();
    match s.receive(text("not json")) {
        Step::Fail(e) => {
            assert_eq!(e.err_msg, "Could not parse ws message to json");
            assert!(e.parent_err.is_some());
        }
        _ => panic!("expected an error"),
    }
}

#[test]
fn decode_error_does_not_end_session() {
    let mut s = open_session();
    let bad = r#"{"payload":{"event_name":"PlayerLogin","character_id":"1"},"type":"serviceMessage"}"#;
    assert!(matches!(s.receive(text(bad)), Step::Fail(_)));
    assert!(s.is_open());
    assert!(matches!(s.receive(text(LOGIN)), Step::Deliver(_)));
}

#[test]
fn transport_failures_are_errors() {
    let mut s = open_session();
    match s.receive(Inbound::Failed("reset".to_string())) {
        Step::Fail(e) => {
            assert_eq!(e.err_msg, "Unable to get next websocket message");
            assert_eq!(e.parent_err, Some("reset".to_string()));
        }
        _ => panic!("expected an error"),
    }
    match s.receive(Inbound::Unreadable("invalid utf-8".to_string())) {
        Step::Fail(e) => assert_eq!(e.err_msg, "Could not parse ws message to text"),
        _ => panic!("expected an error"),
    }
    assert!(matches!(s.receive(Inbound::Ended), Step::Fail(_)));
}

#[test]
fn close_then_reconnect_resumes() {
    let mut s = open_session();
    assert!(matches!(s.receive(Inbound::Close), Step::Continue));
    assert!(!s.is_open());
    assert_eq!(s.phase, Phase::Closed);
    let url = s.reconnect_target().unwrap();
    assert_eq!(url, "wss://push.planetside2.com/streaming?environment=ps2&service-id=s:example");
    s.reconnected();
    assert!(s.is_open());
    assert!(matches!(s.receive(text(LOGIN)), Step::Deliver(_)));
}

#[test]
fn repeated_closes_keep_reconnecting() {
    let mut s = open_session();
    for _ in 0..50 {
        assert!(matches!(s.receive(Inbound::Close), Step::Continue));
        assert!(s.reconnect_target().is_ok());
        s.reconnected();
        assert!(matches!(s.receive(text(LOGIN)), Step::Deliver(_)));
    }
}

#[test]
fn failed_reconnects_reach_the_ceiling() {
    let mut s = Session::new(PC, "example", BackoffPolicy::standard());
    for i in 0..11 {
        assert!(s.reconnect_target().is_ok(), "attempt {} refused", i);
        let e = s.reconnect_failed("handshake failed".to_string());
        assert_eq!(e.err_msg, "Could not reconnect to census api");
        assert_eq!(e.parent_err, Some("handshake failed".to_string()));
    }
    assert_eq!(s.reconnect_weight, 110);
    let err = s.reconnect_target().unwrap_err();
    assert_eq!(err.err_msg, "Connection dropped too many times");
    assert!(s.reconnect_target().is_err());
}

#[test]
fn messages_decay_the_weight() {
    let mut s = Session::new(PC, "example", BackoffPolicy::standard());
    s.reconnect_failed("x".to_string());
    s.reconnect_failed("x".to_string());
    assert_eq!(s.reconnect_weight, 20);
    s.reconnected();
    assert!(matches!(s.receive(text(HEARTBEAT)), Step::Continue));
    assert_eq!(s.reconnect_weight, 20);
    assert!(matches!(s.receive(text(LOGIN)), Step::Deliver(_)));
    assert_eq!(s.reconnect_weight, 19);
    for _ in 0..20 {
        s.receive(text(LOGIN));
    }
    assert_eq!(s.reconnect_weight, 10);
}

#[test]
fn connection_target_url_and_ceiling() {
    let p = BackoffPolicy::standard();
    assert_eq!(
        connection_target(PS4_EU, "abc", 0, &p).unwrap(),
        "wss://push.planetside2.com/streaming?environment=ps2ps4eu&service-id=s:abc"
    );
    assert!(connection_target(PC, "abc", 100, &p).is_ok());
    let err = connection_target(PC, "abc", 101, &p).unwrap_err();
    assert_eq!(err.err_msg, "Connection dropped too many times");
    assert!(err.parent_err.is_none());
}

#[test]
fn frames_are_classified() {
    let f = parse_json_object(HEARTBEAT).unwrap();
    assert!(matches!(classify_frame(&f), FrameKind::Heartbeat));
    let f = parse_json_object(LOGIN).unwrap();
    assert!(matches!(classify_frame(&f), FrameKind::ServiceMessage));
    let f = parse_json_object(r#"{"type":"other"}"#).unwrap();
    match classify_frame(&f) {
        FrameKind::UnknownType(t) => assert_eq!(t, "other"),
        k => panic!("unexpected {:?}", k),
    }
}
