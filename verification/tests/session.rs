use rtvbp::header::Header;
use rtvbp::message::{EventMessage, Message, RequestMessage, ResponseMessage};
use rtvbp::op::session::SessionCapabilities;
use rtvbp::registry::Registry;
use rtvbp::session::{
    Inbound, Outcome, Reason, RequestError, Session, SessionError, SessionState,
};
use rtvbp::wire::{decode, DecodeError, Frame};
use serde_json::Value;

fn json(text: &str) -> Value {
    serde_json::from_str(text).unwrap()
}

fn active(id: &str) -> Session {
    let mut s = Session::with_id(id.to_string());
    s.transport_established();
    let hello = Message::Event(EventMessage {
        header: Header::new("h0".to_string(), 0),
        event: "hello".to_string(),
        data: None,
    });
    s.handshake(hello).unwrap();
    assert!(s.next_outbound().is_some());
    s
}

fn registry() -> Registry<u8> {
    let mut r = Registry::new();
    r.register_request_handler("ping".to_string(), 1);
    r.register_event_handler("log".to_string(), 2);
    r.register_data_handler(3);
    r
}

fn text(t: &str) -> Frame {
    Frame::Text(t.to_string())
}

fn sent(s: &mut Session) -> Message {
    decode(s.next_outbound().expect("something to send")).unwrap()
}

#[test]
fn lifecycle() {
    let mut s = Session::with_id("s1".to_string());
    assert_eq!(s.id(), "s1");
    assert_eq!(s.state(), SessionState::Connecting);
    assert_eq!(s.send_binary(vec![1]), Err(SessionError::NotActive));
    assert_eq!(
        s.session_create_with(Header::new("h".to_string(), 1), SessionCapabilities::new(), None),
        Err(SessionError::NotHandshaking)
    );
    s.transport_established();
    assert_eq!(s.state(), SessionState::Handshaking);
    s.transport_established();
    assert_eq!(s.state(), SessionState::Handshaking);
    assert!(!s.open());
    assert_eq!(
        s.session_create_with(Header::new("h".to_string(), 1), SessionCapabilities::new(), None),
        Ok(())
    );
    assert_eq!(s.state(), SessionState::Active);
    assert!(s.open());
    assert!(!s.open());
    match sent(&mut s) {
        Message::Request(r) => {
            assert_eq!(r.header.id, "h");
            assert_eq!(r.request, "session_create");
            let data = r.data.unwrap();
            assert_eq!(data["session_id"], "s1");
            assert_eq!(data["capabilities"]["events"], json("[]"));
            assert_eq!(data["capabilities"]["requests"], json("[]"));
        }
        other => panic!("unexpected {:?}", other),
    }
    assert!(s.is_drained());
    s.send_binary(vec![1, 2]).unwrap();
    assert_eq!(s.wind_down(), Vec::<String>::new());
    assert_eq!(s.state(), SessionState::Terminating);
    assert!(s.next_outbound().is_some());
    assert_eq!(s.state(), SessionState::Closed);
    assert!(s.next_outbound().is_none());
}

#[test]
fn new_session_has_random_id() {
    let a = Session::new();
    let b = Session::new();
    assert_eq!(a.id().chars().count(), 21);
    assert_ne!(a.id(), b.id());
    assert_eq!(a.state(), SessionState::Connecting);
    let mut c = Session::new();
    c.transport_established();
    assert_eq!(c.session_create(SessionCapabilities::default(), None), Ok(()));
    assert_eq!(c.state(), SessionState::Active);
}

#[test]
fn outbound_is_fifo() {
    let mut s = active("s");
    s.send_binary(vec![1]).unwrap();
    s.send_binary(vec![2]).unwrap();
    s.send_all(vec![Message::Binary(vec![3]), Message::Binary(vec![4])]).unwrap();
    for expected in 1u8..=4 {
        match s.next_outbound() {
            Some(Frame::Binary(b)) => assert_eq!(b, vec![expected]),
            other => panic!("unexpected {:?}", other),
        }
    }
    assert!(s.next_outbound().is_none());
}

#[test]
fn scenario_ping() {
    let mut s = active("server");
    let r = registry();
    let inbound = s.receive(
        &r,
        text("{\"id\":\"a1\",\"ts\":1000,\"request\":\"ping\",\"data\":{}}"),
        Header::new("unused".to_string(), 0),
    );
    match inbound {
        Inbound::Request(r) => {
            assert_eq!(r.header.id, "a1");
            assert_eq!(r.header.timestamp, 1000);
            assert_eq!(r.request, "ping");
            assert_eq!(r.data, Some(json("{}")));
        }
        other => panic!("unexpected {:?}", other),
    }
    assert!(s.is_busy());
    assert!(s.is_drained());
    s.handler_returned(Outcome::Done(Some(json("{}"))), Header::new("b1".to_string(), 1010));
    assert!(!s.is_busy());
    match s.next_outbound() {
        Some(Frame::Text(t)) => assert_eq!(
            t,
            "{\"id\":\"b1\",\"ts\":1010,\"response\":\"a1\",\"status\":200,\"data\":{}}"
        ),
        other => panic!("unexpected {:?}", other),
    }
}

#[test]
fn scenario_unregistered_method() {
    let mut s = active("server");
    let r = registry();
    let inbound = s.receive(
        &r,
        text("{\"id\":\"a2\",\"ts\":1,\"request\":\"unregistered_method\",\"data\":{}}"),
        Header::new("b2".to_string(), 2),
    );
    match inbound {
        Inbound::Dropped(reason) => assert_eq!(reason, Reason::UnknownMethod),
        other => panic!("unexpected {:?}", other),
    }
    assert!(!s.is_busy());
    assert_eq!(s.pending(), 0);
    match sent(&mut s) {
        Message::Response(resp) => {
            assert_eq!(resp.header.id, "b2");
            assert_eq!(resp.response, "a2");
            assert_eq!(resp.status, 404);
            assert!(resp.status >= 400 && resp.status < 500);
            assert_eq!(resp.data, None);
        }
        other => panic!("unexpected {:?}", other),
    }
    assert!(s.is_drained());
}

#[test]
fn handler_failure_becomes_error_response() {
    let mut s = active("server");
    let r = registry();
    let _ = s.receive(&r, text("{\"id\":\"q\",\"ts\":1,\"request\":\"ping\"}"), Header::mint());
    s.handler_returned(
        Outcome::Failed { status: 422, data: Some(json("{\"why\":\"no\"}")) },
        Header::new("x".to_string(), 2),
    );
    match sent(&mut s) {
        Message::Response(resp) => {
            assert_eq!(resp.response, "q");
            assert_eq!(resp.status, 422);
            assert_eq!(resp.data, Some(json("{\"why\":\"no\"}")));
        }
        other => panic!("unexpected {:?}", other),
    }
    // a failure never travels under a success status
    let _ = s.receive(&r, text("{\"id\":\"q2\",\"ts\":1,\"request\":\"ping\"}"), Header::mint());
    s.handler_returned(Outcome::Failed { status: 200, data: None }, Header::mint());
    match sent(&mut s) {
        Message::Response(resp) => assert_eq!(resp.status, 500),
        other => panic!("unexpected {:?}", other),
    }
    assert_eq!(s.state(), SessionState::Active);
}

#[test]
fn dispatch_is_sequential() {
    let mut s = active("server");
    let r = registry();
    let first = s.receive(&r, text("{\"id\":\"1\",\"ts\":1,\"request\":\"ping\"}"), Header::mint());
    assert!(matches!(first, Inbound::Request(_)));
    let second = s.receive(&r, text("{\"id\":\"2\",\"ts\":2,\"event\":\"log\"}"), Header::mint());
    let frame = match second {
        Inbound::Deferred(f) => f,
        other => panic!("unexpected {:?}", other),
    };
    match &frame {
        Frame::Text(t) => assert_eq!(t, "{\"id\":\"2\",\"ts\":2,\"event\":\"log\"}"),
        other => panic!("unexpected {:?}", other),
    }
    s.reply(Outcome::Done(None));
    let again = s.on_frame(&r, frame);
    match again {
        Inbound::Event(e) => {
            assert_eq!(e.event, "log");
            assert_eq!(e.header.id, "2");
            assert_eq!(e.data, None);
        }
        other => panic!("unexpected {:?}", other),
    }
    assert!(s.is_busy());
    s.reply(Outcome::Done(None));
    assert!(!s.is_busy());
    // the event produced no response; the request produced one
    assert!(matches!(sent(&mut s), Message::Response(_)));
    assert!(s.is_drained());
}

#[test]
fn events_and_binary_frames() {
    let mut s = active("server");
    let r = registry();
    match s.on_frame(&r, text("{\"id\":\"1\",\"ts\":1,\"event\":\"nobody\"}")) {
        Inbound::Dropped(reason) => assert_eq!(reason, Reason::UnknownEvent),
        other => panic!("unexpected {:?}", other),
    }
    assert!(!s.is_busy());
    assert!(s.is_drained());
    match s.on_frame(&r, Frame::Binary(vec![7, 7])) {
        Inbound::Binary(b) => assert_eq!(b, vec![7, 7]),
        other => panic!("unexpected {:?}", other),
    }
    s.reply(Outcome::Done(None));
    assert!(s.is_drained());
    let empty: Registry<u8> = Registry::new();
    match s.on_frame(&empty, Frame::Binary(vec![7, 7])) {
        Inbound::Dropped(reason) => assert_eq!(reason, Reason::NoBinaryHandler),
        other => panic!("unexpected {:?}", other),
    }
    match s.on_frame(&r, text("garbage")) {
        Inbound::Dropped(reason) => assert_eq!(reason, Reason::Undecodable(DecodeError::Syntax)),
        other => panic!("unexpected {:?}", other),
    }
    assert_eq!(s.state(), SessionState::Active);
}

#[test]
fn request_is_correlated() {
    let mut s = active("client");
    let r = registry();
    assert_eq!(
        s.request_with(Header::new("r1".to_string(), 5), "ping".to_string(), None, 100, 50),
        Ok(())
    );
    assert_eq!(s.pending(), 1);
    match sent(&mut s) {
        Message::Request(req) => {
            assert_eq!(req.header.id, "r1");
            assert_eq!(req.request, "ping");
        }
        other => panic!("unexpected {:?}", other),
    }
    let answer = "{\"id\":\"x\",\"ts\":6,\"response\":\"r1\",\"status\":200,\"data\":{}}";
    match s.on_frame(&r, text(answer)) {
        Inbound::Resolved(resp) => {
            assert_eq!(resp.response, "r1");
            assert_eq!(resp.status, 200);
        }
        other => panic!("unexpected {:?}", other),
    }
    assert_eq!(s.pending(), 0);
    // a duplicate response is dropped
    match s.on_frame(&r, text(answer)) {
        Inbound::Dropped(reason) => assert_eq!(reason, Reason::Unmatched),
        other => panic!("unexpected {:?}", other),
    }
    // the id cannot be used again
    assert_eq!(
        s.request_with(Header::new("r1".to_string(), 7), "ping".to_string(), None, 100, 50),
        Err(RequestError::DuplicateId)
    );
    assert!(s.is_drained());
}

#[test]
fn request_ids_are_distinct() {
    let mut s = active("client");
    let mut ids = Vec::new();
    for _ in 0..50 {
        ids.push(s.request("ping".to_string(), None, 0, 10).unwrap());
    }
    for i in 0..ids.len() {
        for j in 0..i {
            assert_ne!(ids[i], ids[j]);
        }
    }
    assert_eq!(s.pending(), 50);
}

#[test]
fn request_times_out_and_late_response_is_dropped() {
    let mut s = active("client");
    let r = registry();
    s.request_with(Header::new("r1".to_string(), 5), "ping".to_string(), None, 1000, 500).unwrap();
    assert_eq!(s.expire(1499), Vec::<String>::new());
    assert_eq!(s.expire(1500), vec!["r1".to_string()]);
    assert_eq!(s.pending(), 0);
    let late = "{\"id\":\"x\",\"ts\":6,\"response\":\"r1\",\"status\":200}";
    match s.on_frame(&r, text(late)) {
        Inbound::Dropped(reason) => assert_eq!(reason, Reason::Unmatched),
        other => panic!("unexpected {:?}", other),
    }
    assert_eq!(s.state(), SessionState::Active);
}

#[test]
fn teardown_on_end_of_stream() {
    let mut s = active("client");
    let r = registry();
    s.request_with(Header::new("r1".to_string(), 5), "ping".to_string(), None, 0, 500).unwrap();
    s.request_with(Header::new("r2".to_string(), 5), "ping".to_string(), None, 0, 500).unwrap();
    assert_eq!(s.end_of_stream(), vec!["r1".to_string(), "r2".to_string()]);
    assert_eq!(s.pending(), 0);
    assert_eq!(s.state(), SessionState::Terminating);
    assert_eq!(s.send_binary(vec![1]), Err(SessionError::NotActive));
    assert_eq!(
        s.send(Message::Binary(vec![1])),
        Err(SessionError::NotActive)
    );
    assert_eq!(
        s.request("ping".to_string(), None, 0, 1),
        Err(RequestError::SessionClosed)
    );
    match s.on_frame(&r, text("{\"id\":\"1\",\"ts\":1,\"request\":\"ping\"}")) {
        Inbound::Dropped(reason) => assert_eq!(reason, Reason::Inactive),
        other => panic!("unexpected {:?}", other),
    }
    // what was queued is still sent, then the session is closed
    assert!(s.next_outbound().is_some());
    assert_eq!(s.state(), SessionState::Terminating);
    assert!(s.next_outbound().is_some());
    assert_eq!(s.state(), SessionState::Closed);
    assert!(s.next_outbound().is_none());
    assert_eq!(s.end_of_stream(), Vec::<String>::new());
    assert_eq!(s.state(), SessionState::Closed);
}

#[test]
fn end_of_stream_with_empty_queue_closes() {
    let mut s = active("client");
    assert_eq!(s.end_of_stream(), Vec::<String>::new());
    assert_eq!(s.state(), SessionState::Closed);
}

#[test]
fn transport_failure_closes_at_once() {
    let mut s = active("client");
    s.request_with(Header::new("r1".to_string(), 5), "ping".to_string(), None, 0, 500).unwrap();
    assert_eq!(s.transport_failed(), vec!["r1".to_string()]);
    assert_eq!(s.state(), SessionState::Closed);
    assert!(s.is_drained());
    assert!(s.next_outbound().is_none());
    assert_eq!(s.send_binary(vec![]), Err(SessionError::NotActive));
}

#[test]
fn response_of_handler_is_lost_when_session_ended() {
    let mut s = active("server");
    let r = registry();
    let _ = s.on_frame(&r, text("{\"id\":\"1\",\"ts\":1,\"request\":\"ping\"}"));
    s.end_of_stream();
    assert_eq!(s.state(), SessionState::Closed);
    s.reply(Outcome::Done(None));
    assert!(!s.is_busy());
    assert!(s.is_drained());
    let _ = ResponseMessage {
        header: Header::new("x".to_string(), 0),
        response: "1".to_string(),
        status: 200,
        data: None,
    };
    let _ = RequestMessage {
        header: Header::new("x".to_string(), 0),
        request: "m".to_string(),
        data: None,
    };
}
