use rtvbp::header::Header;
use rtvbp::message::{EventMessage, Message};
use rtvbp::server::{Keepalive, Probe, KEEPALIVE_INTERVAL};
use rtvbp::session::{RequestError, Session, SessionState};
use rtvbp::wire::decode;

fn active() -> Session {
    let mut s = Session::with_id("s".to_string());
    s.transport_established();
    s.handshake(Message::Event(EventMessage {
        header: Header::new("h0".to_string(), 0),
        event: "hello".to_string(),
        data: None,
    }))
    .unwrap();
    assert!(s.next_outbound().is_some());
    s
}

#[test]
fn probe_is_sent_when_due() {
    let mut s = active();
    let mut k = Keepalive::new(KEEPALIVE_INTERVAL, 3000, 500);
    assert_eq!(KEEPALIVE_INTERVAL, 10_000);
    assert!(!k.due(499));
    assert!(k.due(500));
    assert_eq!(k.tick_with(&mut s, 499, Header::new("probe-z".to_string(), 0)), Probe::NotDue);
    assert!(s.is_drained());
    assert_eq!(k.tick_with(&mut s, 500, Header::new("probe-a".to_string(), 1)), Probe::Sent);
    assert_eq!(k.next, 10_500);
    assert_eq!(s.pending(), 1);
    match decode(s.next_outbound().unwrap()).unwrap() {
        Message::Request(r) => {
            assert_eq!(r.header.id, "probe-a");
            assert_eq!(r.request, "ping");
            assert_eq!(r.data, Some(serde_json::from_str("{}").unwrap()));
        }
        other => panic!("unexpected {:?}", other),
    }
    assert_eq!(k.tick(&mut s, 10_499), Probe::NotDue);
    assert_eq!(k.tick(&mut s, 10_500), Probe::Sent);
    assert_eq!(k.next, 20_500);
    // the first probe times out after 3000 ms
    assert_eq!(s.expire(3500), vec!["probe-a".to_string()]);
}

#[test]
fn failed_probe_does_not_end_the_session() {
    let mut s = active();
    let mut k = Keepalive::new(100, 50, 0);
    assert_eq!(k.tick_with(&mut s, 0, Header::new("p".to_string(), 0)), Probe::Sent);
    assert_eq!(
        k.tick_with(&mut s, 100, Header::new("p".to_string(), 0)),
        Probe::Failed(RequestError::DuplicateId)
    );
    assert_eq!(k.next, 200);
    assert_eq!(s.state(), SessionState::Active);
    assert_eq!(s.pending(), 1);

    let mut idle = Session::with_id("idle".to_string());
    assert_eq!(k.tick(&mut idle, 200), Probe::Failed(RequestError::SessionClosed));
    assert_eq!(idle.state(), SessionState::Connecting);
    assert_eq!(k.next, 300);
}

#[test]
fn next_probe_time_saturates() {
    let mut s = active();
    let mut k = Keepalive::new(100, 50, 0);
    assert_eq!(k.tick(&mut s, u64::MAX - 5), Probe::Sent);
    assert_eq!(k.next, u64::MAX);
}
