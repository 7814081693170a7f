use rtvbp::handler::{argument, conclude, HandlerError, MessageContext};
use rtvbp::op::playback::{PlaybackStartResponse, PlaybackStopRequest};
use rtvbp::message::Message;
use rtvbp::session::Outcome;

#[test]
fn context_collects_what_the_handler_sends() {
    let mut c = MessageContext::new(true, Message::Binary(vec![1]));
    assert!(c.msg().is_binary());
    assert!(c.send(Message::Binary(vec![2])).is_ok());
    assert!(c.send(Message::Binary(vec![3])).is_ok());
    let sent = c.finish();
    assert_eq!(sent.len(), 2);
    match (&sent[0], &sent[1]) {
        (Message::Binary(a), Message::Binary(b)) => {
            assert_eq!(a, &vec![2]);
            assert_eq!(b, &vec![3]);
        }
        other => panic!("unexpected {:?}", other),
    }
}

#[test]
fn closed_context_refuses() {
    let mut c = MessageContext::new(false, Message::Binary(vec![1]));
    assert!(matches!(c.send(Message::Binary(vec![2])), Err(HandlerError::QueueClosed)));
    assert!(c.finish().is_empty());
}

#[test]
fn handler_error_becomes_outcome() {
    match HandlerError::QueueClosed.outcome() {
        Outcome::Failed { status, data } => {
            assert_eq!(status, 500);
            assert_eq!(data, None);
        }
        Outcome::Done(_) => panic!("expected a failure"),
    }
    let e = HandlerError::Failed { status: 409, message: "busy".to_string() };
    match e.outcome() {
        Outcome::Failed { status, data } => {
            assert_eq!(status, 409);
            let data = data.unwrap();
            assert_eq!(data["error_message"], "busy");
            assert_eq!(data["status"], 409);
        }
        Outcome::Done(_) => panic!("expected a failure"),
    }
}

#[test]
fn typed_dispatch() {
    let good: serde_json::Value = serde_json::from_str("{\"id\":\"pb\"}").unwrap();
    let bad: serde_json::Value = serde_json::from_str("{\"id\":7}").unwrap();
    let request: PlaybackStopRequest = argument(&good).unwrap();
    assert_eq!(request.id, "pb");
    match argument::<PlaybackStopRequest>(&bad) {
        Err(HandlerError::Failed { status, .. }) => assert_eq!(status, 400),
        other => panic!("unexpected {:?}", other),
    }
    match conclude(Ok(PlaybackStartResponse { id: "x".to_string() })) {
        Outcome::Done(Some(v)) => assert_eq!(v, good_id("x")),
        _ => panic!("expected success"),
    }
    let failed: Result<PlaybackStartResponse, HandlerError> =
        Err(HandlerError::Failed { status: 404, message: "no such prompt".to_string() });
    match conclude(failed) {
        Outcome::Failed { status, data } => {
            assert_eq!(status, 404);
            assert_eq!(data.unwrap()["error_message"], "no such prompt");
        }
        Outcome::Done(_) => panic!("expected a failure"),
    }
}

fn good_id(id: &str) -> serde_json::Value {
    let mut map = serde_json::Map::new();
    map.insert("id".to_string(), serde_json::Value::from(id));
    serde_json::Value::Object(map)
}
