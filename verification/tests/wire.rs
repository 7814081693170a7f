use rtvbp::header::Header;
use rtvbp::message::{EventMessage, Message, RequestMessage, ResponseMessage};
use rtvbp::wire::{decode, decode_text, encode, from_value, to_value, DecodeError, Field, Frame};
use serde_json::Value;

fn text_of(frame: Frame) -> String {
    match frame {
        Frame::Text(t) => t,
        Frame::Binary(_) => panic!("expected a text frame"),
    }
}

fn json(text: &str) -> Value {
    serde_json::from_str(text).unwrap()
}

fn request(id: &str, ts: i64, method: &str, data: Option<Value>) -> Message {
    Message::Request(RequestMessage {
        header: Header::new(id.to_string(), ts),
        request: method.to_string(),
        data,
    })
}

#[test]
fn request_has_documented_wire_form() {
    let m = request("a1", 1000, "ping", Some(json("{}")));
    assert_eq!(
        text_of(encode(&m)),
        "{\"id\":\"a1\",\"ts\":1000,\"request\":\"ping\",\"data\":{}}"
    );
}

#[test]
fn response_has_documented_wire_form() {
    let m = Message::Response(ResponseMessage {
        header: Header::new("b1".to_string(), 1010),
        response: "a1".to_string(),
        status: 200,
        data: Some(json("{}")),
    });
    assert_eq!(
        text_of(encode(&m)),
        "{\"id\":\"b1\",\"ts\":1010,\"response\":\"a1\",\"status\":200,\"data\":{}}"
    );
}

#[test]
fn event_has_documented_wire_form() {
    let m = Message::Event(EventMessage {
        header: Header::new("e1".to_string(), 5),
        event: "log".to_string(),
        data: Some(json("{\"message\":\"hello\"}")),
    });
    assert_eq!(
        text_of(encode(&m)),
        "{\"id\":\"e1\",\"ts\":5,\"event\":\"log\",\"data\":{\"message\":\"hello\"}}"
    );
}

#[test]
fn request_without_payload_carries_null() {
    let m = request("a1", 1, "m", None);
    assert_eq!(
        text_of(encode(&m)),
        "{\"id\":\"a1\",\"ts\":1,\"request\":\"m\",\"data\":null}"
    );
}

#[test]
fn response_and_event_without_payload_omit_data() {
    let r = Message::Response(ResponseMessage {
        header: Header::new("b".to_string(), 2),
        response: "a".to_string(),
        status: 404,
        data: None,
    });
    assert_eq!(
        text_of(encode(&r)),
        "{\"id\":\"b\",\"ts\":2,\"response\":\"a\",\"status\":404}"
    );
    let e = Message::Event(EventMessage {
        header: Header::new("c".to_string(), 3),
        event: "n".to_string(),
        data: None,
    });
    assert_eq!(text_of(encode(&e)), "{\"id\":\"c\",\"ts\":3,\"event\":\"n\"}");
}

#[test]
fn binary_message_is_binary_frame() {
    match encode(&Message::Binary(vec![9, 8, 7])) {
        Frame::Binary(b) => assert_eq!(b, vec![9, 8, 7]),
        Frame::Text(_) => panic!("expected a binary frame"),
    }
    assert!(to_value(&Message::Binary(vec![1])).is_none());
}

#[test]
fn round_trip_request() {
    let data = json("{\"a\":[1,2,{\"b\":null}],\"c\":\"x\"}");
    let m = request("id-1", -5, "do.it", Some(data.clone()));
    match decode(encode(&m)) {
        Ok(Message::Request(r)) => {
            assert_eq!(r.header.id, "id-1");
            assert_eq!(r.header.timestamp, -5);
            assert_eq!(r.request, "do.it");
            assert_eq!(r.data, Some(data));
        }
        other => panic!("unexpected {:?}", other),
    }
}

#[test]
fn round_trip_response() {
    let m = Message::Response(ResponseMessage {
        header: Header::new("r".to_string(), i64::MAX),
        response: "q".to_string(),
        status: 65535,
        data: Some(json("\"text\"")),
    });
    match decode(encode(&m)) {
        Ok(Message::Response(r)) => {
            assert_eq!(r.header.id, "r");
            assert_eq!(r.header.timestamp, i64::MAX);
            assert_eq!(r.response, "q");
            assert_eq!(r.status, 65535);
            assert_eq!(r.data, Some(json("\"text\"")));
        }
        other => panic!("unexpected {:?}", other),
    }
}

#[test]
fn round_trip_event_without_payload() {
    let m = Message::Event(EventMessage {
        header: Header::new("e".to_string(), 0),
        event: "tick".to_string(),
        data: None,
    });
    match decode(encode(&m)) {
        Ok(Message::Event(e)) => {
            assert_eq!(e.header.id, "e");
            assert_eq!(e.event, "tick");
            assert_eq!(e.data, None);
        }
        other => panic!("unexpected {:?}", other),
    }
}

#[test]
fn round_trip_binary() {
    match decode(encode(&Message::Binary(vec![0, 255, 3]))) {
        Ok(Message::Binary(b)) => assert_eq!(b, vec![0, 255, 3]),
        other => panic!("unexpected {:?}", other),
    }
}

#[test]
fn round_trip_through_value() {
    let m = request("v", 7, "m", Some(json("[1]")));
    let v = to_value(&m).unwrap();
    match from_value(&v) {
        Ok(Message::Request(r)) => {
            assert_eq!(r.header.id, "v");
            assert_eq!(r.data, Some(json("[1]")));
        }
        other => panic!("unexpected {:?}", other),
    }
}

#[test]
fn null_payload_reads_as_none() {
    let m = request("n", 1, "m", Some(Value::Null));
    match decode(encode(&m)) {
        Ok(Message::Request(r)) => assert_eq!(r.data, None),
        other => panic!("unexpected {:?}", other),
    }
}

#[test]
fn deeply_nested_payload_does_not_read_back() {
    let mut v = json("1");
    for _ in 0..200 {
        v = Value::Array(vec![v]);
    }
    let m = request("deep", 1, "m", Some(v));
    let r = decode(encode(&m));
    assert_eq!(r.err(), Some(DecodeError::Syntax));
}

#[test]
fn request_takes_precedence_over_response() {
    let r = decode_text(
        "{\"id\":\"x\",\"ts\":1,\"request\":\"m\",\"response\":\"y\",\"status\":200}",
    );
    match r {
        Ok(Message::Request(m)) => assert_eq!(m.request, "m"),
        other => panic!("unexpected {:?}", other),
    }
}

#[test]
fn response_takes_precedence_over_event() {
    let r = decode_text(
        "{\"id\":\"x\",\"ts\":1,\"event\":\"e\",\"response\":\"y\",\"status\":200,\"data\":{}}",
    );
    match r {
        Ok(Message::Response(m)) => {
            assert_eq!(m.response, "y");
            assert_eq!(m.status, 200);
        }
        other => panic!("unexpected {:?}", other),
    }
}

#[test]
fn malformed_request_is_not_retried_as_response() {
    let r = decode_text(
        "{\"id\":\"x\",\"ts\":1,\"request\":5,\"response\":\"y\",\"status\":200}",
    );
    assert_eq!(r.err(), Some(DecodeError::Invalid(Field::Request)));
}

#[test]
fn decode_errors() {
    assert_eq!(decode_text("not json").err(), Some(DecodeError::Syntax));
    assert_eq!(decode_text("").err(), Some(DecodeError::Syntax));
    assert_eq!(decode_text("[1,2]").err(), Some(DecodeError::Unclassified));
    assert_eq!(decode_text("{\"id\":\"x\",\"ts\":1}").err(), Some(DecodeError::Unclassified));
    assert_eq!(
        decode_text("{\"ts\":1,\"request\":\"m\"}").err(),
        Some(DecodeError::Invalid(Field::Id))
    );
    assert_eq!(
        decode_text("{\"id\":7,\"ts\":1,\"request\":\"m\"}").err(),
        Some(DecodeError::Invalid(Field::Id))
    );
    assert_eq!(
        decode_text("{\"id\":\"x\",\"request\":\"m\"}").err(),
        Some(DecodeError::Invalid(Field::Timestamp))
    );
    assert_eq!(
        decode_text("{\"id\":\"x\",\"ts\":1.5,\"request\":\"m\"}").err(),
        Some(DecodeError::Invalid(Field::Timestamp))
    );
    assert_eq!(
        decode_text("{\"id\":\"x\",\"ts\":1,\"response\":7,\"status\":200}").err(),
        Some(DecodeError::Invalid(Field::Response))
    );
    assert_eq!(
        decode_text("{\"id\":\"x\",\"ts\":1,\"response\":\"a\"}").err(),
        Some(DecodeError::Invalid(Field::Status))
    );
    assert_eq!(
        decode_text("{\"id\":\"x\",\"ts\":1,\"response\":\"a\",\"status\":65536}").err(),
        Some(DecodeError::Invalid(Field::Status))
    );
    assert_eq!(
        decode_text("{\"id\":\"x\",\"ts\":1,\"response\":\"a\",\"status\":-1}").err(),
        Some(DecodeError::Invalid(Field::Status))
    );
    assert_eq!(
        decode_text("{\"id\":\"x\",\"ts\":1,\"event\":null}").err(),
        Some(DecodeError::Invalid(Field::Event))
    );
}

#[test]
fn unknown_members_are_ignored() {
    match decode_text("{\"id\":\"x\",\"ts\":1,\"event\":\"e\",\"extra\":true}") {
        Ok(Message::Event(e)) => assert_eq!(e.event, "e"),
        other => panic!("unexpected {:?}", other),
    }
}

#[test]
fn binary_frame_is_binary_message() {
    match decode(Frame::Binary(vec![1, 2, 3])) {
        Ok(Message::Binary(b)) => assert_eq!(b, vec![1, 2, 3]),
        other => panic!("unexpected {:?}", other),
    }
}

#[test]
fn scenario_ping_request_and_response() {
    let sent = "{\"id\":\"a1\",\"ts\":1000,\"request\":\"ping\",\"data\":{}}";
    let answer = "{\"id\":\"b1\",\"ts\":1010,\"response\":\"a1\",\"status\":200,\"data\":{}}";
    match decode_text(sent) {
        Ok(Message::Request(r)) => {
            assert_eq!(r.header.id, "a1");
            assert_eq!(r.header.timestamp, 1000);
            assert_eq!(r.request, "ping");
            assert_eq!(r.data, Some(json("{}")));
        }
        other => panic!("unexpected {:?}", other),
    }
    match decode_text(answer) {
        Ok(Message::Response(r)) => {
            assert_eq!(r.header.id, "b1");
            assert_eq!(r.header.timestamp, 1010);
            assert_eq!(r.response, "a1");
            assert_eq!(r.status, 200);
            assert_eq!(r.data, Some(json("{}")));
        }
        other => panic!("unexpected {:?}", other),
    }
}
