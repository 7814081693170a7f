use rtvbp::event::EventExt;
use rtvbp::header::Header;
use rtvbp::message::{EventMessage, Message, RequestMessage, ResponseMessage};
use rtvbp::op::log::LogEvent;
use rtvbp::op::ping::{PingRequest, PingResponse};
use rtvbp::request::RequestExt;
use rtvbp::response::ResponseExt;
use rtvbp::wire::{encode, Frame};

fn text_of(frame: Frame) -> String {
    match frame {
        Frame::Text(t) => t,
        Frame::Binary(_) => panic!("expected a text frame"),
    }
}

#[test]
fn test_serialization_of_messages() {
    let req = PingRequest::default().message();
    println!("{}", text_of(encode(&req)));

    let res = PingResponse::default_ok(req.id());
    println!("{}", text_of(encode(&res)));

    let evt = LogEvent::new("hello".to_string(), None).message();
    println!("{}", text_of(encode(&evt)));
}

#[test]
fn minted_headers_have_ids_of_21_characters() {
    let h = Header::mint();
    assert_eq!(h.id.chars().count(), 21);
    assert!(h.id.chars().all(|c| c.is_ascii_alphanumeric() || c == '_' || c == '-'));
    assert!(h.timestamp >= 0);
    let d = Header::default();
    assert_eq!(d.id.chars().count(), 21);
    assert_ne!(h.id, d.id);
    assert!(h.timestamp > 1_600_000_000_000);
}

#[test]
fn accessors() {
    let req = Message::Request(RequestMessage {
        header: Header::new("q".to_string(), 1),
        request: "m".to_string(),
        data: None,
    });
    let ok = Message::Response(ResponseMessage {
        header: Header::new("r".to_string(), 2),
        response: "q".to_string(),
        status: 200,
        data: None,
    });
    let failed = Message::Response(ResponseMessage {
        header: Header::new("r2".to_string(), 2),
        response: "q".to_string(),
        status: 404,
        data: None,
    });
    let evt = Message::Event(EventMessage {
        header: Header::new("e".to_string(), 3),
        event: "n".to_string(),
        data: None,
    });
    let bin = Message::Binary(vec![1]);

    assert_eq!(req.id(), "q");
    assert_eq!(ok.id(), "r");
    assert_eq!(evt.id(), "e");
    assert_eq!(bin.id(), "");

    assert_eq!(req.headers().timestamp, 1);
    assert_eq!(evt.headers().id, "e");
    assert_eq!(bin.headers().id.chars().count(), 21);

    assert!(req.is_request() && !req.is_response() && !req.is_event() && !req.is_binary());
    assert!(ok.is_response() && !ok.is_request());
    assert!(evt.is_event() && !evt.is_binary());
    assert!(bin.is_binary() && !bin.is_event());

    assert!(!ok.is_error());
    assert!(failed.is_error());
    assert!(!req.is_error());
    assert!(!bin.is_error());

    match &req {
        Message::Request(r) => assert_eq!(r.id(), "q"),
        _ => unreachable!(),
    }
    let copy = req.clone();
    assert_eq!(copy.id(), "q");
}

#[test]
fn ping_messages() {
    let req = PingRequest.message();
    match &req {
        Message::Request(r) => {
            assert_eq!(r.request, "ping");
            assert_eq!(r.data, Some(serde_json::from_str("{}").unwrap()));
        }
        other => panic!("unexpected {:?}", other),
    }
    match PingResponse::default_ok("a1".to_string()) {
        Message::Response(r) => {
            assert_eq!(r.response, "a1");
            assert_eq!(r.status, 200);
            assert_eq!(r.data, Some(serde_json::from_str("{}").unwrap()));
        }
        other => panic!("unexpected {:?}", other),
    }
    match PingResponse::err("a1".to_string()) {
        Message::Response(r) => {
            assert_eq!(r.status, 500);
            assert_eq!(r.data, None);
        }
        other => panic!("unexpected {:?}", other),
    }
    match PingResponse.ok("a2".to_string()) {
        Message::Response(r) => {
            assert_eq!(r.response, "a2");
            assert_eq!(r.status, 200);
        }
        other => panic!("unexpected {:?}", other),
    }
    match PingResponse::new("a3".to_string(), 201, Some(PingResponse)) {
        Message::Response(r) => {
            assert_eq!(r.status, 201);
            assert!(r.data.is_some());
        }
        other => panic!("unexpected {:?}", other),
    }
    match PingResponse::new::<PingResponse>("a4".to_string(), 204, None) {
        Message::Response(r) => {
            assert_eq!(r.status, 204);
            assert!(r.data.is_none());
        }
        other => panic!("unexpected {:?}", other),
    }
}
