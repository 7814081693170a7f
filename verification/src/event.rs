//! Events: payloads that notify the peer and ask for no answer.
use crate::ext::ApiSupport;
use crate::header::Header;
use crate::header::minted;
use crate::fields::member;
use crate::fields::member_of;
use crate::fields::object_of;
use crate::fields::put;
use crate::fields::put_text;
use crate::fields::read_text;
use crate::fields::read_u16;
use crate::fields::text;
use crate::fields::text_at;
use crate::fields::u16_at;
use crate::json;
use crate::message::EventMessage;
use crate::message::Message;
use crate::message::MessageView;
use serde_json::Value;
use vstd::prelude::*;

verus! {

/// Whether `m` is an event of the name `name` whose payload is the JSON form
/// of `payload`, under a freshly minted header.
pub open spec fn is_event_of<T: ApiSupport>(m: MessageView, name: Seq<char>, payload: T) -> bool {
    &&& m matches MessageView::Event(e)
    &&& e.event == name
    &&& e.data matches Some(v)
    &&& payload.written(v)
    &&& payload.is_json(v)
    &&& minted(e.header)
    &&& m.wf()
}

/// A payload that is the content of an event.
pub trait EventExt: ApiSupport {
    /// The name of the event.
    spec fn name() -> Seq<char>;

    /// The name of the event.
    fn event_name() -> (name: &'static str)
        ensures
            name@ == Self::name(),
    ;

    /// An event message that carries this payload, under a freshly minted
    /// header.
    fn message(&self) -> (m: Message)
        ensures
            is_event_of(m@, Self::name(), *self),
    {
        Message::Event(
            EventMessage {
                header: Header::mint(),
                event: Self::event_name().to_owned(),
                data: Some(self.to_value()),
            },
        )
    }
}

/// An event that reports an error to the peer.
#[derive(Debug)]
pub struct ErrorEvent {
    pub message: String,
    pub code: u16,
    pub details: Option<String>,
}

pub open spec fn key_message() -> Seq<char> {
    "message"@
}

pub open spec fn key_code() -> Seq<char> {
    "code"@
}

pub open spec fn key_details() -> Seq<char> {
    "details"@
}

impl ApiSupport for ErrorEvent {
    /// An object with the members `message`, `code` and `details`; `details`
    /// is `null` where there are none.
    open spec fn written(&self, v: Value) -> bool {
        let f = json::members(v);
        &&& object_of(v, set![key_message(), key_code(), key_details()])
        &&& json::text_of(f[key_message()]) == Some(self.message@)
        &&& json::unsigned_of(f[key_code()]) == Some(self.code as u64)
        &&& match self.details {
            Some(text) => json::text_of(f[key_details()]) == Some(text@),
            None => json::null(f[key_details()]),
        }
    }

    /// An object with a string `message`, an integer `code` and, where there
    /// are details, a string `details`.
    open spec fn is_json(&self, v: Value) -> bool {
        &&& text_at(v, key_message()) == Some(self.message@)
        &&& u16_at(v, key_code()) == Some(self.code)
        &&& match self.details {
            Some(text) => text_at(v, key_details()) == Some(text@),
            None => member_of(v, key_details()) is None,
        }
    }

    fn to_value(&self) -> (v: Value) {
        proof {
            reveal_strlit("message");
            reveal_strlit("code");
            reveal_strlit("details");
            assert(key_message()[0] == 'm');
            assert(key_code()[0] == 'c');
            assert(key_details()[0] == 'd');
        }
        let mut map = json::map_new();
        put_text(&mut map, "message", &self.message);
        put(&mut map, "code", json::unsigned(self.code as u64));
        let details = match &self.details {
            Some(text) => json::text(text.clone()),
            None => json::null_value(),
        };
        put(&mut map, "details", details);
        json::object(map)
    }

    fn from_value(v: &Value) -> (r: Option<ErrorEvent>) {
        let message = match read_text(v, "message") {
            Some(m) => m,
            None => {
                return None;
            },
        };
        let code = match read_u16(v, "code") {
            Some(n) => n,
            None => {
                return None;
            },
        };
        match member(v, "details") {
            None => Some(ErrorEvent { message, code, details: None }),
            Some(x) => match text(x) {
                Some(t) => Some(ErrorEvent { message, code, details: Some(t) }),
                None => None,
            },
        }
    }
}

impl EventExt for ErrorEvent {
    open spec fn name() -> Seq<char> {
        "error"@
    }

    fn event_name() -> (name: &'static str) {
        "error"
    }
}

} // verus!
