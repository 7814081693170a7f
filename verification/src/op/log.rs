//! Log lines for the peer.
use crate::event::EventExt;
use crate::ext::ApiSupport;
use crate::fields::member;
use crate::fields::member_of;
use crate::fields::object_of;
use crate::fields::put;
use crate::fields::put_text;
use crate::fields::read_text;
use crate::fields::text_at;
use crate::json;
use crate::message::copy_data;
use serde_json::Value;
use vstd::prelude::*;

verus! {

/// A line for the log of the peer, with optional structured data.
#[derive(Debug)]
pub struct LogEvent {
    message: String,
    data: Option<Value>,
}

pub open spec fn key_message() -> Seq<char> {
    "message"@
}

pub open spec fn key_data() -> Seq<char> {
    "data"@
}

impl LogEvent {
    pub closed spec fn text(self) -> Seq<char> {
        self.message@
    }

    /// The structured data; `None` where there is none or it is `null`.
    pub closed spec fn data(self) -> Option<Value> {
        match self.data {
            Some(d) => if json::null(d) {
                None
            } else {
                Some(d)
            },
            None => None,
        }
    }

    pub fn new(message: String, data: Option<Value>) -> (e: LogEvent)
        ensures
            e.text() == message@,
            e.data() == (match data {
                Some(d) => if json::null(d) {
                    None
                } else {
                    Some(d)
                },
                None => None,
            }),
    {
        LogEvent { message, data }
    }
}

impl ApiSupport for LogEvent {
    /// An object with the members `message` and `data`; `data` is `null`
    /// where there is none.
    open spec fn written(&self, v: Value) -> bool {
        let f = json::members(v);
        &&& object_of(v, set![key_message(), key_data()])
        &&& json::text_of(f[key_message()]) == Some(self.text())
        &&& match self.data() {
            Some(d) => f[key_data()] == d,
            None => json::null(f[key_data()]),
        }
    }

    /// An object with a string `message` and, where there is data, the data
    /// under `data`.
    open spec fn is_json(&self, v: Value) -> bool {
        &&& text_at(v, key_message()) == Some(self.text())
        &&& member_of(v, key_data()) == self.data()
    }

    fn to_value(&self) -> (v: Value) {
        proof {
            reveal_strlit("message");
            reveal_strlit("data");
            assert(key_message()[0] == 'm');
            assert(key_data()[0] == 'd');
        }
        let mut map = json::map_new();
        put_text(&mut map, "message", &self.message);
        let data = match &self.data {
            Some(d) => json::copy(d),
            None => json::null_value(),
        };
        put(&mut map, "data", data);
        json::object(map)
    }

    fn from_value(v: &Value) -> (r: Option<LogEvent>) {
        match read_text(v, "message") {
            None => None,
            Some(message) => {
                let data = match member(v, "data") {
                    Some(d) => Some(json::copy(d)),
                    None => None,
                };
                Some(LogEvent { message, data })
            },
        }
    }
}

impl EventExt for LogEvent {
    open spec fn name() -> Seq<char> {
        "log"@
    }

    fn event_name() -> (name: &'static str) {
        "log"
    }
}

} // verus!
