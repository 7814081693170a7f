//! Responses: payloads that answer a request.
use crate::ext::ApiSupport;
use crate::header::Header;
use crate::header::minted;
use crate::fields::member;
use crate::fields::member_of;
use crate::fields::object_of;
use crate::fields::put;
use crate::fields::put_text;
use crate::fields::read_u16;
use crate::fields::text;
use crate::fields::text_at;
use crate::fields::u16_at;
use crate::json;
use crate::message::Message;
use crate::message::MessageView;
use crate::message::ResponseMessage;
use crate::message::STATUS_FAILED;
use crate::message::STATUS_OK;
use serde_json::Value;
use vstd::prelude::*;

verus! {

/// The words of the documented wire form of a response.
#[derive(Debug, Clone, Copy, PartialEq, Eq, Structural)]
pub enum ResponseKind {
    Response,
}

/// Whether `m` is a response to the request `request_id` with this status,
/// under a freshly minted header.
pub open spec fn is_response_to(m: MessageView, request_id: Seq<char>, status: u16) -> bool {
    &&& m matches MessageView::Response(r)
    &&& r.response == request_id
    &&& r.status == status
    &&& minted(r.header)
    &&& m.wf()
}

/// A payload that is the result of a method.
pub trait ResponseExt: ApiSupport {
    /// A response to the request `request_id` with the given status and
    /// payload.
    fn new<D: ApiSupport>(request_id: String, status: u16, data: Option<D>) -> (m: Message)
        ensures
            is_response_to(m@, request_id@, status),
            match data {
                Some(d) => m@.data() matches Some(v) && d.written(v) && d.is_json(v),
                None => m@.data() is None,
            },
    {
        let data = match data {
            Some(d) => Some(d.to_value()),
            None => None,
        };
        Message::Response(
            ResponseMessage { header: Header::mint(), response: request_id, status, data },
        )
    }

    /// A response that reports success and carries the given payload.
    fn ok(&self, request_id: String) -> (m: Message)
        ensures
            is_response_to(m@, request_id@, STATUS_OK),
            m@.data() matches Some(v) && self.written(v) && self.is_json(v),
    {
        Message::Response(
            ResponseMessage {
                header: Header::mint(),
                response: request_id,
                status: STATUS_OK,
                data: Some(self.to_value()),
            },
        )
    }

    /// A response that reports success and carries the default payload of
    /// this type.
    fn default_ok(request_id: String) -> (m: Message) where Self: Default
        ensures
            is_response_to(m@, request_id@, STATUS_OK),
            m@.data() matches Some(v) && exists|payload: Self|
                #[trigger] payload.written(v) && payload.is_json(v),
    {
        let payload = Self::default();
        let v = payload.to_value();
        assert(payload.written(v) && payload.is_json(v));
        Message::Response(
            ResponseMessage {
                header: Header::mint(),
                response: request_id,
                status: STATUS_OK,
                data: Some(v),
            },
        )
    }

    /// A response that reports a failure and carries no payload.
    fn err(request_id: String) -> (m: Message)
        ensures
            is_response_to(m@, request_id@, STATUS_FAILED),
            m@.data() is None,
    {
        Message::Response(
            ResponseMessage {
                header: Header::mint(),
                response: request_id,
                status: STATUS_FAILED,
                data: None,
            },
        )
    }
}

/// The payload of a response that reports a failure.
#[derive(Debug)]
pub struct ResponseError {
    pub error_message: Option<String>,
    pub status: u16,
}

pub open spec fn key_error_message() -> Seq<char> {
    "error_message"@
}

pub open spec fn key_status() -> Seq<char> {
    "status"@
}

impl ResponseError {
    pub fn new(error_message: Option<String>, status: u16) -> (r: ResponseError)
        ensures
            r.error_message == error_message,
            r.status == status,
    {
        ResponseError { error_message, status }
    }
}

impl ApiSupport for ResponseError {
    /// An object with the member `status` and, where there is a message,
    /// the member `error_message`.
    open spec fn written(&self, v: Value) -> bool {
        let f = json::members(v);
        &&& json::unsigned_of(f[key_status()]) == Some(self.status as u64)
        &&& match self.error_message {
            Some(text) => object_of(v, set![key_error_message(), key_status()]) && json::text_of(
                f[key_error_message()],
            ) == Some(text@),
            None => object_of(v, set![key_status()]),
        }
    }

    /// An object with an integer `status` and, where there is a message, a
    /// string `error_message`.
    open spec fn is_json(&self, v: Value) -> bool {
        &&& u16_at(v, key_status()) == Some(self.status)
        &&& match self.error_message {
            Some(text) => text_at(v, key_error_message()) == Some(text@),
            None => member_of(v, key_error_message()) is None,
        }
    }

    fn to_value(&self) -> (v: Value) {
        proof {
            reveal_strlit("error_message");
            reveal_strlit("status");
            assert(key_status().len() != key_error_message().len());
        }
        let mut map = json::map_new();
        match &self.error_message {
            Some(text) => {
                put_text(&mut map, "error_message", text);
            },
            None => {},
        }
        put(&mut map, "status", json::unsigned(self.status as u64));
        json::object(map)
    }

    fn from_value(v: &Value) -> (r: Option<ResponseError>) {
        let status = match read_u16(v, "status") {
            Some(n) => n,
            None => {
                return None;
            },
        };
        match member(v, "error_message") {
            None => Some(ResponseError { error_message: None, status }),
            Some(x) => match text(x) {
                Some(t) => Some(ResponseError { error_message: Some(t), status }),
                None => None,
            },
        }
    }
}

impl ResponseExt for ResponseError {

}

} // verus!
