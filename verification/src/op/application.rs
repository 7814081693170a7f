//! Moving the call to another application.
use crate::ext::ApiSupport;
use crate::fields::empty_object;
use crate::fields::empty_payload;
use crate::fields::is_empty_payload;
use crate::fields::reads_as_empty;
use crate::fields::member;
use crate::fields::member_of;
use crate::fields::object_of;
use crate::fields::put;
use crate::fields::put_text;
use crate::fields::read_text;
use crate::fields::text_at;
use crate::json;
use crate::json::same_text;
use crate::json::text_of;
use crate::request::RequestExt;
use crate::response::ResponseExt;
use serde_json::Value;
use vstd::prelude::*;

verus! {

/// Where the call is to go.
#[derive(Debug)]
pub enum ApplicationMoveRequest {
    /// To the application that follows this one.
    Next,
    /// To the application of this id.
    Application { id: String },
}

/// The call has moved. The payload is an empty object.
#[derive(Debug, Clone, Copy, PartialEq, Eq, Structural)]
pub struct ApplicationMoveResponse;

pub open spec fn word_next() -> Seq<char> {
    "next"@
}

pub open spec fn key_application() -> Seq<char> {
    "application"@
}

pub open spec fn key_id() -> Seq<char> {
    "id"@
}

impl ApiSupport for ApplicationMoveRequest {
    /// The string `next`, or an object with the one member `application`,
    /// which is an object with the one member `id`.
    open spec fn written(&self, v: Value) -> bool {
        match self {
            ApplicationMoveRequest::Next => text_of(v) == Some(word_next()),
            ApplicationMoveRequest::Application { id } => {
                let a = json::members(v)[key_application()];
                &&& object_of(v, set![key_application()])
                &&& object_of(a, set![key_id()])
                &&& text_of(json::members(a)[key_id()]) == Some(id@)
            },
        }
    }

    /// The string `next`, or an object whose member `application` is an
    /// object with a string `id`.
    open spec fn is_json(&self, v: Value) -> bool {
        match self {
            ApplicationMoveRequest::Next => text_of(v) == Some(word_next()),
            ApplicationMoveRequest::Application { id } => {
                &&& text_of(v) is None
                &&& member_of(v, key_application()) matches Some(a)
                &&& text_at(a, key_id()) == Some(id@)
            },
        }
    }

    fn to_value(&self) -> (v: Value) {
        match self {
            ApplicationMoveRequest::Next => json::text("next".to_owned()),
            ApplicationMoveRequest::Application { id } => {
                let mut inner = json::map_new();
                put_text(&mut inner, "id", id);
                let mut outer = json::map_new();
                put(&mut outer, "application", json::object(inner));
                json::object(outer)
            },
        }
    }

    fn from_value(v: &Value) -> (r: Option<ApplicationMoveRequest>) {
        match json::as_text(v) {
            Some(word) => if same_text(word, "next") {
                Some(ApplicationMoveRequest::Next)
            } else {
                None
            },
            None => match member(v, "application") {
                Some(a) => match read_text(a, "id") {
                    Some(id) => Some(ApplicationMoveRequest::Application { id }),
                    None => None,
                },
                None => None,
            },
        }
    }
}

impl ApiSupport for ApplicationMoveResponse {
    /// An object without members.
    open spec fn written(&self, v: Value) -> bool {
        empty_object(v)
    }

    /// There is nothing to read: the payload may be left out, and the
    /// members of an object are not looked at.
    open spec fn is_json(&self, v: Value) -> bool {
        reads_as_empty(v)
    }

    fn to_value(&self) -> (v: Value) {
        empty_payload()
    }

    fn from_value(v: &Value) -> (r: Option<ApplicationMoveResponse>)
        ensures
            r is Some == reads_as_empty(*v),
    {
        if is_empty_payload(v) {
            Some(ApplicationMoveResponse)
        } else {
            None
        }
    }
}

impl RequestExt for ApplicationMoveRequest {
    type Response = ApplicationMoveResponse;

    open spec fn method() -> Seq<char> {
        "application_move"@
    }

    fn request_method_name() -> (name: &'static str) {
        "application_move"
    }
}

impl ResponseExt for ApplicationMoveResponse {

}

} // verus!
