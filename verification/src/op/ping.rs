//! The liveness probe.
use crate::ext::ApiSupport;
use crate::fields::empty_object;
use crate::fields::empty_payload;
use crate::fields::is_empty_payload;
use crate::fields::reads_as_empty;
use crate::request::RequestExt;
use crate::response::ResponseExt;
use serde_json::Value;
use vstd::prelude::*;

verus! {

/// Asks the peer whether it is alive. The payload is an empty object.
#[derive(Debug, Clone, Copy, PartialEq, Eq, Structural)]
pub struct PingRequest;

/// Says that this side is alive. The payload is an empty object.
#[derive(Debug, Clone, Copy, PartialEq, Eq, Structural)]
pub struct PingResponse;

impl Default for PingRequest {
    fn default() -> (r: PingRequest)
        ensures
            r == PingRequest,
    {
        PingRequest
    }
}

impl Default for PingResponse {
    fn default() -> (r: PingResponse)
        ensures
            r == PingResponse,
    {
        PingResponse
    }
}

impl ApiSupport for PingRequest {
    /// An object without members.
    open spec fn written(&self, v: Value) -> bool {
        empty_object(v)
    }

    /// There is nothing to read: the payload may be left out, and the
    /// members of an object are not looked at.
    open spec fn is_json(&self, v: Value) -> bool {
        reads_as_empty(v)
    }

    fn to_value(&self) -> (v: Value) {
        empty_payload()
    }

    fn from_value(v: &Value) -> (r: Option<PingRequest>)
        ensures
            r is Some == reads_as_empty(*v),
    {
        if is_empty_payload(v) {
            Some(PingRequest)
        } else {
            None
        }
    }
}

impl ApiSupport for PingResponse {
    /// An object without members.
    open spec fn written(&self, v: Value) -> bool {
        empty_object(v)
    }

    /// There is nothing to read: the payload may be left out, and the
    /// members of an object are not looked at.
    open spec fn is_json(&self, v: Value) -> bool {
        reads_as_empty(v)
    }

    fn to_value(&self) -> (v: Value) {
        empty_payload()
    }

    fn from_value(v: &Value) -> (r: Option<PingResponse>)
        ensures
            r is Some == reads_as_empty(*v),
    {
        if is_empty_payload(v) {
            Some(PingResponse)
        } else {
            None
        }
    }
}

impl RequestExt for PingRequest {
    type Response = PingResponse;

    open spec fn method() -> Seq<char> {
        "ping"@
    }

    fn request_method_name() -> (name: &'static str) {
        "ping"
    }
}

impl ResponseExt for PingResponse {

}

} // verus!
