//! What every payload of the protocol can do.
use crate::json::null;
use serde_json::Value;
use vstd::prelude::*;

verus! {

/// A payload: a value of the application that travels as JSON in the `data`
/// member of a control message.
pub trait ApiSupport: Sized {
    /// Whether `v` is the JSON form of this payload, as `to_value` writes
    /// it: which members the object has, and what each holds.
    spec fn written(&self, v: Value) -> bool;

    /// Whether the JSON value `v` reads as this payload.
    spec fn is_json(&self, v: Value) -> bool;

    /// The JSON form of this payload. It is never `null`, and it reads as
    /// this payload.
    fn to_value(&self) -> (v: Value)
        ensures
            self.written(v),
            self.is_json(v),
            !null(v),
    ;

    /// The payload that a JSON value reads as; `None` where it reads as no
    /// payload of this type.
    fn from_value(v: &Value) -> (r: Option<Self>)
        ensures
            r matches Some(x) ==> x.is_json(*v),
            r is None ==> forall|x: Self| !#[trigger] x.is_json(*v),
    ;
}

} // verus!
