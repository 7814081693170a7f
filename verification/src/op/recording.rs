//! Recording the call.
use crate::ext::ApiSupport;
use crate::fields::empty_object;
use crate::fields::empty_payload;
use crate::fields::has_only;
use crate::fields::is_empty_object;
use crate::fields::object_of;
use crate::fields::only_members;
use crate::json::is_obj;
use crate::fields::is_empty_payload;
use crate::fields::reads_as_empty;
use crate::fields::lines;
use crate::fields::member;
use crate::fields::member_of;
use crate::fields::put;
use crate::fields::put_text;
use crate::fields::read_text;
use crate::fields::text_array;
use crate::fields::text_at;
use crate::fields::texts;
use crate::fields::texts_of;
use crate::json;
use crate::tags;
use crate::tags::items;
use crate::tags::lemma_unique_of_distinct;
use crate::tags::unique;
use indexmap::IndexSet;
use crate::event::EventExt;
use crate::request::RequestExt;
use crate::response::ResponseExt;
use serde_json::Value;
use vstd::prelude::*;

verus! {

/// Asks the peer to start recording.
#[derive(Debug)]
pub struct RecordingStartRequest {
    /// Tags to store with the recording, each once, in the order given.
    pub tags: Option<IndexSet<String>>,
}

/// Recording has started.
#[derive(Debug)]
pub struct RecordingStartResponse {
    pub recording_id: String,
}

/// Asks the peer to stop recording. The payload is an empty object.
#[derive(Debug, Clone, Copy, PartialEq, Eq, Structural)]
pub struct RecordingStopRequest;

/// Recording has stopped. The payload is an empty object.
#[derive(Debug, Clone, Copy, PartialEq, Eq, Structural)]
pub struct RecordingStopResponse;

/// A recording is complete.
#[derive(Debug)]
pub struct RecordingFinishedEvent {
    pub recording_id: String,
}

pub open spec fn key_tags() -> Seq<char> {
    "tags"@
}

pub open spec fn key_recording_id() -> Seq<char> {
    "recording_id"@
}

impl ApiSupport for RecordingStartRequest {
    /// An object with the one member `tags`: the array of the tags, or
    /// `null` where there are none.
    open spec fn written(&self, v: Value) -> bool {
        let t = json::members(v)[key_tags()];
        &&& object_of(v, set![key_tags()])
        &&& match self.tags {
            Some(tags) => texts_of(t) == Some(items(tags)),
            None => json::null(t),
        }
    }

    /// An object with no member but `tags`. The member is an array of
    /// strings, of which the tags are the distinct ones in their order; it is
    /// missing or `null` where there are no tags.
    open spec fn is_json(&self, v: Value) -> bool {
        &&& is_obj(v)
        &&& only_members(v, set![key_tags()])
        &&& match self.tags {
            Some(tags) => {
                &&& member_of(v, key_tags()) matches Some(t)
                &&& texts_of(t) matches Some(words)
                &&& unique(words) == items(tags)
            },
            None => member_of(v, key_tags()) is None,
        }
    }

    fn to_value(&self) -> (v: Value) {
        let mut map = json::map_new();
        let tags = match &self.tags {
            Some(tags) => {
                let words = tags::to_vec(tags);
                proof {
                    lemma_unique_of_distinct(lines(words@));
                }
                text_array(&words)
            },
            None => json::null_value(),
        };
        put(&mut map, "tags", tags);
        json::object(map)
    }

    fn from_value(v: &Value) -> (r: Option<RecordingStartRequest>) {
        if !has_only(v, "tags") {
            return None;
        }
        match member(v, "tags") {
            None => Some(RecordingStartRequest { tags: None }),
            Some(t) => match texts(t) {
                Some(words) => Some(RecordingStartRequest { tags: Some(tags::from_words(words)) }),
                None => None,
            },
        }
    }
}

impl ApiSupport for RecordingStartResponse {
    /// An object with the one member `recording_id`.
    open spec fn written(&self, v: Value) -> bool {
        &&& object_of(v, set![key_recording_id()])
        &&& json::text_of(json::members(v)[key_recording_id()]) == Some(self.recording_id@)
    }

    /// An object with a string `recording_id` and no other member.
    open spec fn is_json(&self, v: Value) -> bool {
        &&& is_obj(v)
        &&& only_members(v, set![key_recording_id()])
        &&& text_at(v, key_recording_id()) == Some(self.recording_id@)
    }

    fn to_value(&self) -> (v: Value) {
        let mut map = json::map_new();
        put_text(&mut map, "recording_id", &self.recording_id);
        json::object(map)
    }

    fn from_value(v: &Value) -> (r: Option<RecordingStartResponse>) {
        if !has_only(v, "recording_id") {
            return None;
        }
        match read_text(v, "recording_id") {
            Some(recording_id) => Some(RecordingStartResponse { recording_id }),
            None => None,
        }
    }
}

impl ApiSupport for RecordingFinishedEvent {
    /// An object with the one member `recording_id`.
    open spec fn written(&self, v: Value) -> bool {
        &&& object_of(v, set![key_recording_id()])
        &&& json::text_of(json::members(v)[key_recording_id()]) == Some(self.recording_id@)
    }

    /// An object with a string `recording_id`.
    open spec fn is_json(&self, v: Value) -> bool {
        text_at(v, key_recording_id()) == Some(self.recording_id@)
    }

    fn to_value(&self) -> (v: Value) {
        let mut map = json::map_new();
        put_text(&mut map, "recording_id", &self.recording_id);
        json::object(map)
    }

    fn from_value(v: &Value) -> (r: Option<RecordingFinishedEvent>) {
        match read_text(v, "recording_id") {
            Some(recording_id) => Some(RecordingFinishedEvent { recording_id }),
            None => None,
        }
    }
}

impl ApiSupport for RecordingStopRequest {
    /// An object without members.
    open spec fn written(&self, v: Value) -> bool {
        empty_object(v)
    }

    /// Nothing at all, or an object without members.
    open spec fn is_json(&self, v: Value) -> bool {
        json::null(v) || empty_object(v)
    }

    fn to_value(&self) -> (v: Value) {
        empty_payload()
    }

    fn from_value(v: &Value) -> (r: Option<RecordingStopRequest>)
        ensures
            r is Some == (json::null(*v) || empty_object(*v)),
    {
        if json::is_null(v) || is_empty_object(v) {
            Some(RecordingStopRequest)
        } else {
            None
        }
    }
}

impl ApiSupport for RecordingStopResponse {
    /// An object without members.
    open spec fn written(&self, v: Value) -> bool {
        empty_object(v)
    }

    /// There is nothing to read: the payload may be left out, and the
    /// members of an object are not looked at.
    open spec fn is_json(&self, v: Value) -> bool {
        reads_as_empty(v)
    }

    fn to_value(&self) -> (v: Value) {
        empty_payload()
    }

    fn from_value(v: &Value) -> (r: Option<RecordingStopResponse>)
        ensures
            r is Some == reads_as_empty(*v),
    {
        if is_empty_payload(v) {
            Some(RecordingStopResponse)
        } else {
            None
        }
    }
}

impl RequestExt for RecordingStartRequest {
    type Response = RecordingStartResponse;

    open spec fn method() -> Seq<char> {
        "recording_start"@
    }

    fn request_method_name() -> (name: &'static str) {
        "recording_start"
    }
}

impl RequestExt for RecordingStopRequest {
    type Response = RecordingStopResponse;

    open spec fn method() -> Seq<char> {
        "recording_stop"@
    }

    fn request_method_name() -> (name: &'static str) {
        "recording_stop"
    }
}

impl ResponseExt for RecordingStartResponse {

}

impl ResponseExt for RecordingStopResponse {

}

impl EventExt for RecordingFinishedEvent {
    open spec fn name() -> Seq<char> {
        "recording_finished"@
    }

    fn event_name() -> (name: &'static str) {
        "recording_finished"
    }
}

} // verus!
