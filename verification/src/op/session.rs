//! The life of the session itself: the handshake, updates, termination.
use crate::event::EventExt;
use crate::ext::ApiSupport;
use crate::fields::empty_object;
use crate::fields::empty_payload;
use crate::fields::is_empty_payload;
use crate::fields::reads_as_empty;
use crate::fields::lines;
use crate::fields::member;
use crate::fields::member_of;
use crate::fields::object_of;
use crate::fields::put;
use crate::fields::put_text;
use crate::fields::read_text;
use crate::fields::text_array;
use crate::fields::text_at;
use crate::fields::texts;
use crate::fields::texts_of;
use crate::header::Header;
use crate::json;
use crate::json::is_obj;
use crate::json::same_text;
use crate::json::text_of;
use crate::message::Message;
use crate::message::MessageView;
use crate::message::RequestMessage;
use crate::message::RequestView;
use crate::op::audio::AudioCapabilities;
use crate::request::RequestExt;
use crate::response::ResponseExt;
use crate::session::Session;
use crate::session::SessionError;
use serde_json::Value;
use vstd::prelude::*;

verus! {

/// Free-form data about a session: the members of a JSON object.
pub type Metadata = serde_json::Map<String, Value>;

/// Whether `x` is the member that stands for the metadata in a payload: the
/// object of the entries of the metadata, or `null` where there is none.
pub open spec fn wrote_metadata(x: Value, metadata: Option<Metadata>) -> bool {
    match metadata {
        Some(m) => is_obj(x) && json::members(x) == json::entries(m),
        None => json::null(x),
    }
}

/// Whether the member under `key` reads as the metadata: an object of the
/// entries of the metadata, or a member that is missing or `null` where
/// there is none.
pub open spec fn reads_metadata(v: Value, key: Seq<char>, metadata: Option<Metadata>) -> bool {
    match metadata {
        Some(m) => member_of(v, key) matches Some(x) && is_obj(x) && json::members(x)
            == json::entries(m),
        None => member_of(v, key) is None,
    }
}

/// The metadata of a payload as a member value.
fn metadata_value(metadata: &Option<Metadata>) -> (v: Value)
    ensures
        wrote_metadata(v, *metadata),
        metadata is Some ==> !json::null(v),
{
    match metadata {
        Some(m) => json::object(json::copy_map(m)),
        None => json::null_value(),
    }
}

/// The metadata under `key`: `None` where the member is there and is no
/// object.
fn read_metadata(v: &Value, key: &str) -> (r: Option<Option<Metadata>>)
    ensures
        r matches Some(m) ==> reads_metadata(*v, key@, m),
        r is None ==> forall|m: Option<Metadata>| !reads_metadata(*v, key@, m),
{
    match member(v, key) {
        None => Some(None),
        Some(x) => match json::as_members(x) {
            Some(m) => Some(Some(json::copy_map(m))),
            None => None,
        },
    }
}

/// Asks the peer to end the session. The payload is an empty object.
#[derive(Debug, Clone, Copy, PartialEq, Eq, Structural)]
pub struct SessionTerminateRequest {}

/// The session will end. The payload is an empty object.
#[derive(Debug, Clone, Copy, PartialEq, Eq, Structural)]
pub struct SessionTerminateResponse {}

/// Something about the session has changed.
#[derive(Debug)]
pub struct SessionUpdatedEvent {
    /// Data that the owner of the session adds.
    pub metadata: Option<Metadata>,
}

/// Why a session ended.
#[derive(Debug, Clone, Copy, PartialEq, Eq, Structural)]
pub enum SessionCloseReason {
    Normal,
    Error,
    Timeout,
}

/// The session has ended.
#[derive(Debug)]
pub struct SessionTerminatedEvent {
    pub session_id: String,
    pub reason: SessionCloseReason,
}

/// What a side announces of itself in the handshake.
#[derive(Debug)]
pub struct SessionCapabilities {
    /// The names of the events that this side handles.
    pub events: Vec<String>,
    /// The names of the methods that this side handles.
    pub requests: Vec<String>,
    pub audio: Option<AudioCapabilities>,
}

/// The handshake has been taken note of. The payload is an empty object.
#[derive(Debug, Clone, Copy, PartialEq, Eq, Structural)]
pub struct SessionCreateResponse {}

/// The handshake: the announcement that opens a session.
#[derive(Debug)]
pub struct SessionCreateRequest {
    pub session_id: String,
    pub capabilities: SessionCapabilities,
    pub metadata: Option<Metadata>,
}

pub open spec fn key_metadata() -> Seq<char> {
    "metadata"@
}

pub open spec fn key_session_id() -> Seq<char> {
    "session_id"@
}

pub open spec fn key_reason() -> Seq<char> {
    "reason"@
}

pub open spec fn key_capabilities() -> Seq<char> {
    "capabilities"@
}

pub open spec fn key_events() -> Seq<char> {
    "events"@
}

pub open spec fn key_requests() -> Seq<char> {
    "requests"@
}

pub open spec fn key_audio() -> Seq<char> {
    "audio"@
}

/// The member names of the handshake differ from each other.
pub proof fn lemma_keys()
    ensures
        key_metadata() != key_session_id(),
        key_metadata() != key_capabilities(),
        key_session_id() != key_capabilities(),
        key_session_id() != key_reason(),
        key_events() != key_requests(),
        key_events() != key_audio(),
        key_requests() != key_audio(),
{
    reveal_strlit("metadata");
    reveal_strlit("session_id");
    reveal_strlit("reason");
    reveal_strlit("capabilities");
    reveal_strlit("events");
    reveal_strlit("requests");
    reveal_strlit("audio");
    assert(key_metadata()[0] == 'm');
    assert(key_session_id()[0] == 's');
    assert(key_reason()[0] == 'r');
    assert(key_capabilities()[0] == 'c');
    assert(key_events()[0] == 'e');
    assert(key_requests()[0] == 'r');
    assert(key_audio()[0] == 'a');
}

impl SessionCloseReason {
    /// The word that stands for the reason on the wire.
    pub open spec fn word(self) -> Seq<char> {
        match self {
            SessionCloseReason::Normal => "normal"@,
            SessionCloseReason::Error => "error"@,
            SessionCloseReason::Timeout => "timeout"@,
        }
    }

    /// The word that stands for the reason on the wire.
    pub fn as_str(&self) -> (w: &'static str)
        ensures
            w@ == self.word(),
    {
        match self {
            SessionCloseReason::Normal => "normal",
            SessionCloseReason::Error => "error",
            SessionCloseReason::Timeout => "timeout",
        }
    }

    /// The reason that a word stands for.
    pub fn from_word(w: &str) -> (r: Option<SessionCloseReason>)
        ensures
            r matches Some(x) ==> x.word() == w@,
            r is None ==> forall|x: SessionCloseReason| #[trigger] x.word() != w@,
    {
        if same_text(w, "normal") {
            Some(SessionCloseReason::Normal)
        } else if same_text(w, "error") {
            Some(SessionCloseReason::Error)
        } else if same_text(w, "timeout") {
            Some(SessionCloseReason::Timeout)
        } else {
            None
        }
    }
}

impl SessionCapabilities {
    /// Capabilities that announce nothing.
    pub fn new() -> (c: SessionCapabilities)
        ensures
            c.events@.len() == 0,
            c.requests@.len() == 0,
            c.audio is None,
    {
        SessionCapabilities { events: Vec::new(), requests: Vec::new(), audio: None }
    }

    /// Whether `v` is the JSON form of these capabilities: an object with
    /// the members `events` and `requests`, and with the member `audio` where
    /// there are audio capabilities.
    pub open spec fn written(self, v: Value) -> bool {
        let f = json::members(v);
        &&& texts_of(f[key_events()]) == Some(lines(self.events@))
        &&& texts_of(f[key_requests()]) == Some(lines(self.requests@))
        &&& match self.audio {
            Some(audio) => object_of(v, set![key_events(), key_requests(), key_audio()])
                && audio.written(f[key_audio()]),
            None => object_of(v, set![key_events(), key_requests()]),
        }
    }

    /// Whether `v` reads as these capabilities: an object with the arrays of
    /// names `events` and `requests`, and with the audio capabilities under
    /// `audio` where there are any.
    pub open spec fn is_json(self, v: Value) -> bool {
        &&& member_of(v, key_events()) matches Some(e)
        &&& texts_of(e) == Some(lines(self.events@))
        &&& member_of(v, key_requests()) matches Some(r)
        &&& texts_of(r) == Some(lines(self.requests@))
        &&& match self.audio {
            Some(audio) => member_of(v, key_audio()) matches Some(a) && audio.is_json(a),
            None => member_of(v, key_audio()) is None,
        }
    }

    /// The JSON form of these capabilities.
    pub fn to_value(&self) -> (v: Value)
        ensures
            self.written(v),
            self.is_json(v),
            !json::null(v),
    {
        proof {
            lemma_keys();
        }
        let mut map = json::map_new();
        put(&mut map, "events", text_array(&self.events));
        put(&mut map, "requests", text_array(&self.requests));
        match &self.audio {
            Some(audio) => put(&mut map, "audio", audio.to_value()),
            None => {},
        }
        json::object(map)
    }

    /// The capabilities that a JSON value reads as; `None` where it reads as
    /// none.
    pub fn from_value(v: &Value) -> (r: Option<SessionCapabilities>)
        ensures
            r matches Some(x) ==> x.is_json(*v),
            r is None ==> forall|x: SessionCapabilities| !#[trigger] x.is_json(*v),
    {
        let events = match member(v, "events") {
            None => {
                return None;
            },
            Some(e) => match texts(e) {
                Some(events) => events,
                None => {
                    return None;
                },
            },
        };
        let requests = match member(v, "requests") {
            None => {
                return None;
            },
            Some(r) => match texts(r) {
                Some(requests) => requests,
                None => {
                    return None;
                },
            },
        };
        match member(v, "audio") {
            None => Some(SessionCapabilities { events, requests, audio: None }),
            Some(a) => match AudioCapabilities::from_value(a) {
                Some(audio) => Some(SessionCapabilities { events, requests, audio: Some(audio) }),
                None => None,
            },
        }
    }
}

impl Default for SessionCapabilities {
    fn default() -> (c: SessionCapabilities)
        ensures
            c.events@.len() == 0,
            c.requests@.len() == 0,
            c.audio is None,
    {
        SessionCapabilities::new()
    }
}

impl ApiSupport for SessionCreateRequest {
    /// An object with the members `session_id`, `capabilities` and
    /// `metadata`; `metadata` is `null` where there is none.
    open spec fn written(&self, v: Value) -> bool {
        let f = json::members(v);
        &&& object_of(v, set![key_session_id(), key_capabilities(), key_metadata()])
        &&& text_of(f[key_session_id()]) == Some(self.session_id@)
        &&& self.capabilities.written(f[key_capabilities()])
        &&& wrote_metadata(f[key_metadata()], self.metadata)
    }

    /// An object with the string `session_id`, the capabilities under
    /// `capabilities` and, where there is any, the metadata under `metadata`.
    open spec fn is_json(&self, v: Value) -> bool {
        &&& text_at(v, key_session_id()) == Some(self.session_id@)
        &&& member_of(v, key_capabilities()) matches Some(c)
        &&& self.capabilities.is_json(c)
        &&& reads_metadata(v, key_metadata(), self.metadata)
    }

    fn to_value(&self) -> (v: Value) {
        proof {
            lemma_keys();
        }
        let mut map = json::map_new();
        put_text(&mut map, "session_id", &self.session_id);
        put(&mut map, "capabilities", self.capabilities.to_value());
        put(&mut map, "metadata", metadata_value(&self.metadata));
        json::object(map)
    }

    fn from_value(v: &Value) -> (r: Option<SessionCreateRequest>) {
        let session_id = match read_text(v, "session_id") {
            Some(id) => id,
            None => {
                return None;
            },
        };
        let capabilities = match member(v, "capabilities") {
            None => {
                return None;
            },
            Some(c) => match SessionCapabilities::from_value(c) {
                Some(capabilities) => capabilities,
                None => {
                    return None;
                },
            },
        };
        match read_metadata(v, "metadata") {
            Some(metadata) => Some(SessionCreateRequest { session_id, capabilities, metadata }),
            None => None,
        }
    }
}

impl ApiSupport for SessionUpdatedEvent {
    /// An object with the one member `metadata`, which is `null` where
    /// there is no metadata.
    open spec fn written(&self, v: Value) -> bool {
        &&& object_of(v, set![key_metadata()])
        &&& wrote_metadata(json::members(v)[key_metadata()], self.metadata)
    }

    /// An object with the metadata under `metadata`, where there is any.
    open spec fn is_json(&self, v: Value) -> bool {
        reads_metadata(v, key_metadata(), self.metadata)
    }

    fn to_value(&self) -> (v: Value) {
        let mut map = json::map_new();
        put(&mut map, "metadata", metadata_value(&self.metadata));
        json::object(map)
    }

    fn from_value(v: &Value) -> (r: Option<SessionUpdatedEvent>) {
        match read_metadata(v, "metadata") {
            Some(metadata) => Some(SessionUpdatedEvent { metadata }),
            None => None,
        }
    }
}

impl ApiSupport for SessionTerminatedEvent {
    /// An object with the members `session_id` and `reason`.
    open spec fn written(&self, v: Value) -> bool {
        let f = json::members(v);
        &&& object_of(v, set![key_session_id(), key_reason()])
        &&& text_of(f[key_session_id()]) == Some(self.session_id@)
        &&& text_of(f[key_reason()]) == Some(self.reason.word())
    }

    /// An object with the string `session_id` and the word of the reason
    /// under `reason`.
    open spec fn is_json(&self, v: Value) -> bool {
        &&& text_at(v, key_session_id()) == Some(self.session_id@)
        &&& text_at(v, key_reason()) == Some(self.reason.word())
    }

    fn to_value(&self) -> (v: Value) {
        proof {
            lemma_keys();
        }
        let mut map = json::map_new();
        put_text(&mut map, "session_id", &self.session_id);
        put(&mut map, "reason", json::text(self.reason.as_str().to_owned()));
        json::object(map)
    }

    fn from_value(v: &Value) -> (r: Option<SessionTerminatedEvent>) {
        let session_id = match read_text(v, "session_id") {
            Some(id) => id,
            None => {
                return None;
            },
        };
        match read_text(v, "reason") {
            None => None,
            Some(word) => match SessionCloseReason::from_word(word.as_str()) {
                Some(reason) => Some(SessionTerminatedEvent { session_id, reason }),
                None => None,
            },
        }
    }
}

impl ApiSupport for SessionTerminateRequest {
    /// An object without members.
    open spec fn written(&self, v: Value) -> bool {
        empty_object(v)
    }

    /// There is nothing to read: the payload may be left out, and the
    /// members of an object are not looked at.
    open spec fn is_json(&self, v: Value) -> bool {
        reads_as_empty(v)
    }

    fn to_value(&self) -> (v: Value) {
        empty_payload()
    }

    fn from_value(v: &Value) -> (r: Option<SessionTerminateRequest>)
        ensures
            r is Some == reads_as_empty(*v),
    {
        if is_empty_payload(v) {
            Some(SessionTerminateRequest {  })
        } else {
            None
        }
    }
}

impl ApiSupport for SessionTerminateResponse {
    /// An object without members.
    open spec fn written(&self, v: Value) -> bool {
        empty_object(v)
    }

    /// There is nothing to read: the payload may be left out, and the
    /// members of an object are not looked at.
    open spec fn is_json(&self, v: Value) -> bool {
        reads_as_empty(v)
    }

    fn to_value(&self) -> (v: Value) {
        empty_payload()
    }

    fn from_value(v: &Value) -> (r: Option<SessionTerminateResponse>)
        ensures
            r is Some == reads_as_empty(*v),
    {
        if is_empty_payload(v) {
            Some(SessionTerminateResponse {  })
        } else {
            None
        }
    }
}

impl ApiSupport for SessionCreateResponse {
    /// An object without members.
    open spec fn written(&self, v: Value) -> bool {
        empty_object(v)
    }

    /// There is nothing to read: the payload may be left out, and the
    /// members of an object are not looked at.
    open spec fn is_json(&self, v: Value) -> bool {
        reads_as_empty(v)
    }

    fn to_value(&self) -> (v: Value) {
        empty_payload()
    }

    fn from_value(v: &Value) -> (r: Option<SessionCreateResponse>)
        ensures
            r is Some == reads_as_empty(*v),
    {
        if is_empty_payload(v) {
            Some(SessionCreateResponse {  })
        } else {
            None
        }
    }
}

impl ResponseExt for SessionCreateResponse {

}

impl RequestExt for SessionCreateRequest {
    type Response = SessionCreateResponse;

    open spec fn method() -> Seq<char> {
        "session_create"@
    }

    fn request_method_name() -> (name: &'static str) {
        "session_create"
    }
}

impl RequestExt for SessionTerminateRequest {
    type Response = SessionTerminateResponse;

    open spec fn method() -> Seq<char> {
        "session.terminate"@
    }

    fn request_method_name() -> (name: &'static str) {
        "session.terminate"
    }
}

impl ResponseExt for SessionTerminateResponse {

}

impl EventExt for SessionUpdatedEvent {
    open spec fn name() -> Seq<char> {
        "session_updated"@
    }

    fn event_name() -> (name: &'static str) {
        "session_updated"
    }
}

impl EventExt for SessionTerminatedEvent {
    open spec fn name() -> Seq<char> {
        "session_terminated"@
    }

    fn event_name() -> (name: &'static str) {
        "session_terminated"
    }
}

/// Whether `m` is the handshake of the session `id` with these capabilities
/// and this metadata, under the header `header`.
pub open spec fn is_handshake(
    m: MessageView,
    header: crate::header::HeaderView,
    id: Seq<char>,
    capabilities: SessionCapabilities,
    metadata: Option<Metadata>,
) -> bool {
    &&& m matches MessageView::Request(r)
    &&& r.header == header
    &&& r.request == SessionCreateRequest::method()
    &&& r.data matches Some(v)
    &&& object_of(v, set![key_session_id(), key_capabilities(), key_metadata()])
    &&& text_at(v, key_session_id()) == Some(id)
    &&& member_of(v, key_capabilities()) matches Some(c)
    &&& capabilities.written(c)
    &&& capabilities.is_json(c)
    &&& reads_metadata(v, key_metadata(), metadata)
}

impl Session {
    /// Sends the handshake under the given header: announces the id of the
    /// session, the capabilities and the metadata of this side, and makes the
    /// session active without waiting for an answer. Only a session that
    /// waits to send its handshake does so.
    pub fn session_create_with(
        &mut self,
        header: Header,
        capabilities: SessionCapabilities,
        metadata: Option<Metadata>,
    ) -> (r: Result<(), SessionError>)
        ensures
            final(self)@.wf(),
            r is Ok == (old(self)@.state is Handshaking),
            r is Err ==> r == Err::<(), SessionError>(SessionError::NotHandshaking) && final(self)@ == old(self)@,
            r is Ok ==> exists|m: MessageView|
                #![trigger old(self)@.handshake(m)]
                {
                    &&& final(self)@ == old(self)@.handshake(m)
                    &&& is_handshake(m, header@, old(self)@.id, capabilities, metadata)
                },
    {
        let payload = SessionCreateRequest { session_id: self.id(), capabilities, metadata };
        let data = payload.to_value();
        let message = Message::Request(
            RequestMessage {
                header,
                request: SessionCreateRequest::request_method_name().to_owned(),
                data: Some(data),
            },
        );
        let ghost m = message@;
        let r = self.handshake(message);
        proof {
            if r is Ok {
                assert(self@ == old(self)@.handshake(m));
                assert(is_handshake(m, header@, old(self)@.id, capabilities, metadata));
            }
        }
        r
    }

    /// Sends the handshake under a freshly minted header: see
    /// `session_create_with`.
    pub fn session_create(&mut self, capabilities: SessionCapabilities, metadata: Option<Metadata>) -> (r:
        Result<(), SessionError>)
        ensures
            final(self)@.wf(),
            r is Ok == (old(self)@.state is Handshaking),
            r is Err ==> r == Err::<(), SessionError>(SessionError::NotHandshaking) && final(self)@ == old(self)@,
            r is Ok ==> exists|m: MessageView, header: crate::header::HeaderView|
                #![trigger is_handshake(m, header, old(self)@.id, capabilities, metadata)]
                {
                    &&& crate::header::minted(header)
                    &&& final(self)@ == old(self)@.handshake(m)
                    &&& is_handshake(m, header, old(self)@.id, capabilities, metadata)
                },
    {
        let header = Header::mint();
        let ghost h = header@;
        let r = self.session_create_with(header, capabilities, metadata);
        proof {
            if r is Ok {
                let m = choose|m: MessageView|
                    #![trigger old(self)@.handshake(m)]
                    {
                        &&& self@ == old(self)@.handshake(m)
                        &&& is_handshake(m, h, old(self)@.id, capabilities, metadata)
                    };
                assert(crate::header::minted(h) && is_handshake(
                    m,
                    h,
                    old(self)@.id,
                    capabilities,
                    metadata,
                ));
            }
        }
        r
    }
}

} // verus!
