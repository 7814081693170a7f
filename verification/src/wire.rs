//! The wire form of messages.
//!
//! A control message travels as one JSON object on the text channel of the
//! connection; a binary message travels as raw bytes on its binary channel.
//! No member of the object names the kind of the message: a reader tells the
//! kinds apart by the members that are present, in a fixed order of
//! precedence. First `request`, then `response`, then `event`.
use crate::header::Header;
use crate::header::HeaderView;
use crate::json;
use crate::json::members;
use crate::json::null;
use crate::json::parsed;
use crate::json::rendered;
use crate::json::signed_of;
use crate::json::text_of;
use crate::json::unsigned_of;
use crate::message::EventMessage;
use crate::message::EventView;
use crate::message::Message;
use crate::message::MessageView;
use crate::message::RequestMessage;
use crate::message::RequestView;
use crate::message::ResponseMessage;
use crate::message::ResponseView;
use serde_json::Value;
use vstd::prelude::*;

verus! {

/// What arrives on, or leaves by, the connection.
#[derive(Debug)]
pub enum Frame {
    /// One JSON text on the text channel.
    Text(String),
    /// Raw bytes on the binary channel.
    Binary(Vec<u8>),
}

pub enum FrameView {
    Text(Seq<char>),
    Binary(Seq<u8>),
}

impl View for Frame {
    type V = FrameView;

    open spec fn view(&self) -> FrameView {
        match self {
            Frame::Text(t) => FrameView::Text(t@),
            Frame::Binary(b) => FrameView::Binary(b@),
        }
    }
}

/// A member of the wire object that a reader checks.
#[derive(Debug, Clone, Copy, PartialEq, Eq, Structural)]
pub enum Field {
    Id,
    Timestamp,
    Request,
    Response,
    Status,
    Event,
}

/// Why a text frame is no control message.
#[derive(Debug, Clone, Copy, PartialEq, Eq, Structural)]
pub enum DecodeError {
    /// The text is not JSON.
    Syntax,
    /// The JSON value has none of the members `request`, `response`, `event`.
    Unclassified,
    /// The member is missing or has the wrong type.
    Invalid(Field),
}

pub open spec fn key_id() -> Seq<char> {
    "id"@
}

pub open spec fn key_ts() -> Seq<char> {
    "ts"@
}

pub open spec fn key_request() -> Seq<char> {
    "request"@
}

pub open spec fn key_response() -> Seq<char> {
    "response"@
}

pub open spec fn key_status() -> Seq<char> {
    "status"@
}

pub open spec fn key_event() -> Seq<char> {
    "event"@
}

pub open spec fn key_data() -> Seq<char> {
    "data"@
}

/// The string under `key`, where there is one.
pub open spec fn text_member(f: Map<Seq<char>, Value>, key: Seq<char>) -> Option<Seq<char>> {
    if f.contains_key(key) {
        text_of(f[key])
    } else {
        None
    }
}

/// The timestamp: an integer under `ts` that fits `i64`.
pub open spec fn timestamp_member(f: Map<Seq<char>, Value>) -> Option<i64> {
    if f.contains_key(key_ts()) {
        signed_of(f[key_ts()])
    } else {
        None
    }
}

/// The status: an integer under `status` that fits `u16`.
pub open spec fn status_member(f: Map<Seq<char>, Value>) -> Option<u16> {
    if f.contains_key(key_status()) {
        match unsigned_of(f[key_status()]) {
            Some(n) => if n <= u16::MAX {
                Some(n as u16)
            } else {
                None
            },
            None => None,
        }
    } else {
        None
    }
}

/// The payload: the member `data` unless it is missing or `null`.
pub open spec fn data_member(f: Map<Seq<char>, Value>) -> Option<Value> {
    if f.contains_key(key_data()) && !null(f[key_data()]) {
        Some(f[key_data()])
    } else {
        None
    }
}

/// The header: a string `id` and an integer `ts`, checked in this order.
pub open spec fn header_of(f: Map<Seq<char>, Value>) -> Result<HeaderView, DecodeError> {
    match text_member(f, key_id()) {
        None => Err(DecodeError::Invalid(Field::Id)),
        Some(id) => match timestamp_member(f) {
            None => Err(DecodeError::Invalid(Field::Timestamp)),
            Some(timestamp) => Ok(HeaderView { id, timestamp }),
        },
    }
}

pub open spec fn request_of(f: Map<Seq<char>, Value>) -> Result<MessageView, DecodeError> {
    match header_of(f) {
        Err(e) => Err(e),
        Ok(header) => match text_member(f, key_request()) {
            None => Err(DecodeError::Invalid(Field::Request)),
            Some(request) => Ok(
                MessageView::Request(RequestView { header, request, data: data_member(f) }),
            ),
        },
    }
}

pub open spec fn response_of(f: Map<Seq<char>, Value>) -> Result<MessageView, DecodeError> {
    match header_of(f) {
        Err(e) => Err(e),
        Ok(header) => match text_member(f, key_response()) {
            None => Err(DecodeError::Invalid(Field::Response)),
            Some(response) => match status_member(f) {
                None => Err(DecodeError::Invalid(Field::Status)),
                Some(status) => Ok(
                    MessageView::Response(
                        ResponseView { header, response, status, data: data_member(f) },
                    ),
                ),
            },
        },
    }
}

pub open spec fn event_of(f: Map<Seq<char>, Value>) -> Result<MessageView, DecodeError> {
    match header_of(f) {
        Err(e) => Err(e),
        Ok(header) => match text_member(f, key_event()) {
            None => Err(DecodeError::Invalid(Field::Event)),
            Some(event) => Ok(
                MessageView::Event(EventView { header, event, data: data_member(f) }),
            ),
        },
    }
}

/// The control message that a JSON value stands for. The kind is decided by
/// the presence of a member alone, `request` before `response` before `event`;
/// once it is decided, a fault in another member is an error and never a
/// reason to try the next kind.
pub open spec fn classify(v: Value) -> Result<MessageView, DecodeError> {
    let f = members(v);
    if f.contains_key(key_request()) {
        request_of(f)
    } else if f.contains_key(key_response()) {
        response_of(f)
    } else if f.contains_key(key_event()) {
        event_of(f)
    } else {
        Err(DecodeError::Unclassified)
    }
}

/// The control message that a text stands for.
pub open spec fn decode_text_spec(text: Seq<char>) -> Result<MessageView, DecodeError> {
    match parsed(text) {
        None => Err(DecodeError::Syntax),
        Some(v) => classify(v),
    }
}

/// The message that a frame stands for. Every binary frame is a binary
/// message.
pub open spec fn decode_spec(frame: FrameView) -> Result<MessageView, DecodeError> {
    match frame {
        FrameView::Text(text) => decode_text_spec(text),
        FrameView::Binary(bytes) => Ok(MessageView::Binary(bytes)),
    }
}

/// The result of decoding, with the message taken by its view.
pub open spec fn decoded(r: Result<Message, DecodeError>) -> Result<MessageView, DecodeError> {
    match r {
        Ok(m) => Ok(m@),
        Err(e) => Err(e),
    }
}

/// The header members of a wire object are those of `h`.
pub open spec fn holds_header(f: Map<Seq<char>, Value>, h: HeaderView) -> bool {
    &&& f.contains_key(key_id())
    &&& text_of(f[key_id()]) == Some(h.id)
    &&& f.contains_key(key_ts())
    &&& signed_of(f[key_ts()]) == Some(h.timestamp)
}

/// `v` is the wire object of the control message `m`: it has the members of
/// `m` and no others. A request always has a member `data`, `null` where the
/// request has no payload; a response and an event have the member only where
/// they have a payload.
pub open spec fn describes(v: Value, m: MessageView) -> bool {
    let f = members(v);
    match m {
        MessageView::Request(r) => {
            &&& f.dom() =~= set![key_id(), key_ts(), key_request(), key_data()]
            &&& holds_header(f, r.header)
            &&& text_of(f[key_request()]) == Some(r.request)
            &&& match r.data {
                Some(d) => f[key_data()] == d,
                None => null(f[key_data()]),
            }
        },
        MessageView::Response(r) => {
            &&& f.dom() =~= if r.data is Some {
                set![key_id(), key_ts(), key_response(), key_status(), key_data()]
            } else {
                set![key_id(), key_ts(), key_response(), key_status()]
            }
            &&& holds_header(f, r.header)
            &&& text_of(f[key_response()]) == Some(r.response)
            &&& unsigned_of(f[key_status()]) == Some(r.status as u64)
            &&& r.data matches Some(d) ==> f[key_data()] == d
        },
        MessageView::Event(e) => {
            &&& f.dom() =~= if e.data is Some {
                set![key_id(), key_ts(), key_event(), key_data()]
            } else {
                set![key_id(), key_ts(), key_event()]
            }
            &&& holds_header(f, e.header)
            &&& text_of(f[key_event()]) == Some(e.event)
            &&& e.data matches Some(d) ==> f[key_data()] == d
        },
        MessageView::Binary(_) => false,
    }
}

/// `f` is the frame of `m`: the bytes themselves for a binary message, the
/// compact text of the wire object for a control message.
pub open spec fn encodes(m: MessageView, f: FrameView) -> bool {
    match m {
        MessageView::Binary(bytes) => f == FrameView::Binary(bytes),
        _ => exists|v: Value| #[trigger] describes(v, m) && f == FrameView::Text(rendered(v)),
    }
}

/// The JSON layer reads the text of a frame back as the value that it was
/// rendered from.
pub open spec fn reads_back(f: FrameView) -> bool {
    f matches FrameView::Text(t) ==> forall|v: Value| #[trigger]
        rendered(v) == t ==> parsed(t) == Some(v)
}

/// The seven member names differ from each other.
pub proof fn lemma_keys_distinct()
    ensures
        key_id() != key_ts(),
        key_id() != key_request(),
        key_id() != key_response(),
        key_id() != key_status(),
        key_id() != key_event(),
        key_id() != key_data(),
        key_ts() != key_request(),
        key_ts() != key_response(),
        key_ts() != key_status(),
        key_ts() != key_event(),
        key_ts() != key_data(),
        key_request() != key_response(),
        key_request() != key_status(),
        key_request() != key_event(),
        key_request() != key_data(),
        key_response() != key_status(),
        key_response() != key_event(),
        key_response() != key_data(),
        key_status() != key_event(),
        key_status() != key_data(),
        key_event() != key_data(),
{
    reveal_strlit("id");
    reveal_strlit("ts");
    reveal_strlit("request");
    reveal_strlit("response");
    reveal_strlit("status");
    reveal_strlit("event");
    reveal_strlit("data");
    assert(key_id()[0] == 'i');
    assert(key_ts()[0] == 't');
    assert(key_request()[2] == 'q');
    assert(key_response()[2] == 's');
    assert(key_status()[0] == 's');
    assert(key_data()[0] == 'd');
    assert(key_event()[0] == 'e');
}

/// Reading the wire object of a well-formed control message gives the message
/// back.
pub proof fn lemma_classify_describes(v: Value, m: MessageView)
    requires
        m.wf(),
        describes(v, m),
    ensures
        classify(v) == Ok::<MessageView, DecodeError>(m),
{
    lemma_keys_distinct();
    let f = members(v);
    match m {
        MessageView::Request(r) => {
            assert(f.contains_key(key_request()));
            assert(f.contains_key(key_data()));
        },
        MessageView::Response(r) => {
            assert(f.contains_key(key_response()));
            assert(f.contains_key(key_status()));
            assert(!f.contains_key(key_request()));
            assert(r.data is Some ==> f.contains_key(key_data()));
            assert(r.data is None ==> !f.contains_key(key_data()));
        },
        MessageView::Event(e) => {
            assert(f.contains_key(key_event()));
            assert(!f.contains_key(key_request()));
            assert(!f.contains_key(key_response()));
            assert(e.data is Some ==> f.contains_key(key_data()));
            assert(e.data is None ==> !f.contains_key(key_data()));
        },
        MessageView::Binary(_) => {},
    }
}

/// Decoding the frame of a message gives the message back, with every
/// populated field unchanged. This holds of every binary message, and of every
/// control message whose text the JSON layer reads back as it was rendered.
pub proof fn lemma_round_trip(m: MessageView, f: FrameView)
    requires
        m.wf(),
        encodes(m, f),
        reads_back(f),
    ensures
        decode_spec(f) == Ok::<MessageView, DecodeError>(m),
{
    if !(m is Binary) {
        let v = choose|v: Value| #[trigger] describes(v, m) && f == FrameView::Text(rendered(v));
        lemma_classify_describes(v, m);
    }
}

/// What a reader makes of a frame is well formed: it never holds a `null`
/// payload.
pub proof fn lemma_decoded_wf(f: FrameView)
    ensures
        decode_spec(f) matches Ok(m) ==> m.wf(),
{
}

fn insert_text(m: &mut serde_json::Map<String, Value>, key: &str, s: &String)
    ensures
        json::entries(*final(m)) == json::entries(*old(m)).insert(key@, json::entries(*final(m))[key@]),
        text_of(json::entries(*final(m))[key@]) == Some(s@),
{
    json::map_insert(m, key.to_owned(), json::text(s.clone()));
}

fn insert_header(m: &mut serde_json::Map<String, Value>, header: &Header)
    requires
        json::entries(*old(m)).dom() =~= Set::<Seq<char>>::empty(),
    ensures
        json::entries(*final(m)).dom() =~= set![key_id(), key_ts()],
        holds_header(json::entries(*final(m)), header@),
{
    proof {
        lemma_keys_distinct();
    }
    insert_text(m, "id", &header.id);
    json::map_insert(m, "ts".to_owned(), json::signed(header.timestamp));
}

/// The wire object of a control message; `None` for a binary message, which
/// has none.
pub fn to_value(message: &Message) -> (r: Option<Value>)
    ensures
        message@ is Binary ==> r is None,
        !(message@ is Binary) ==> (r matches Some(v) && describes(v, message@)),
{
    proof {
        lemma_keys_distinct();
    }
    match message {
        Message::Request(m) => {
            let mut map = json::map_new();
            insert_header(&mut map, &m.header);
            insert_text(&mut map, "request", &m.request);
            match &m.data {
                Some(d) => json::map_insert(&mut map, "data".to_owned(), json::copy(d)),
                None => json::map_insert(&mut map, "data".to_owned(), json::null_value()),
            }
            Some(json::object(map))
        },
        Message::Response(m) => {
            let mut map = json::map_new();
            insert_header(&mut map, &m.header);
            insert_text(&mut map, "response", &m.response);
            json::map_insert(&mut map, "status".to_owned(), json::unsigned(m.status as u64));
            match &m.data {
                Some(d) => json::map_insert(&mut map, "data".to_owned(), json::copy(d)),
                None => {},
            }
            Some(json::object(map))
        },
        Message::Event(m) => {
            let mut map = json::map_new();
            insert_header(&mut map, &m.header);
            insert_text(&mut map, "event", &m.event);
            match &m.data {
                Some(d) => json::map_insert(&mut map, "data".to_owned(), json::copy(d)),
                None => {},
            }
            Some(json::object(map))
        },
        Message::Binary(_) => None,
    }
}

/// The frame of a message.
pub fn encode(message: &Message) -> (f: Frame)
    ensures
        encodes(message@, f@),
{
    match to_value(message) {
        Some(v) => {
            let text = json::render(&v);
            assert(describes(v, message@) && text@ == rendered(v));
            Frame::Text(text)
        },
        None => match message {
            Message::Binary(bytes) => Frame::Binary(crate::message::copy_bytes(bytes)),
            _ => {
                proof {
                    assert(false);
                }
                Frame::Binary(Vec::new())
            },
        },
    }
}

fn read_text(v: &Value, key: &str) -> (r: Option<String>)
    ensures
        r is Some == text_member(members(*v), key@) is Some,
        r matches Some(s) ==> text_member(members(*v), key@) == Some(s@),
{
    match json::member(v, key) {
        Some(x) => match json::as_text(x) {
            Some(s) => Some(s.to_owned()),
            None => None,
        },
        None => None,
    }
}

fn read_timestamp(v: &Value) -> (r: Option<i64>)
    ensures
        r == timestamp_member(members(*v)),
{
    match json::member(v, "ts") {
        Some(x) => json::as_signed(x),
        None => None,
    }
}

fn read_status(v: &Value) -> (r: Option<u16>)
    ensures
        r == status_member(members(*v)),
{
    match json::member(v, "status") {
        Some(x) => match json::as_unsigned(x) {
            Some(n) => if n <= 0xffff {
                Some(n as u16)
            } else {
                None
            },
            None => None,
        },
        None => None,
    }
}

fn read_data(v: &Value) -> (r: Option<Value>)
    ensures
        r == data_member(members(*v)),
{
    match json::member(v, "data") {
        Some(x) => if json::is_null(x) {
            None
        } else {
            Some(json::copy(x))
        },
        None => None,
    }
}

fn read_header(v: &Value) -> (r: Result<Header, DecodeError>)
    ensures
        match r {
            Ok(h) => header_of(members(*v)) == Ok::<HeaderView, DecodeError>(h@),
            Err(e) => header_of(members(*v)) == Err::<HeaderView, DecodeError>(e),
        },
{
    match read_text(v, "id") {
        None => Err(DecodeError::Invalid(Field::Id)),
        Some(id) => match read_timestamp(v) {
            None => Err(DecodeError::Invalid(Field::Timestamp)),
            Some(timestamp) => Ok(Header { id, timestamp }),
        },
    }
}

fn has_member(v: &Value, key: &str) -> (r: bool)
    ensures
        r == members(*v).contains_key(key@),
{
    json::member(v, key).is_some()
}

/// The control message that a JSON value stands for.
pub fn from_value(v: &Value) -> (r: Result<Message, DecodeError>)
    ensures
        decoded(r) == classify(*v),
{
    if has_member(v, "request") {
        let header = match read_header(v) {
            Ok(h) => h,
            Err(e) => { return Err(e); },
        };
        match read_text(v, "request") {
            None => Err(DecodeError::Invalid(Field::Request)),
            Some(request) => Ok(
                Message::Request(RequestMessage { header, request, data: read_data(v) }),
            ),
        }
    } else if has_member(v, "response") {
        let header = match read_header(v) {
            Ok(h) => h,
            Err(e) => { return Err(e); },
        };
        match read_text(v, "response") {
            None => Err(DecodeError::Invalid(Field::Response)),
            Some(response) => match read_status(v) {
                None => Err(DecodeError::Invalid(Field::Status)),
                Some(status) => Ok(
                    Message::Response(
                        ResponseMessage { header, response, status, data: read_data(v) },
                    ),
                ),
            },
        }
    } else if has_member(v, "event") {
        let header = match read_header(v) {
            Ok(h) => h,
            Err(e) => { return Err(e); },
        };
        match read_text(v, "event") {
            None => Err(DecodeError::Invalid(Field::Event)),
            Some(event) => Ok(Message::Event(EventMessage { header, event, data: read_data(v) })),
        }
    } else {
        Err(DecodeError::Unclassified)
    }
}

/// The control message that a text stands for.
pub fn decode_text(text: &str) -> (r: Result<Message, DecodeError>)
    ensures
        decoded(r) == decode_text_spec(text@),
{
    match json::parse(text) {
        Ok(v) => from_value(&v),
        Err(_) => Err(DecodeError::Syntax),
    }
}

/// The message that a frame stands for.
pub fn decode(frame: Frame) -> (r: Result<Message, DecodeError>)
    ensures
        decoded(r) == decode_spec(frame@),
{
    match frame {
        Frame::Text(text) => decode_text(text.as_str()),
        Frame::Binary(bytes) => Ok(Message::Binary(bytes)),
    }
}

} // verus!
