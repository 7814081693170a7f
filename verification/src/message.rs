//! The four kinds of message that a session exchanges.
//!
//! Requests, responses and events are control messages: each carries a header
//! and an optional JSON payload. A binary message is a bare media frame.
use crate::header::Header;
use crate::header::HeaderView;
use crate::header::minted;
use crate::json;
use serde_json::Value;
use vstd::prelude::*;

verus! {

/// A call of a named method on the peer.
#[derive(Debug)]
pub struct RequestMessage {
    pub header: Header,
    /// The method to call.
    pub request: String,
    pub data: Option<Value>,
}

/// The answer to one request.
#[derive(Debug)]
pub struct ResponseMessage {
    pub header: Header,
    /// The id of the request that this message answers.
    pub response: String,
    pub status: u16,
    pub data: Option<Value>,
}

/// A notification that asks for no answer.
#[derive(Debug)]
pub struct EventMessage {
    pub header: Header,
    /// The name of the event.
    pub event: String,
    pub data: Option<Value>,
}

/// Any message of the protocol.
#[derive(Debug)]
pub enum Message {
    Request(RequestMessage),
    Response(ResponseMessage),
    Event(EventMessage),
    Binary(Vec<u8>),
}

pub struct RequestView {
    pub header: HeaderView,
    pub request: Seq<char>,
    pub data: Option<Value>,
}

pub struct ResponseView {
    pub header: HeaderView,
    pub response: Seq<char>,
    pub status: u16,
    pub data: Option<Value>,
}

pub struct EventView {
    pub header: HeaderView,
    pub event: Seq<char>,
    pub data: Option<Value>,
}

pub enum MessageView {
    Request(RequestView),
    Response(ResponseView),
    Event(EventView),
    Binary(Seq<u8>),
}

impl View for RequestMessage {
    type V = RequestView;

    open spec fn view(&self) -> RequestView {
        RequestView { header: self.header@, request: self.request@, data: self.data }
    }
}

impl View for ResponseMessage {
    type V = ResponseView;

    open spec fn view(&self) -> ResponseView {
        ResponseView {
            header: self.header@,
            response: self.response@,
            status: self.status,
            data: self.data,
        }
    }
}

impl View for EventMessage {
    type V = EventView;

    open spec fn view(&self) -> EventView {
        EventView { header: self.header@, event: self.event@, data: self.data }
    }
}

impl View for Message {
    type V = MessageView;

    open spec fn view(&self) -> MessageView {
        match self {
            Message::Request(m) => MessageView::Request(m@),
            Message::Response(m) => MessageView::Response(m@),
            Message::Event(m) => MessageView::Event(m@),
            Message::Binary(bytes) => MessageView::Binary(bytes@),
        }
    }
}

/// The body of a response, apart from its header: the request that it
/// answers, the status, and the payload.
#[derive(Debug)]
pub struct ResponseBody<D> {
    /// The id of the request that is answered.
    pub request_id: String,
    pub status: u16,
    pub data: Option<D>,
}

/// A payload is populated when it is there and is not JSON `null`: on the
/// wire a `null` payload and a missing one read the same.
pub open spec fn populated(data: Option<Value>) -> bool {
    data matches Some(v) ==> !json::null(v)
}

/// The status that a response carries when the request succeeded.
pub const STATUS_OK: u16 = 200;

/// The status of a response to a request whose method nobody handles.
pub const STATUS_NOT_FOUND: u16 = 404;

/// The status of a response that reports a failure without a status of its own.
pub const STATUS_FAILED: u16 = 500;

/// Whether a status reports success.
pub open spec fn success(status: u16) -> bool {
    200 <= status < 300
}

impl MessageView {
    /// The payload of a control message; a binary message has none.
    pub open spec fn data(self) -> Option<Value> {
        match self {
            MessageView::Request(m) => m.data,
            MessageView::Response(m) => m.data,
            MessageView::Event(m) => m.data,
            MessageView::Binary(_) => None,
        }
    }

    /// The header of a control message.
    pub open spec fn header(self) -> Option<HeaderView> {
        match self {
            MessageView::Request(m) => Some(m.header),
            MessageView::Response(m) => Some(m.header),
            MessageView::Event(m) => Some(m.header),
            MessageView::Binary(_) => None,
        }
    }

    /// The id of a control message; the empty string for a binary message.
    pub open spec fn id(self) -> Seq<char> {
        match self.header() {
            Some(h) => h.id,
            None => Seq::empty(),
        }
    }

    /// Every payload that is there is populated.
    pub open spec fn wf(self) -> bool {
        populated(self.data())
    }

    /// A response whose status does not report success.
    pub open spec fn is_error(self) -> bool {
        self matches MessageView::Response(m) && !success(m.status)
    }
}

/// A copy of an optional payload.
pub fn copy_data(data: &Option<Value>) -> (r: Option<Value>)
    ensures
        r == *data,
{
    match data {
        Some(v) => Some(json::copy(v)),
        None => None,
    }
}

/// A copy of a frame's bytes.
pub fn copy_bytes(bytes: &Vec<u8>) -> (r: Vec<u8>)
    ensures
        r@ == bytes@,
{
    let r = bytes.clone();
    assert(r@ =~= bytes@);
    r
}

impl RequestMessage {
    /// The id of this request, under which its response will arrive.
    pub fn id(&self) -> (r: String)
        ensures
            r@ == self@.header.id,
    {
        self.header.id.clone()
    }
}

impl Clone for RequestMessage {
    fn clone(&self) -> (r: RequestMessage)
        ensures
            r@ == self@,
    {
        RequestMessage {
            header: self.header.clone(),
            request: self.request.clone(),
            data: copy_data(&self.data),
        }
    }
}

impl Clone for ResponseMessage {
    fn clone(&self) -> (r: ResponseMessage)
        ensures
            r@ == self@,
    {
        ResponseMessage {
            header: self.header.clone(),
            response: self.response.clone(),
            status: self.status,
            data: copy_data(&self.data),
        }
    }
}

impl Clone for EventMessage {
    fn clone(&self) -> (r: EventMessage)
        ensures
            r@ == self@,
    {
        EventMessage {
            header: self.header.clone(),
            event: self.event.clone(),
            data: copy_data(&self.data),
        }
    }
}

impl Clone for Message {
    fn clone(&self) -> (r: Message)
        ensures
            r@ == self@,
    {
        match self {
            Message::Request(m) => Message::Request(m.clone()),
            Message::Response(m) => Message::Response(m.clone()),
            Message::Event(m) => Message::Event(m.clone()),
            Message::Binary(bytes) => Message::Binary(copy_bytes(bytes)),
        }
    }
}

impl Message {
    /// The id in the header; the empty string for a binary message, which has
    /// no header.
    pub fn id(&self) -> (r: String)
        ensures
            r@ == self@.id(),
    {
        match self {
            Message::Request(m) => m.header.id.clone(),
            Message::Response(m) => m.header.id.clone(),
            Message::Event(m) => m.header.id.clone(),
            Message::Binary(_) => String::new(),
        }
    }

    /// The header of a control message. A binary message has none, and gets a
    /// freshly minted one.
    pub fn headers(&self) -> (r: Header)
        ensures
            self@.header() matches Some(h) ==> r@ == h,
            self@.header() is None ==> minted(r@),
    {
        match self {
            Message::Request(m) => m.header.clone(),
            Message::Response(m) => m.header.clone(),
            Message::Event(m) => m.header.clone(),
            Message::Binary(_) => Header::mint(),
        }
    }

    pub fn is_request(&self) -> (r: bool)
        ensures
            r == (self@ is Request),
    {
        match self {
            Message::Request(_) => true,
            _ => false,
        }
    }

    pub fn is_response(&self) -> (r: bool)
        ensures
            r == (self@ is Response),
    {
        match self {
            Message::Response(_) => true,
            _ => false,
        }
    }

    pub fn is_event(&self) -> (r: bool)
        ensures
            r == (self@ is Event),
    {
        match self {
            Message::Event(_) => true,
            _ => false,
        }
    }

    pub fn is_binary(&self) -> (r: bool)
        ensures
            r == (self@ is Binary),
    {
        match self {
            Message::Binary(_) => true,
            _ => false,
        }
    }

    /// Whether this is a response that reports a failure.
    pub fn is_error(&self) -> (r: bool)
        ensures
            r == self@.is_error(),
    {
        match self {
            Message::Response(m) => !(200 <= m.status && m.status < 300),
            _ => false,
        }
    }
}

} // verus!
