//! Requests: payloads that call a method of the peer.
use crate::ext::ApiSupport;
use crate::header::Header;
use crate::header::minted;
use crate::message::Message;
use crate::message::MessageView;
use crate::message::RequestMessage;
use crate::response::ResponseExt;
use vstd::prelude::*;

verus! {

/// The words of the documented wire form of a request.
#[derive(Debug, Clone, Copy, PartialEq, Eq, Structural)]
pub enum RequestKind {
    Request,
}

/// Whether `m` is a request of the method `method` whose payload is the JSON
/// form of `payload`, under a freshly minted header.
pub open spec fn is_request_of<T: ApiSupport>(m: MessageView, method: Seq<char>, payload: T) -> bool {
    &&& m matches MessageView::Request(r)
    &&& r.request == method
    &&& r.data matches Some(v)
    &&& payload.written(v)
    &&& payload.is_json(v)
    &&& minted(r.header)
    &&& m.wf()
}

/// A payload that is the argument of a method.
pub trait RequestExt: ApiSupport {
    /// The payload of the response to this request.
    type Response: ResponseExt;

    /// The name of the method.
    spec fn method() -> Seq<char>;

    /// The name of the method.
    fn request_method_name() -> (name: &'static str)
        ensures
            name@ == Self::method(),
    ;

    /// A request message that carries this payload, under a freshly minted
    /// header.
    fn message(&self) -> (m: Message)
        ensures
            is_request_of(m@, Self::method(), *self),
    {
        Message::Request(
            RequestMessage {
                header: Header::mint(),
                request: Self::request_method_name().to_owned(),
                data: Some(self.to_value()),
            },
        )
    }
}

} // verus!
