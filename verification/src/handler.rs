//! What a handler sees of the session: the message that it handles, and a
//! way to send messages of its own.
use crate::ext::ApiSupport;
use crate::message::success;
use crate::message::Message;
use crate::message::MessageView;
use crate::response::ResponseError;
use crate::session::queue_view;
use crate::session::Outcome;
use serde_json::Value;
use vstd::prelude::*;

verus! {

/// How a handler fails.
#[derive(Debug)]
pub enum HandlerError {
    /// The session no longer accepts messages from handlers.
    QueueClosed,
    /// The application reports an error of its own, with the status under
    /// which the peer is to learn of it.
    Failed { status: u16, message: String },
}

impl HandlerError {
    /// Whether `o` is what the engine is told of this error: a failure with
    /// the status of the error, and with a payload that holds the status and
    /// the message. An error without a status of its own is a failure of
    /// this side, without a payload.
    pub open spec fn told_as(self, o: Outcome) -> bool {
        match self {
            HandlerError::QueueClosed => o == (Outcome::Failed {
                status: crate::message::STATUS_FAILED,
                data: None,
            }),
            HandlerError::Failed { status, message } => {
                let body = ResponseError { error_message: Some(message), status };
                &&& o matches Outcome::Failed { status: s, data: Some(v) }
                &&& s == status
                &&& body.written(v)
                &&& body.is_json(v)
            },
        }
    }

    /// What the engine is told when a request handler ends with this error.
    pub fn outcome(&self) -> (o: Outcome)
        ensures
            self.told_as(o),
    {
        match self {
            HandlerError::QueueClosed => Outcome::Failed {
                status: crate::message::STATUS_FAILED,
                data: None,
            },
            HandlerError::Failed { status, message } => {
                let body = ResponseError { error_message: Some(message.clone()), status: *status };
                let v = body.to_value();
                Outcome::Failed { status: *status, data: Some(v) }
            },
        }
    }
}

/// The status under which a request with a payload that does not read as
/// the argument of its method is refused.
pub const STATUS_BAD_REQUEST: u16 = 400;

/// The argument of a method, read from the payload of a request. A payload
/// that reads as no argument of the type is an error of the caller.
pub fn argument<T: ApiSupport>(data: &Value) -> (r: Result<T, HandlerError>)
    ensures
        r matches Ok(x) ==> x.is_json(*data),
        r matches Err(e) ==> {
            &&& e matches HandlerError::Failed { status, .. }
            &&& status == STATUS_BAD_REQUEST
            &&& forall|x: T| !#[trigger] x.is_json(*data)
        },
{
    match T::from_value(data) {
        Some(x) => Ok(x),
        None => Err(
            HandlerError::Failed {
                status: STATUS_BAD_REQUEST,
                message: "the payload does not fit the method".to_owned(),
            },
        ),
    }
}

/// What the engine is told when a request handler ends: success with the
/// JSON form of its result, or the failure that its error stands for.
pub fn conclude<T: ApiSupport>(result: Result<T, HandlerError>) -> (o: Outcome)
    ensures
        match result {
            Ok(x) => {
                &&& o matches Outcome::Done(Some(v))
                &&& x.written(v)
                &&& x.is_json(v)
                &&& !crate::json::null(v)
            },
            Err(e) => e.told_as(o),
        },
{
    match result {
        Ok(x) => Outcome::Done(Some(x.to_value())),
        Err(e) => e.outcome(),
    }
}

/// The context of one handler call.
#[derive(Debug)]
pub struct MessageContext {
    msg: Message,
    outbox: Vec<Message>,
    accepting: bool,
}

/// A context, as mathematical values.
pub struct ContextView {
    pub msg: MessageView,
    /// What the handler has sent so far, in the order of sending.
    pub outbox: Seq<MessageView>,
    /// Whether the session accepts messages from this handler.
    pub accepting: bool,
}

impl View for MessageContext {
    type V = ContextView;

    closed spec fn view(&self) -> ContextView {
        ContextView { msg: self.msg@, outbox: queue_view(self.outbox@), accepting: self.accepting }
    }
}

impl MessageContext {
    /// The context of a handler call for `msg`. `accepting` says whether the
    /// session takes messages from the handler.
    pub fn new(accepting: bool, msg: Message) -> (c: MessageContext)
        ensures
            c@ == (ContextView { msg: msg@, outbox: Seq::empty(), accepting }),
    {
        let c = MessageContext { msg, outbox: Vec::new(), accepting };
        assert(queue_view(c.outbox@) =~= Seq::empty());
        c
    }

    /// The message that is handled.
    pub fn msg(&self) -> (m: &Message)
        ensures
            m@ == self@.msg,
    {
        &self.msg
    }

    /// Sends a message from the handler. The messages of one handler reach
    /// the peer in the order in which they were sent.
    pub fn send(&mut self, msg: Message) -> (r: Result<(), HandlerError>)
        ensures
            final(self)@.msg == old(self)@.msg,
            final(self)@.accepting == old(self)@.accepting,
            r is Ok == old(self)@.accepting,
            r is Err ==> (r matches Err(HandlerError::QueueClosed)) && final(self)@ == old(self)@,
            r is Ok ==> final(self)@.outbox == old(self)@.outbox.push(msg@),
    {
        if self.accepting {
            self.outbox.push(msg);
            assert(queue_view(self.outbox@) =~= old(self)@.outbox.push(msg@));
            Ok(())
        } else {
            Err(HandlerError::QueueClosed)
        }
    }

    /// Ends the handler call and hands out what the handler has sent, for
    /// the queue of the session.
    pub fn finish(self) -> (sent: Vec<Message>)
        ensures
            queue_view(sent@) == self@.outbox,
    {
        self.outbox
    }
}

} // verus!
