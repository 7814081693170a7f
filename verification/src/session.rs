//! The session engine.
//!
//! A session is one conversation over one connection. The engine decides; it
//! performs no I/O. Whoever drives it reads frames from the transport and
//! hands them to `receive`, takes frames from `next_outbound` and writes them
//! to the transport, calls the handlers that `receive` names and reports
//! their return, and tells the engine of the passing of time and of the end
//! of the connection.
//!
//! Every operation is specified by a function on `SessionView`, the
//! mathematical state of a session; the laws of the engine are stated over
//! these functions.
use crate::correlator::deadline_after;
use crate::correlator::ids;
use crate::correlator::texts;
use crate::correlator::Correlator;
use crate::correlator::CorrelatorView;
use crate::correlator::Cut;
use crate::header::Header;
use crate::header::HeaderView;
use crate::header::id_form;
use crate::header::minted;
use crate::message::success;
use crate::message::EventMessage;
use crate::message::EventView;
use crate::message::Message;
use crate::message::MessageView;
use crate::message::RequestMessage;
use crate::message::RequestView;
use crate::message::ResponseMessage;
use crate::message::ResponseView;
use crate::message::STATUS_FAILED;
use crate::message::STATUS_NOT_FOUND;
use crate::message::STATUS_OK;
use crate::registry::Registry;
use crate::registry::RegistryView;
use crate::wire::decode;
use crate::wire::decode_spec;
use crate::wire::encode;
use crate::wire::encodes;
use crate::wire::DecodeError;
use crate::wire::Frame;
use crate::wire::FrameView;
use serde_json::Value;
use vstd::prelude::*;

verus! {

/// The stages of the life of a session.
#[derive(Debug, Clone, Copy, PartialEq, Eq, Structural)]
pub enum SessionState {
    /// The transport is being established.
    Connecting,
    /// The transport stands; the handshake has not been sent.
    Handshaking,
    /// Messages flow in both directions.
    Active,
    /// Nothing new is accepted; what is queued is still sent.
    Terminating,
    /// The session is over.
    Closed,
}

/// Why the session did not accept a message for sending.
#[derive(Debug, Clone, Copy, PartialEq, Eq, Structural)]
pub enum SessionError {
    /// The session is not active.
    NotActive,
    /// The session is not waiting to send its handshake.
    NotHandshaking,
}

/// Why a request failed.
#[derive(Debug, Clone, Copy, PartialEq, Eq, Structural)]
pub enum RequestError {
    /// The session closed, or was not active, before a response arrived.
    SessionClosed,
    /// No response arrived before the deadline.
    Timeout,
    /// The id of the request was used before in this session.
    DuplicateId,
}

/// Why an inbound message led to no handler.
#[derive(Debug, Clone, Copy, PartialEq, Eq, Structural)]
pub enum Reason {
    /// The session is not active.
    Inactive,
    /// The frame is no message.
    Undecodable(DecodeError),
    /// A request names a method without a handler; a response that says so
    /// has been queued.
    UnknownMethod,
    /// An event has a name without a handler.
    UnknownEvent,
    /// A binary frame arrived and there is no handler of binary frames.
    NoBinaryHandler,
    /// A response correlates to no waiting request.
    Unmatched,
}

/// What a handler is busy with, as mathematical values.
pub enum Dispatch {
    /// No handler runs.
    Idle,
    /// The handler of a request of this id runs.
    Request(Seq<char>),
    /// The handler of an event or of a binary frame runs.
    Notification,
}

/// What the driver is to do with an inbound frame, as mathematical values.
pub enum InboundView {
    /// Call the handler of the method of this request, then report its
    /// return.
    Request(RequestView),
    /// Call the handler of the name of this event, then report its return.
    Event(EventView),
    /// Call the handler of binary frames, then report its return.
    Binary(Seq<u8>),
    /// Hand the response to the caller that waits for it.
    Resolved(ResponseView),
    /// A handler still runs: offer the frame again after its return.
    Deferred(FrameView),
    /// Nothing to do.
    Dropped(Reason),
}

/// How a request handler ended, as seen by the engine.
pub enum Outcome {
    /// Success, with the payload of the response.
    Done(Option<Value>),
    /// A failure of the application, with its status and payload.
    Failed { status: u16, data: Option<Value> },
}

/// The status of the response to a request whose handler ended this way. A
/// failure never travels under a status that reports success.
pub open spec fn outcome_status(outcome: Outcome) -> u16 {
    match outcome {
        Outcome::Done(_) => STATUS_OK,
        Outcome::Failed { status, .. } => if success(status) {
            STATUS_FAILED
        } else {
            status
        },
    }
}

pub open spec fn outcome_data(outcome: Outcome) -> Option<Value> {
    match outcome {
        Outcome::Done(data) => data,
        Outcome::Failed { data, .. } => data,
    }
}

/// The response to the request `id` whose handler ended with `outcome`.
pub open spec fn response_to(id: Seq<char>, outcome: Outcome, header: HeaderView) -> MessageView {
    MessageView::Response(
        ResponseView {
            header,
            response: id,
            status: outcome_status(outcome),
            data: outcome_data(outcome),
        },
    )
}

/// The response to a request `id` that names a method without a handler.
pub open spec fn not_found(id: Seq<char>, header: HeaderView) -> MessageView {
    MessageView::Response(
        ResponseView { header, response: id, status: STATUS_NOT_FOUND, data: None },
    )
}

/// The state of a session, as mathematical values.
pub struct SessionView {
    pub id: Seq<char>,
    pub state: SessionState,
    /// The messages that wait to be sent, the next one first.
    pub outbound: Seq<MessageView>,
    pub correlator: CorrelatorView,
    pub dispatch: Dispatch,
    /// Whether the open handler has been called.
    pub opened: bool,
}

impl SessionView {
    /// A session that has just been made.
    pub open spec fn fresh(id: Seq<char>) -> SessionView {
        SessionView {
            id,
            state: SessionState::Connecting,
            outbound: Seq::empty(),
            correlator: CorrelatorView::empty(),
            dispatch: Dispatch::Idle,
            opened: false,
        }
    }

    /// What holds of a session at all times: only an active session has
    /// waiting requests; a session that terminates has something left to
    /// send; a session that is closed or not yet connected has nothing.
    pub open spec fn wf(self) -> bool {
        &&& self.correlator.wf()
        &&& !(self.state is Active) ==> self.correlator.pending.len() == 0
        &&& self.state is Terminating ==> self.outbound.len() > 0
        &&& self.state is Closed || self.state is Connecting ==> self.outbound.len() == 0
    }

    /// Whether the session has left its active life for good.
    pub open spec fn ended(self) -> bool {
        self.state is Terminating || self.state is Closed
    }

    pub open spec fn enqueue(self, m: MessageView) -> SessionView {
        SessionView { outbound: self.outbound.push(m), ..self }
    }

    /// The transport stands.
    pub open spec fn transport_established(self) -> SessionView {
        if self.state is Connecting {
            SessionView { state: SessionState::Handshaking, ..self }
        } else {
            self
        }
    }

    /// The handshake is queued and the session becomes active at once,
    /// without waiting for the peer.
    pub open spec fn handshake(self, announcement: MessageView) -> SessionView {
        if self.state is Handshaking {
            SessionView { state: SessionState::Active, ..self.enqueue(announcement) }
        } else {
            self
        }
    }

    /// The open handler is due once, when the session is active.
    pub open spec fn open_due(self) -> bool {
        self.state is Active && !self.opened
    }

    pub open spec fn open(self) -> SessionView {
        if self.open_due() {
            SessionView { opened: true, ..self }
        } else {
            self
        }
    }

    /// A message is accepted for sending by an active session alone.
    pub open spec fn send(self, m: MessageView) -> SessionView {
        if self.state is Active {
            self.enqueue(m)
        } else {
            self
        }
    }

    /// Why a request is refused, if it is.
    pub open spec fn request_error(self, id: Seq<char>) -> Option<RequestError> {
        if !(self.state is Active) {
            Some(RequestError::SessionClosed)
        } else if self.correlator.issued.contains(id) {
            Some(RequestError::DuplicateId)
        } else {
            None
        }
    }

    /// A request is registered with the correlator and queued.
    pub open spec fn request(self, r: RequestView, now: u64, timeout: u64) -> SessionView {
        if self.request_error(r.header.id) is Some {
            self
        } else {
            SessionView {
                correlator: self.correlator.register(r.header.id, deadline_after(now, timeout)),
                ..self.enqueue(MessageView::Request(r))
            }
        }
    }

    /// What becomes of an inbound message.
    pub open spec fn route(self, registry: RegistryView, m: MessageView, reply: HeaderView) -> (
        SessionView,
        InboundView,
    ) {
        match m {
            MessageView::Request(r) => if registry.requests.contains(r.request) {
                (
                    SessionView { dispatch: Dispatch::Request(r.header.id), ..self },
                    InboundView::Request(r),
                )
            } else {
                (
                    self.enqueue(not_found(r.header.id, reply)),
                    InboundView::Dropped(Reason::UnknownMethod),
                )
            },
            MessageView::Response(r) => if self.correlator.is_pending(r.response) {
                (
                    SessionView {
                        correlator: self.correlator.without(Cut::Id(r.response)),
                        ..self
                    },
                    InboundView::Resolved(r),
                )
            } else {
                (self, InboundView::Dropped(Reason::Unmatched))
            },
            MessageView::Event(e) => if registry.events.contains(e.event) {
                (
                    SessionView { dispatch: Dispatch::Notification, ..self },
                    InboundView::Event(e),
                )
            } else {
                (self, InboundView::Dropped(Reason::UnknownEvent))
            },
            MessageView::Binary(bytes) => if registry.binary {
                (
                    SessionView { dispatch: Dispatch::Notification, ..self },
                    InboundView::Binary(bytes),
                )
            } else {
                (self, InboundView::Dropped(Reason::NoBinaryHandler))
            },
        }
    }

    /// What becomes of an inbound frame. While a handler runs, no frame is
    /// looked at.
    pub open spec fn receive(self, registry: RegistryView, frame: FrameView, reply: HeaderView) -> (
        SessionView,
        InboundView,
    ) {
        if !(self.state is Active) {
            (self, InboundView::Dropped(Reason::Inactive))
        } else if !(self.dispatch is Idle) {
            (self, InboundView::Deferred(frame))
        } else {
            match decode_spec(frame) {
                Err(e) => (self, InboundView::Dropped(Reason::Undecodable(e))),
                Ok(m) => self.route(registry, m, reply),
            }
        }
    }

    /// The handler that ran has returned. The response to a request is queued
    /// if the session is still active.
    pub open spec fn handler_returned(self, outcome: Outcome, reply: HeaderView) -> SessionView {
        let idle = SessionView { dispatch: Dispatch::Idle, ..self };
        match self.dispatch {
            Dispatch::Request(id) => idle.send(response_to(id, outcome, reply)),
            _ => idle,
        }
    }

    /// A session that terminates with nothing left to send is closed.
    pub open spec fn settle(self) -> SessionView {
        if self.state is Terminating && self.outbound.len() == 0 {
            SessionView { state: SessionState::Closed, ..self }
        } else {
            self
        }
    }

    /// The front of the queue leaves it.
    pub open spec fn next_outbound(self) -> SessionView {
        if (self.state is Active || self.state is Terminating) && self.outbound.len() > 0 {
            SessionView { outbound: self.outbound.drop_first(), ..self }.settle()
        } else {
            self
        }
    }

    /// The session stops accepting: every waiting request fails, and what is
    /// queued is still sent. This is what happens when the transport signals
    /// the end of the stream, and when a termination message has been
    /// processed.
    pub open spec fn wind_down(self) -> SessionView {
        if self.state is Closed {
            self
        } else {
            SessionView {
                state: SessionState::Terminating,
                correlator: self.correlator.without(Cut::All),
                ..self
            }.settle()
        }
    }

    /// The transport failed: the session is closed at once, and what was
    /// queued is lost.
    pub open spec fn abort(self) -> SessionView {
        SessionView {
            state: SessionState::Closed,
            correlator: self.correlator.without(Cut::All),
            outbound: Seq::empty(),
            ..self
        }
    }

    /// The requests that are overdue at `now` fail.
    pub open spec fn expire(self, now: u64) -> SessionView {
        SessionView { correlator: self.correlator.without(Cut::Due(now)), ..self }
    }
}

/// A request that names a method without a handler gets a response with the
/// not-found status, and nothing else happens: no handler is called, no
/// handler is marked as running, and the table of waiting requests stays as
/// it is.
pub proof fn lemma_unknown_method(
    s: SessionView,
    registry: RegistryView,
    frame: FrameView,
    reply: HeaderView,
    r: RequestView,
)
    requires
        s.state is Active,
        s.dispatch is Idle,
        decode_spec(frame) == Ok::<MessageView, DecodeError>(MessageView::Request(r)),
        !registry.requests.contains(r.request),
    ensures
        s.receive(registry, frame, reply).1 == InboundView::Dropped(Reason::UnknownMethod),
        s.receive(registry, frame, reply).0 == s.enqueue(not_found(r.header.id, reply)),
        s.receive(registry, frame, reply).0.dispatch is Idle,
        s.receive(registry, frame, reply).0.correlator == s.correlator,
        !success(STATUS_NOT_FOUND) && 400 <= STATUS_NOT_FOUND < 500,
{
}

/// Whether the driver is told to call a handler.
pub open spec fn calls_handler(i: InboundView) -> bool {
    i is Request || i is Event || i is Binary
}

/// Handlers run one at a time, in the order of arrival. When a frame leads to
/// a handler call, the frame that follows leads to none, and changes nothing,
/// until the return of that handler has been reported; only then is a frame
/// looked at again.
pub proof fn lemma_sequential_dispatch(
    s: SessionView,
    registry: RegistryView,
    first: FrameView,
    second: FrameView,
    h1: HeaderView,
    h2: HeaderView,
    outcome: Outcome,
)
    requires
        calls_handler(s.receive(registry, first, h1).1),
    ensures
        s.dispatch is Idle,
        !(s.receive(registry, first, h1).0.dispatch is Idle),
        s.receive(registry, first, h1).0.receive(registry, second, h2) == (
            s.receive(registry, first, h1).0,
            InboundView::Deferred(second),
        ),
        s.receive(registry, first, h1).0.handler_returned(outcome, h2).dispatch is Idle,
{
}

/// The session is well formed when it is made, and every operation keeps it
/// so.
pub proof fn lemma_wf_preserved(
    s: SessionView,
    registry: RegistryView,
    frame: FrameView,
    m: MessageView,
    r: RequestView,
    header: HeaderView,
    outcome: Outcome,
    now: u64,
    timeout: u64,
)
    requires
        s.wf(),
    ensures
        SessionView::fresh(s.id).wf(),
        s.transport_established().wf(),
        s.handshake(m).wf(),
        s.open().wf(),
        s.send(m).wf(),
        s.request(r, now, timeout).wf(),
        s.receive(registry, frame, header).0.wf(),
        s.handler_returned(outcome, header).wf(),
        s.next_outbound().wf(),
        s.wind_down().wf(),
        s.abort().wf(),
        s.expire(now).wf(),
{
    crate::correlator::lemma_without_wf(s.correlator, Cut::All);
    crate::correlator::lemma_without_wf(s.correlator, Cut::Due(now));
    crate::correlator::lemma_close_empties(s.correlator);
    if s.request_error(r.header.id) is None {
        crate::correlator::lemma_register_wf(
            s.correlator,
            r.header.id,
            deadline_after(now, timeout),
        );
    }
    if s.correlator.pending.len() == 0 {
        assert(crate::correlator::left(s.correlator.pending, Cut::Due(now)).len() == 0) by {
            s.correlator.pending.lemma_filter_len(
                |p: crate::correlator::Pending| !crate::correlator::takes(Cut::Due(now), p),
            );
        }
    }
    match decode_spec(frame) {
        Ok(MessageView::Response(resp)) => {
            crate::correlator::lemma_without_wf(s.correlator, Cut::Id(resp.response));
        },
        _ => {},
    }
}

/// Once the transport has signalled the end of the stream, the session never
/// accepts a message for sending again and no request waits: every request
/// that waited has failed, and every later request is refused.
pub proof fn lemma_teardown(
    s: SessionView,
    registry: RegistryView,
    frame: FrameView,
    m: MessageView,
    r: RequestView,
    header: HeaderView,
    outcome: Outcome,
    now: u64,
    timeout: u64,
)
    requires
        s.wf(),
    ensures
        s.wind_down().ended(),
        s.wind_down().correlator.pending.len() == 0,
        s.abort().ended(),
        s.abort().correlator.pending.len() == 0,
        s.ended() ==> {
            &&& s.send(m) == s
            &&& s.request(r, now, timeout) == s
            &&& s.request_error(r.header.id) == Some(RequestError::SessionClosed)
            &&& s.handshake(m) == s
            &&& s.transport_established() == s
            &&& s.receive(registry, frame, header) == (s, InboundView::Dropped(Reason::Inactive))
            &&& s.handler_returned(outcome, header).ended()
            &&& s.handler_returned(outcome, header).outbound == s.outbound
            &&& s.next_outbound().ended()
            &&& s.wind_down().ended()
            &&& s.abort().ended()
            &&& s.expire(now).ended()
            &&& s.open() == s
        },
{
    crate::correlator::lemma_close_empties(s.correlator);
}

/// The ids of the requests of a session never repeat: no operation forgets
/// an id that a request has used, a request under a used id is refused, and
/// so the ids of all requests that the session has sent differ from each
/// other.
pub proof fn lemma_request_ids_never_repeat(
    s: SessionView,
    registry: RegistryView,
    frame: FrameView,
    m: MessageView,
    r: RequestView,
    header: HeaderView,
    outcome: Outcome,
    now: u64,
    timeout: u64,
    id: Seq<char>,
)
    requires
        s.wf(),
        s.correlator.issued.contains(id),
    ensures
        s.request_error(id) is Some,
        s.correlator.issued.no_duplicates(),
        s.request_error(r.header.id) is None ==> s.request(r, now, timeout).correlator.issued
            == s.correlator.issued.push(r.header.id),
        s.request(r, now, timeout).correlator.issued.contains(id),
        s.transport_established().correlator.issued == s.correlator.issued,
        s.handshake(m).correlator.issued == s.correlator.issued,
        s.open().correlator.issued == s.correlator.issued,
        s.send(m).correlator.issued == s.correlator.issued,
        s.receive(registry, frame, header).0.correlator.issued == s.correlator.issued,
        s.handler_returned(outcome, header).correlator.issued == s.correlator.issued,
        s.next_outbound().correlator.issued == s.correlator.issued,
        s.wind_down().correlator.issued == s.correlator.issued,
        s.abort().correlator.issued == s.correlator.issued,
        s.expire(now).correlator.issued == s.correlator.issued,
{
    if s.request_error(r.header.id) is None {
        let k = choose|k: int| 0 <= k < s.correlator.issued.len() && s.correlator.issued[k] == id;
        assert(s.correlator.issued.push(r.header.id)[k] == id);
    }
}

/// Only the transport ends a session. A frame that is no message, an event
/// or a response that nobody waits for, and a handler that fails each leave
/// the session in the state in which it was; the first three change nothing
/// at all.
pub proof fn lemma_failures_are_contained(
    s: SessionView,
    registry: RegistryView,
    frame: FrameView,
    header: HeaderView,
    outcome: Outcome,
    now: u64,
)
    ensures
        s.receive(registry, frame, header).0.state == s.state,
        s.handler_returned(outcome, header).state == s.state,
        s.expire(now).state == s.state,
        s.receive(registry, frame, header).1 matches InboundView::Dropped(reason) && !(reason
            == Reason::UnknownMethod) ==> s.receive(registry, frame, header).0 == s,
{
}

/// The queue is first in, first out: what is accepted for sending goes to the
/// back, and what is sent comes from the front.
pub proof fn lemma_fifo(s: SessionView, a: MessageView, b: MessageView)
    requires
        s.state is Active,
        s.outbound.len() == 0,
    ensures
        s.send(a).send(b).outbound == seq![a, b],
        s.send(a).send(b).next_outbound().outbound == seq![b],
        s.send(a).send(b).next_outbound().next_outbound().outbound == Seq::<MessageView>::empty(),
{
    let q = s.send(a).send(b);
    assert(q.outbound =~= seq![a, b]);
    assert(q.next_outbound().outbound =~= seq![b]);
    assert(q.next_outbound().next_outbound().outbound =~= Seq::<MessageView>::empty());
}

/// A response that arrives after its request timed out is dropped and changes
/// nothing.
pub proof fn lemma_late_response(
    s: SessionView,
    registry: RegistryView,
    frame: FrameView,
    reply: HeaderView,
    resp: ResponseView,
    now: u64,
)
    requires
        s.wf(),
        s.state is Active,
        s.dispatch is Idle,
        decode_spec(frame) == Ok::<MessageView, DecodeError>(MessageView::Response(resp)),
        ids(crate::correlator::taken(s.correlator.pending, Cut::Due(now))).contains(resp.response),
    ensures
        s.expire(now).receive(registry, frame, reply) == (
            s.expire(now),
            InboundView::Dropped(Reason::Unmatched),
        ),
{
    let id = resp.response;
    let gone = crate::correlator::taken(s.correlator.pending, Cut::Due(now));
    let stay = crate::correlator::left(s.correlator.pending, Cut::Due(now));
    if ids(stay).contains(id) {
        let i = choose|i: int| 0 <= i < ids(gone).len() && ids(gone)[i] == id;
        let j = choose|j: int| 0 <= j < ids(stay).len() && ids(stay)[j] == id;
        let take = |p: crate::correlator::Pending| crate::correlator::takes(Cut::Due(now), p);
        let keep = |p: crate::correlator::Pending| !crate::correlator::takes(Cut::Due(now), p);
        s.correlator.pending.lemma_filter_pred(take, i);
        s.correlator.pending.lemma_filter_pred(keep, j);
        s.correlator.pending.lemma_filter_contains_rev(take, gone[i]);
        s.correlator.pending.lemma_filter_contains_rev(keep, stay[j]);
        let a = choose|a: int| 0 <= a < s.correlator.pending.len() && s.correlator.pending[a]
            == gone[i];
        let b = choose|b: int| 0 <= b < s.correlator.pending.len() && s.correlator.pending[b]
            == stay[j];
        assert(ids(s.correlator.pending)[a] == id);
        assert(ids(s.correlator.pending)[b] == id);
        assert(a == b);
        assert(false);
    }
}

/// What a handler is busy with.
#[derive(Debug)]
enum Busy {
    Idle,
    Request(String),
    Notification,
}

impl View for Busy {
    type V = Dispatch;

    closed spec fn view(&self) -> Dispatch {
        match self {
            Busy::Idle => Dispatch::Idle,
            Busy::Request(id) => Dispatch::Request(id@),
            Busy::Notification => Dispatch::Notification,
        }
    }
}

/// What the driver is to do with an inbound frame.
#[derive(Debug)]
pub enum Inbound {
    /// Call the handler of the method of this request, then report its
    /// return.
    Request(RequestMessage),
    /// Call the handler of the name of this event, then report its return.
    Event(EventMessage),
    /// Call the handler of binary frames, then report its return.
    Binary(Vec<u8>),
    /// Hand the response to the caller that waits for it.
    Resolved(ResponseMessage),
    /// A handler still runs: offer the frame again after its return.
    Deferred(Frame),
    /// Nothing to do.
    Dropped(Reason),
}

impl View for Inbound {
    type V = InboundView;

    open spec fn view(&self) -> InboundView {
        match self {
            Inbound::Request(r) => InboundView::Request(r@),
            Inbound::Event(e) => InboundView::Event(e@),
            Inbound::Binary(bytes) => InboundView::Binary(bytes@),
            Inbound::Resolved(r) => InboundView::Resolved(r@),
            Inbound::Deferred(f) => InboundView::Deferred(f@),
            Inbound::Dropped(reason) => InboundView::Dropped(*reason),
        }
    }
}

/// The messages of a queue, each by its view.
pub open spec fn queue_view(q: Seq<Message>) -> Seq<MessageView> {
    q.map_values(|m: Message| m@)
}

/// The error of an operation that an active session alone accepts.
pub open spec fn active_or(s: SessionView, e: SessionError) -> Result<(), SessionError> {
    if s.state is Active {
        Ok(())
    } else {
        Err(e)
    }
}

/// One session: its place in its life, the queue of what it has to send, the
/// requests that wait for their response, and the handler that runs.
pub struct Session {
    id: String,
    state: SessionState,
    outbound: Vec<Message>,
    correlator: Correlator,
    busy: Busy,
    opened: bool,
}

impl View for Session {
    type V = SessionView;

    closed spec fn view(&self) -> SessionView {
        SessionView {
            id: self.id@,
            state: self.state,
            outbound: queue_view(self.outbound@),
            correlator: self.correlator@,
            dispatch: self.busy@,
            opened: self.opened,
        }
    }
}

impl Session {
    #[verifier::type_invariant]
    spec fn inv(self) -> bool {
        self@.wf()
    }

    /// A session of the given id, not yet connected.
    pub fn with_id(id: String) -> (s: Session)
        ensures
            s@ == SessionView::fresh(id@),
    {
        let s = Session {
            id,
            state: SessionState::Connecting,
            outbound: Vec::new(),
            correlator: Correlator::new(),
            busy: Busy::Idle,
            opened: false,
        };
        assert(queue_view(s.outbound@) =~= Seq::empty());
        s
    }

    /// A session with a random id, not yet connected.
    pub fn new() -> (s: Session)
        ensures
            s@ == SessionView::fresh(s@.id),
            id_form(s@.id),
    {
        let header = Header::mint();
        Session::with_id(header.id)
    }

    /// Takes the session out, leaving a blank one in its place.
    fn take(&mut self) -> (s: Session)
        ensures
            s@ == old(self)@,
            s@.wf(),
    {
        proof {
            use_type_invariant(&*self);
        }
        let mut blank = Session::with_id(String::new());
        std::mem::swap(self, &mut blank);
        blank
    }

    pub fn id(&self) -> (r: String)
        ensures
            r@ == self@.id,
    {
        self.id.clone()
    }

    pub fn state(&self) -> (r: SessionState)
        ensures
            r == self@.state,
            self@.wf(),
    {
        proof {
            use_type_invariant(self);
        }
        self.state
    }

    /// Whether nothing waits to be sent.
    pub fn is_drained(&self) -> (r: bool)
        ensures
            r == (self@.outbound.len() == 0),
    {
        self.outbound.len() == 0
    }

    /// The number of requests that wait for their response.
    pub fn pending(&self) -> (n: usize)
        ensures
            n == self@.correlator.pending.len(),
    {
        self.correlator.len()
    }

    /// Whether a handler runs.
    pub fn is_busy(&self) -> (r: bool)
        ensures
            r == !(self@.dispatch is Idle),
    {
        match self.busy {
            Busy::Idle => false,
            _ => true,
        }
    }

    /// The transport stands: a connecting session is ready for its handshake.
    pub fn transport_established(&mut self)
        ensures
            final(self)@ == old(self)@.transport_established(),
            final(self)@.wf(),
    {
        proof {
            use_type_invariant(&*self);
        }
        match self.state {
            SessionState::Connecting => {
                self.state = SessionState::Handshaking;
            },
            _ => {},
        }
    }

    /// Queues the announcement of this side and makes the session active,
    /// without waiting for the peer to acknowledge.
    pub fn handshake(&mut self, announcement: Message) -> (r: Result<(), SessionError>)
        ensures
            final(self)@ == old(self)@.handshake(announcement@),
            final(self)@.wf(),
            r is Ok == (old(self)@.state is Handshaking),
            r is Err ==> r == Err::<(), SessionError>(SessionError::NotHandshaking),
    {
        proof {
            use_type_invariant(&*self);
        }
        match self.state {
            SessionState::Handshaking => {
                let ghost before = self@;
                let Session { id, state, mut outbound, correlator, busy, opened } = self.take();
                outbound.push(announcement);
                assert(queue_view(outbound@) =~= before.outbound.push(announcement@));
                *self = Session {
                    id,
                    state: SessionState::Active,
                    outbound,
                    correlator,
                    busy,
                    opened,
                };
                Ok(())
            },
            _ => Err(SessionError::NotHandshaking),
        }
    }

    /// Whether the open handler is to be called now. This is so once in the
    /// life of a session, when it is active.
    pub fn open(&mut self) -> (due: bool)
        ensures
            due == old(self)@.open_due(),
            final(self)@ == old(self)@.open(),
            final(self)@.wf(),
    {
        proof {
            use_type_invariant(&*self);
        }
        match self.state {
            SessionState::Active => {
                if self.opened {
                    false
                } else {
                    self.opened = true;
                    true
                }
            },
            _ => false,
        }
    }

    /// Accepts a message for sending, at the back of the queue. Only an
    /// active session accepts.
    pub fn send(&mut self, message: Message) -> (r: Result<(), SessionError>)
        ensures
            final(self)@ == old(self)@.send(message@),
            final(self)@.wf(),
            r == active_or(old(self)@, SessionError::NotActive),
    {
        proof {
            use_type_invariant(&*self);
        }
        match self.state {
            SessionState::Active => {
                let ghost before = self@;
                let Session { id, state, mut outbound, correlator, busy, opened } = self.take();
                outbound.push(message);
                assert(queue_view(outbound@) =~= before.outbound.push(message@));
                *self = Session { id, state, outbound, correlator, busy, opened };
                Ok(())
            },
            _ => Err(SessionError::NotActive),
        }
    }

    /// Accepts messages for sending, in their order: all of them, or none
    /// where the session is not active.
    pub fn send_all(&mut self, messages: Vec<Message>) -> (r: Result<(), SessionError>)
        ensures
            final(self)@ == (if old(self)@.state is Active {
                SessionView { outbound: old(self)@.outbound + queue_view(messages@), ..old(self)@ }
            } else {
                old(self)@
            }),
            final(self)@.wf(),
            r == active_or(old(self)@, SessionError::NotActive),
    {
        proof {
            use_type_invariant(&*self);
        }
        match self.state {
            SessionState::Active => {},
            _ => {
                return Err(SessionError::NotActive);
            },
        }
        let ghost before = self@;
        let Session { id, state, mut outbound, correlator, busy, opened } = self.take();
        let mut messages = messages;
        let ghost added = queue_view(messages@);
        outbound.append(&mut messages);
        assert(queue_view(outbound@) =~= before.outbound + added);
        *self = Session { id, state, outbound, correlator, busy, opened };
        Ok(())
    }

    /// Accepts a binary frame for sending.
    pub fn send_binary(&mut self, data: Vec<u8>) -> (r: Result<(), SessionError>)
        ensures
            final(self)@ == old(self)@.send(MessageView::Binary(data@)),
            final(self)@.wf(),
            r == active_or(old(self)@, SessionError::NotActive),
    {
        self.send(Message::Binary(data))
    }

    /// Sends a request under the given header: registers it with the
    /// correlator and queues it. The caller waits for `Inbound::Resolved`
    /// with this id, for its timeout from `expire`, or for the end of the
    /// session.
    pub fn request_with(
        &mut self,
        header: Header,
        method: String,
        data: Option<Value>,
        now: u64,
        timeout: u64,
    ) -> (r: Result<(), RequestError>)
        ensures
            final(self)@ == old(self)@.request(
                RequestView { header: header@, request: method@, data },
                now,
                timeout,
            ),
            final(self)@.wf(),
            match r {
                Ok(_) => old(self)@.request_error(header@.id) is None,
                Err(e) => old(self)@.request_error(header@.id) == Some(e),
            },
    {
        proof {
            use_type_invariant(&*self);
        }
        match self.state {
            SessionState::Active => {},
            _ => {
                return Err(RequestError::SessionClosed);
            },
        }
        let ghost before = self@;
        let Session { id, state, mut outbound, mut correlator, busy, opened } = self.take();
        let r = match correlator.register(header.id.clone(), now, timeout) {
            Err(_) => Err(RequestError::DuplicateId),
            Ok(_) => {
                let message = Message::Request(RequestMessage { header, request: method, data });
                outbound.push(message);
                assert(queue_view(outbound@) =~= before.outbound.push(message@));
                Ok(())
            },
        };
        *self = Session { id, state, outbound, correlator, busy, opened };
        r
    }

    /// Sends a request under a freshly minted header and returns its id.
    /// Whatever header was minted, the session has done with it what
    /// `request_with` does.
    pub fn request(&mut self, method: String, data: Option<Value>, now: u64, timeout: u64) -> (r:
        Result<String, RequestError>)
        ensures
            final(self)@.wf(),
            exists|header: HeaderView|
                #![trigger old(self)@.request_error(header.id)]
                {
                    &&& minted(header)
                    &&& final(self)@ == old(self)@.request(
                        RequestView { header, request: method@, data },
                        now,
                        timeout,
                    )
                    &&& match r {
                        Ok(id) => id@ == header.id && old(self)@.request_error(header.id) is None,
                        Err(e) => old(self)@.request_error(header.id) == Some(e),
                    }
                },
    {
        let header = Header::mint();
        let id = header.id.clone();
        let ghost h = header@;
        match self.request_with(header, method, data, now, timeout) {
            Ok(_) => {
                assert(old(self)@.request_error(h.id) is None);
                Ok(id)
            },
            Err(e) => {
                assert(old(self)@.request_error(h.id) == Some(e));
                Err(e)
            },
        }
    }

    /// Routes a decoded message.
    fn route<H>(&mut self, registry: &Registry<H>, message: Message, reply: Header) -> (r: Inbound)
        requires
            old(self)@.state is Active,
        ensures
            (final(self)@, r@) == old(self)@.route(registry@, message@, reply@),
            final(self)@.wf(),
    {
        proof {
            use_type_invariant(&*self);
        }
        let ghost before = self@;
        match message {
            Message::Request(m) => {
                if registry.requests.contains(m.request.as_str()) {
                    self.busy = Busy::Request(m.header.id.clone());
                    Inbound::Request(m)
                } else {
                    let answer = Message::Response(
                        ResponseMessage {
                            header: reply,
                            response: m.header.id,
                            status: STATUS_NOT_FOUND,
                            data: None,
                        },
                    );
                    let _ = self.send(answer);
                    Inbound::Dropped(Reason::UnknownMethod)
                }
            },
            Message::Response(m) => {
                let Session { id, state, outbound, mut correlator, busy, opened } = self.take();
                let found = correlator.resolve(m.response.as_str());
                *self = Session { id, state, outbound, correlator, busy, opened };
                if found {
                    Inbound::Resolved(m)
                } else {
                    Inbound::Dropped(Reason::Unmatched)
                }
            },
            Message::Event(m) => {
                if registry.events.contains(m.event.as_str()) {
                    self.busy = Busy::Notification;
                    Inbound::Event(m)
                } else {
                    Inbound::Dropped(Reason::UnknownEvent)
                }
            },
            Message::Binary(bytes) => {
                if registry.binary.is_some() {
                    self.busy = Busy::Notification;
                    Inbound::Binary(bytes)
                } else {
                    Inbound::Dropped(Reason::NoBinaryHandler)
                }
            },
        }
    }

    /// Takes one inbound frame and says what the driver is to do with it.
    /// `reply` is the header of the response that the engine itself sends
    /// where a request names a method without a handler.
    pub fn receive<H>(&mut self, registry: &Registry<H>, frame: Frame, reply: Header) -> (r:
        Inbound)
        ensures
            (final(self)@, r@) == old(self)@.receive(registry@, frame@, reply@),
            final(self)@.wf(),
    {
        proof {
            use_type_invariant(&*self);
        }
        match self.state {
            SessionState::Active => {},
            _ => {
                return Inbound::Dropped(Reason::Inactive);
            },
        }
        if self.is_busy() {
            return Inbound::Deferred(frame);
        }
        let ghost f = frame@;
        match decode(frame) {
            Err(e) => Inbound::Dropped(Reason::Undecodable(e)),
            Ok(message) => self.route(registry, message, reply),
        }
    }

    /// Takes one inbound frame, with a freshly minted header for the response
    /// that the engine may have to send itself.
    pub fn on_frame<H>(&mut self, registry: &Registry<H>, frame: Frame) -> (r: Inbound)
        ensures
            final(self)@.wf(),
            exists|reply: HeaderView|
                #![trigger old(self)@.receive(registry@, frame@, reply)]
                minted(reply) && (final(self)@, r@) == old(self)@.receive(
                    registry@,
                    frame@,
                    reply,
                ),
    {
        let reply = Header::mint();
        let ghost h = reply@;
        let r = self.receive(registry, frame, reply);
        assert(minted(h) && (self@, r@) == old(self)@.receive(registry@, frame@, h));
        r
    }

    /// Reports the return of the handler that ran. For a request, its
    /// response is queued under the header `reply`.
    pub fn handler_returned(&mut self, outcome: Outcome, reply: Header)
        ensures
            final(self)@ == old(self)@.handler_returned(outcome, reply@),
            final(self)@.wf(),
    {
        proof {
            use_type_invariant(&*self);
        }
        let ghost before = self@;
        let mut busy = Busy::Idle;
        std::mem::swap(&mut busy, &mut self.busy);
        match busy {
            Busy::Request(id) => {
                let (status, data) = match outcome {
                    Outcome::Done(data) => (STATUS_OK, data),
                    Outcome::Failed { status, data } => if 200 <= status && status < 300 {
                        (STATUS_FAILED, data)
                    } else {
                        (status, data)
                    },
                };
                let answer = Message::Response(
                    ResponseMessage { header: reply, response: id, status, data },
                );
                assert(answer@ == response_to(id@, outcome, reply@));
                let _ = self.send(answer);
            },
            _ => {},
        }
    }

    /// Reports the return of the handler that ran, with a freshly minted
    /// header for the response.
    pub fn reply(&mut self, outcome: Outcome)
        ensures
            final(self)@.wf(),
            exists|header: HeaderView|
                #![trigger old(self)@.handler_returned(outcome, header)]
                minted(header) && final(self)@ == old(self)@.handler_returned(outcome, header),
    {
        let header = Header::mint();
        let ghost h = header@;
        self.handler_returned(outcome, header);
        assert(minted(h) && self@ == old(self)@.handler_returned(outcome, h));
    }

    /// Takes the next message to send from the front of the queue, as a
    /// frame. A terminating session that has sent its last message is closed.
    pub fn next_outbound(&mut self) -> (r: Option<Frame>)
        ensures
            final(self)@ == old(self)@.next_outbound(),
            final(self)@.wf(),
            r is Some == ((old(self)@.state is Active || old(self)@.state is Terminating) && old(self)@.outbound.len() > 0),
            r matches Some(f) ==> encodes(old(self)@.outbound[0], f@),
    {
        proof {
            use_type_invariant(&*self);
        }
        let sending = match self.state {
            SessionState::Active => true,
            SessionState::Terminating => true,
            _ => false,
        };
        if !sending || self.outbound.len() == 0 {
            return None;
        }
        let ghost before = self@;
        let Session { id, state, mut outbound, correlator, busy, opened } = self.take();
        let message = outbound.remove(0);
        let state = match state {
            SessionState::Terminating => if outbound.len() == 0 {
                SessionState::Closed
            } else {
                SessionState::Terminating
            },
            other => other,
        };
        proof {
            assert(queue_view(outbound@) =~= before.outbound.drop_first());
            assert(message@ == before.outbound[0]);
        }
        *self = Session { id, state, outbound, correlator, busy, opened };
        Some(encode(&message))
    }

    /// The session stops accepting. Called when the transport signals the end
    /// of the stream, and when a termination message has been processed.
    /// Returns the ids of the requests that waited: each fails with
    /// `RequestError::SessionClosed`. What is queued is still sent.
    pub fn wind_down(&mut self) -> (failed: Vec<String>)
        ensures
            final(self)@ == old(self)@.wind_down(),
            final(self)@.wf(),
            texts(failed@) == ids(old(self)@.correlator.pending),
            failed@.len() == old(self)@.correlator.pending.len(),
    {
        proof {
            use_type_invariant(&*self);
        }
        let ghost before = self@;
        match self.state {
            SessionState::Closed => {
                let failed: Vec<String> = Vec::new();
                assert(before.correlator.pending.len() == 0);
                assert(texts(failed@) =~= ids(before.correlator.pending));
                return failed;
            },
            _ => {},
        }
        let Session { id, state, outbound, mut correlator, busy, opened } = self.take();
        let failed = correlator.close();
        proof {
            crate::correlator::lemma_close_empties(before.correlator);
            assert(correlator@ == before.correlator.without(Cut::All));
            assert(queue_view(outbound@) =~= before.outbound);
        }
        let state = if outbound.len() == 0 {
            SessionState::Closed
        } else {
            SessionState::Terminating
        };
        *self = Session { id, state, outbound, correlator, busy, opened };
        failed
    }

    /// The transport signals the end of the stream: see `wind_down`.
    pub fn end_of_stream(&mut self) -> (failed: Vec<String>)
        ensures
            final(self)@ == old(self)@.wind_down(),
            final(self)@.wf(),
            texts(failed@) == ids(old(self)@.correlator.pending),
            failed@.len() == old(self)@.correlator.pending.len(),
    {
        self.wind_down()
    }

    /// The transport failed. The session is closed at once and what was
    /// queued is lost. Returns the ids of the requests that waited: each
    /// fails with `RequestError::SessionClosed`.
    pub fn transport_failed(&mut self) -> (failed: Vec<String>)
        ensures
            final(self)@ == old(self)@.abort(),
            final(self)@.wf(),
            texts(failed@) == ids(old(self)@.correlator.pending),
            failed@.len() == old(self)@.correlator.pending.len(),
    {
        let ghost before = self@;
        let Session { id, state, outbound, mut correlator, busy, opened } = self.take();
        let failed = correlator.close();
        let outbound: Vec<Message> = Vec::new();
        proof {
            crate::correlator::lemma_close_empties(before.correlator);
            assert(correlator@ == before.correlator.without(Cut::All));
            assert(queue_view(outbound@) =~= Seq::empty());
        }
        *self = Session { id, state: SessionState::Closed, outbound, correlator, busy, opened };
        failed
    }

    /// Time has advanced to `now`. Returns the ids of the requests whose
    /// deadline has come: each fails with `RequestError::Timeout`.
    pub fn expire(&mut self, now: u64) -> (timed_out: Vec<String>)
        ensures
            final(self)@ == old(self)@.expire(now),
            final(self)@.wf(),
            texts(timed_out@) == ids(crate::correlator::taken(
                old(self)@.correlator.pending,
                Cut::Due(now),
            )),
    {
        proof {
            use_type_invariant(&*self);
        }
        let ghost before = self@;
        proof {
            if before.correlator.pending.len() == 0 {
                before.correlator.pending.lemma_filter_len(
                    |p: crate::correlator::Pending| !crate::correlator::takes(Cut::Due(now), p),
                );
            }
        }
        let Session { id, state, outbound, mut correlator, busy, opened } = self.take();
        let timed_out = correlator.expire(now);
        *self = Session { id, state, outbound, correlator, busy, opened };
        timed_out
    }
}

} // verus!
