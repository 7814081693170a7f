//! Names and references for the documentation of the protocol.
//!
//! The documentation describes each operation of the protocol: its name, the
//! channel that it uses, and the messages that it exchanges. This module
//! derives those names from the names that the operations have on the wire.
use crate::event::EventExt;
use crate::header::Header;
use crate::header::HeaderView;
use crate::op::application::ApplicationMoveRequest;
use crate::op::application::ApplicationMoveResponse;
use crate::op::audio::AudioCodec;
use crate::op::audio::AudioStreamStartRequest;
use crate::op::audio::AudioStreamStartResponse;
use crate::op::audio::AudioStreamStopRequest;
use crate::op::audio::AudioStreamStopResponse;
use crate::op::ping::PingRequest;
use crate::op::ping::PingResponse;
use crate::op::playback::PlaybackContent;
use crate::op::playback::PlaybackStartRequest;
use crate::op::playback::PlaybackStartResponse;
use crate::op::recording::RecordingFinishedEvent;
use crate::op::recording::RecordingStartRequest;
use crate::op::recording::RecordingStartResponse;
use crate::op::recording::RecordingStopRequest;
use crate::op::recording::RecordingStopResponse;
use crate::op::session::SessionCloseReason;
use crate::op::session::SessionTerminatedEvent;
use crate::op::session::SessionUpdatedEvent;
use crate::request::RequestExt;
use convert_case::Case;
use convert_case::Casing;
use indexmap::IndexMap;
use vstd::prelude::*;
use vstd::string::StringExecFns;

verus! {

/// The id that examples use for resources.
pub const EXAMPLE_RESOURCE_ID: &'static str = "VPk_6IQStguK0vJrdJ4mT";

/// The id that examples use for messages.
pub const EXAMPLE_MESSAGE_ID: &'static str = "VPk_6IQStguK0vJrdJ4mT";

/// The timestamp that examples use.
pub const EXAMPLE_TIMESTAMP: i64 = 1431648000000;

/// The channel that every operation uses.
pub open spec fn channel_path() -> Seq<char> {
    "#/channels/stream"@
}

/// The prefix of a reference to a message of the channel.
pub open spec fn message_prefix() -> Seq<char> {
    "#/channels/stream/messages/"@
}

/// The prefix of a reference to a schema.
pub open spec fn schema_prefix() -> Seq<char> {
    "#/components/schemas/"@
}

/// A type with a value that serves as its example in the documentation.
pub trait Example: Sized {
    fn example() -> Self;
}

/// A type with a list of examples.
pub trait Examples: Sized {
    fn examples() -> Vec<Self>;
}

impl<T: Example> Examples for T {
    /// The one example of the type.
    fn examples() -> (list: Vec<Self>)
        ensures
            list@.len() == 1,
    {
        let mut list = Vec::new();
        list.push(Self::example());
        list
    }
}

/// General facts about the documented interface.
#[derive(Debug)]
pub struct Info {
    pub title: String,
    pub version: String,
    pub description: Option<String>,
}

/// A reference to another part of the document.
#[derive(Debug)]
pub struct Ref {
    pub ref_path: String,
}

/// Which way an operation goes.
#[derive(Debug, Clone, Copy, PartialEq, Eq, Structural)]
pub enum Action {
    Send,
    Receive,
}

/// The answer to an operation.
#[derive(Debug)]
pub struct Reply {
    pub channel: Ref,
    pub messages: Vec<Ref>,
}

/// One operation of the protocol.
#[derive(Debug)]
pub struct Operation {
    pub channel: Ref,
    pub summary: Option<String>,
    pub action: Action,
    pub messages: Vec<Ref>,
    pub reply: Option<Reply>,
}

/// A message of the channel, by reference to the schema of its payload.
#[derive(Debug)]
pub struct Message {
    pub payload: Ref,
}

/// `indexmap::IndexMap`: a map that keeps the order of insertion.
#[verifier::external_type_specification]
#[verifier::external_body]
#[verifier::reject_recursive_types(K)]
#[verifier::reject_recursive_types(V)]
#[verifier::reject_recursive_types(S)]
pub struct ExIndexMap<K, V, S>(indexmap::IndexMap<K, V, S>);

/// The messages of a table, in the order in which they were put in: of each
/// its name and the path of the reference to the schema of its payload.
pub uninterp spec fn listed(table: IndexMap<String, Message>) -> Seq<(Seq<char>, Seq<char>)>;

/// Whether a table has a message of the name.
pub open spec fn lists(table: IndexMap<String, Message>, name: Seq<char>) -> bool {
    exists|i: int| 0 <= i < listed(table).len() && (#[trigger] listed(table)[i]).0 == name
}

/// `IndexMap::new`: a table without messages.
#[verifier::external_body]
fn table_new() -> (r: IndexMap<String, Message>)
    ensures
        listed(r).len() == 0,
{
    IndexMap::new()
}

/// `IndexMap::insert` of a name that the table does not have: the message
/// comes last.
#[verifier::external_body]
fn table_insert(table: &mut IndexMap<String, Message>, name: String, message: Message)
    requires
        !lists(*old(table), name@),
    ensures
        listed(*final(table)) == listed(*old(table)).push((name@, message.payload.ref_path@)),
{
    table.insert(name, message);
}

/// The Pascal case of a name, as `convert_case` computes it.
pub uninterp spec fn pascal(name: Seq<char>) -> Seq<char>;

/// `Casing::to_case` of `convert_case`, with `Case::Pascal`: the words of
/// the name, each with a capital first letter, without anything between
/// them. The result is a function of the name alone; this is the function
/// `pascal`.
#[verifier::external_body]
fn to_pascal(name: &str) -> (r: String)
    ensures
        r@ == pascal(name@),
{
    name.to_case(Case::Pascal)
}

/// The name of an event in the documentation.
pub open spec fn event_title(name: Seq<char>) -> Seq<char> {
    pascal(name) + "Event"@
}

/// The name of the payload schema of an event.
pub open spec fn event_payload_title(name: Seq<char>) -> Seq<char> {
    pascal(event_title(name)) + "Payload"@
}

/// The name of an operation that is a request.
pub open spec fn operation_title(method: Seq<char>) -> Seq<char> {
    pascal(method)
}

/// A reference to `path`.
fn reference(path: String) -> (r: Ref)
    ensures
        r.ref_path@ == path@,
{
    Ref { ref_path: path }
}

/// A reference to the message `name` of the channel.
fn message_reference(name: &str, suffix: &str) -> (r: Ref)
    ensures
        r.ref_path@ == message_prefix() + name@ + suffix@,
{
    let path = "#/channels/stream/messages/".to_owned().concat(name).concat(suffix);
    Ref { ref_path: path }
}

/// The name of an event in the documentation, from the Pascal case of its
/// name on the wire.
pub fn event_title_of(pascal_name: String) -> (r: String)
    ensures
        r@ == pascal_name@ + "Event"@,
{
    pascal_name.concat("Event")
}

/// The name of the schema of the payload of an event, from the Pascal case
/// of the event's name in the documentation.
pub fn payload_title_of(pascal_title: String) -> (r: String)
    ensures
        r@ == pascal_title@ + "Payload"@,
{
    pascal_title.concat("Payload")
}

/// The table of the one message of an event: its name, and the reference to
/// the schema of its payload, from the two names of the event.
pub fn event_message_of(title: String, payload_title: &str) -> (r: IndexMap<String, Message>)
    ensures
        listed(r) == seq![(title@ + "Message"@, schema_prefix() + payload_title@)],
{
    let name = title.concat("Message");
    let path = "#/components/schemas/".to_owned().concat(payload_title);
    let mut table = table_new();
    table_insert(&mut table, name, Message { payload: Ref { ref_path: path } });
    assert(listed(table) =~= seq![(title@ + "Message"@, schema_prefix() + payload_title@)]);
    table
}

/// The operation of an event of the given name in the documentation: this
/// side receives one message on the channel, and answers nothing.
pub fn event_operation_of(title: &str) -> (op: Operation)
    ensures
        op.action == Action::Receive,
        op.summary is None,
        op.reply is None,
        op.channel.ref_path@ == channel_path(),
        op.messages@.len() == 1,
        op.messages@[0].ref_path@ == message_prefix() + title@ + "Message"@,
{
    let mut messages = Vec::new();
    messages.push(message_reference(title, "Message"));
    Operation {
        channel: reference("#/channels/stream".to_owned()),
        summary: None,
        action: Action::Receive,
        messages,
        reply: None,
    }
}

/// The names under which an event appears in the documentation.
pub trait EventSpecExt: EventExt + Example {
    /// The name of the event: its name on the wire in Pascal case, followed
    /// by `Event`.
    fn spec_event_name() -> (r: String)
        ensures
            r@ == event_title(Self::name()),
    {
        event_title_of(to_pascal(Self::event_name()))
    }

    /// The name of the schema of the payload of the event.
    fn spec_event_payload_name() -> (r: String)
        ensures
            r@ == event_payload_title(Self::name()),
    {
        let title = Self::spec_event_name();
        payload_title_of(to_pascal(title.as_str()))
    }

    /// The name of the operation, which is that of the event.
    fn spec_operation_name() -> (r: String)
        ensures
            r@ == event_title(Self::name()),
    {
        Self::spec_event_name()
    }

    /// The message of the event: its name, and the reference to the schema
    /// of its payload.
    fn messages() -> (r: IndexMap<String, Message>)
        ensures
            listed(r) == seq![
                (
                    event_title(Self::name()) + "Message"@,
                    schema_prefix() + event_payload_title(Self::name()),
                ),
            ],
    {
        let payload = Self::spec_event_payload_name();
        event_message_of(Self::spec_event_name(), payload.as_str())
    }

    /// The operation of the event: this side receives one message on the
    /// channel, and answers nothing.
    fn operation() -> (op: Operation)
        ensures
            op.action == Action::Receive,
            op.summary is None,
            op.reply is None,
            op.channel.ref_path@ == channel_path(),
            op.messages@.len() == 1,
            op.messages@[0].ref_path@ == message_prefix() + event_title(Self::name()) + "Message"@,
    {
        let name = Self::spec_operation_name();
        event_operation_of(name.as_str())
    }
}

impl<T: EventExt + Example> EventSpecExt for T {

}

/// The name of the message of a request or of its response, from the id of
/// the operation: `part` is `Request` or `Response`.
pub open spec fn message_name(id: Seq<char>, part: Seq<char>) -> Seq<char> {
    id + part + "Message"@
}

/// The path of the reference to the schema of the payload of a request or of
/// its response.
pub open spec fn payload_path(id: Seq<char>, part: Seq<char>) -> Seq<char> {
    schema_prefix() + id + part + "Payload"@
}

/// The message of a request and the message of its response have different
/// names.
pub proof fn lemma_message_names_differ(id: Seq<char>)
    ensures
        message_name(id, "Request"@) != message_name(id, "Response"@),
{
    reveal_strlit("Request");
    reveal_strlit("Response");
    let a = message_name(id, "Request"@);
    let b = message_name(id, "Response"@);
    let at = id.len() as int + 2;
    assert(a[at] == (id + "Request"@)[at]);
    assert((id + "Request"@)[at] == "Request"@[2]);
    assert(b[at] == (id + "Response"@)[at]);
    assert((id + "Response"@)[at] == "Response"@[2]);
}

/// The table of the messages of a request, the request first and its
/// response second: the name of each, and the reference to the schema of its
/// payload, from the id of the operation.
pub fn request_messages_of(id: String) -> (r: IndexMap<String, Message>)
    ensures
        listed(r) == seq![
            (message_name(id@, "Request"@), payload_path(id@, "Request"@)),
            (message_name(id@, "Response"@), payload_path(id@, "Response"@)),
        ],
{
    let request = id.clone().concat("Request");
    let response = id.concat("Response");
    let first = Message {
        payload: Ref {
            ref_path: "#/components/schemas/".to_owned().concat(request.as_str()).concat("Payload"),
        },
    };
    let second = Message {
        payload: Ref {
            ref_path: "#/components/schemas/".to_owned().concat(response.as_str()).concat(
                "Payload",
            ),
        },
    };
    proof {
        lemma_message_names_differ(id@);
        assert(schema_prefix() + (id@ + "Request"@) + "Payload"@ =~= payload_path(
            id@,
            "Request"@,
        ));
        assert(schema_prefix() + (id@ + "Response"@) + "Payload"@ =~= payload_path(
            id@,
            "Response"@,
        ));
    }
    let mut table = table_new();
    table_insert(&mut table, request.concat("Message"), first);
    table_insert(&mut table, response.concat("Message"), second);
    assert(listed(table) =~= seq![
        (message_name(id@, "Request"@), payload_path(id@, "Request"@)),
        (message_name(id@, "Response"@), payload_path(id@, "Response"@)),
    ]);
    table
}

/// The operation of a request, from its id: this side sends one message on
/// the channel and is answered by one.
pub fn request_operation_of(id: &str) -> (op: Operation)
    ensures
        op.action == Action::Send,
        op.summary is None,
        op.channel.ref_path@ == channel_path(),
        op.messages@.len() == 1,
        op.messages@[0].ref_path@ == message_prefix() + id@ + "RequestMessage"@,
        op.reply matches Some(reply) && reply.channel.ref_path@ == channel_path()
            && reply.messages@.len() == 1 && reply.messages@[0].ref_path@ == message_prefix() + id@
            + "ResponseMessage"@,
{
    let mut messages = Vec::new();
    messages.push(message_reference(id, "RequestMessage"));
    let mut answers = Vec::new();
    answers.push(message_reference(id, "ResponseMessage"));
    Operation {
        channel: reference("#/channels/stream".to_owned()),
        summary: None,
        action: Action::Send,
        messages,
        reply: Some(Reply { channel: reference("#/channels/stream".to_owned()), messages: answers }),
    }
}

/// The names under which a request appears in the documentation.
pub trait RequestSpecExt: RequestExt + Example {
    /// The id of the operation: the name of the method in Pascal case.
    fn operation_id() -> (r: String)
        ensures
            r@ == operation_title(Self::method()),
    {
        to_pascal(Self::request_method_name())
    }

    /// The messages of the operation, the request first and its response
    /// second: the name of each, and the reference to the schema of its
    /// payload.
    fn messages() -> (r: IndexMap<String, Message>)
        ensures
            listed(r) == seq![
                (
                    message_name(operation_title(Self::method()), "Request"@),
                    payload_path(operation_title(Self::method()), "Request"@),
                ),
                (
                    message_name(operation_title(Self::method()), "Response"@),
                    payload_path(operation_title(Self::method()), "Response"@),
                ),
            ],
    {
        request_messages_of(Self::operation_id())
    }

    /// The operation of the request: this side sends one message on the
    /// channel and is answered by one.
    fn operation() -> (op: Operation)
        ensures
            op.action == Action::Send,
            op.summary is None,
            op.channel.ref_path@ == channel_path(),
            op.messages@.len() == 1,
            op.messages@[0].ref_path@ == message_prefix() + operation_title(Self::method())
                + "RequestMessage"@,
            op.reply matches Some(reply) && reply.channel.ref_path@ == channel_path()
                && reply.messages@.len() == 1 && reply.messages@[0].ref_path@ == message_prefix()
                + operation_title(Self::method()) + "ResponseMessage"@,
    {
        let id = Self::operation_id();
        request_operation_of(id.as_str())
    }
}

impl<T: RequestExt + Example> RequestSpecExt for T {

}

impl Example for Header {
    fn example() -> (h: Header)
        ensures
            h@ == (HeaderView { id: EXAMPLE_MESSAGE_ID@, timestamp: EXAMPLE_TIMESTAMP }),
    {
        Header::new(EXAMPLE_MESSAGE_ID.to_owned(), EXAMPLE_TIMESTAMP)
    }
}

impl Example for PingRequest {
    fn example() -> (r: PingRequest)
        ensures
            r == PingRequest,
    {
        PingRequest
    }
}

impl Example for PingResponse {
    fn example() -> (r: PingResponse)
        ensures
            r == PingResponse,
    {
        PingResponse
    }
}

impl Example for ApplicationMoveRequest {
    fn example() -> (r: ApplicationMoveRequest)
        ensures
            r matches ApplicationMoveRequest::Application { id } && id@ == EXAMPLE_RESOURCE_ID@,
    {
        ApplicationMoveRequest::Application { id: EXAMPLE_RESOURCE_ID.to_owned() }
    }
}

impl Example for ApplicationMoveResponse {
    fn example() -> (r: ApplicationMoveResponse)
        ensures
            r == ApplicationMoveResponse,
    {
        ApplicationMoveResponse
    }
}

impl Example for AudioStreamStartRequest {
    fn example() -> (r: AudioStreamStartRequest)
        ensures
            r.codec == Some(AudioCodec::ALAW),
    {
        AudioStreamStartRequest { codec: Some(AudioCodec::ALAW) }
    }
}

impl Example for AudioStreamStartResponse {
    fn example() -> (r: AudioStreamStartResponse)
        ensures
            r == AudioStreamStartResponse,
    {
        AudioStreamStartResponse
    }
}

impl Example for AudioStreamStopRequest {
    fn example() -> (r: AudioStreamStopRequest)
        ensures
            r == AudioStreamStopRequest,
    {
        AudioStreamStopRequest
    }
}

impl Example for AudioStreamStopResponse {
    fn example() -> (r: AudioStreamStopResponse)
        ensures
            r == AudioStreamStopResponse,
    {
        AudioStreamStopResponse
    }
}

impl Example for PlaybackStartRequest {
    fn example() -> (r: PlaybackStartRequest)
        ensures
            r.interrupt == Some(true),
            r.play_async == Some(true),
            r.content matches PlaybackContent::TTS {
                language,
                voice: Some(voice),
                text,
                provider: Some(provider),
            } && language@ == "en-US"@ && text@ == "hello world"@ && voice@ == "my-cool-voice"@
                && provider@ == "some-provider"@,
    {
        PlaybackStartRequest {
            content: PlaybackContent::TTS {
                text: "hello world".to_owned(),
                language: "en-US".to_owned(),
                voice: Some("my-cool-voice".to_owned()),
                provider: Some("some-provider".to_owned()),
            },
            interrupt: Some(true),
            play_async: Some(true),
        }
    }
}

impl Example for PlaybackStartResponse {
    fn example() -> (r: PlaybackStartResponse)
        ensures
            r.id@ == EXAMPLE_RESOURCE_ID@,
    {
        PlaybackStartResponse { id: EXAMPLE_RESOURCE_ID.to_owned() }
    }
}

impl Example for RecordingFinishedEvent {
    fn example() -> (r: RecordingFinishedEvent)
        ensures
            r.recording_id@ == EXAMPLE_RESOURCE_ID@,
    {
        RecordingFinishedEvent { recording_id: EXAMPLE_RESOURCE_ID.to_owned() }
    }
}

impl Example for RecordingStopResponse {
    fn example() -> (r: RecordingStopResponse)
        ensures
            r == RecordingStopResponse,
    {
        RecordingStopResponse
    }
}

impl Example for RecordingStopRequest {
    fn example() -> (r: RecordingStopRequest)
        ensures
            r == RecordingStopRequest,
    {
        RecordingStopRequest
    }
}

impl Example for RecordingStartResponse {
    fn example() -> (r: RecordingStartResponse)
        ensures
            r.recording_id@ == EXAMPLE_RESOURCE_ID@,
    {
        RecordingStartResponse { recording_id: EXAMPLE_RESOURCE_ID.to_owned() }
    }
}

impl Example for RecordingStartRequest {
    fn example() -> (r: RecordingStartRequest)
        ensures
            r.tags matches Some(tags) && crate::tags::items(tags) == seq!["tag1"@, "tag2"@],
    {
        proof {
            reveal_strlit("tag1");
            reveal_strlit("tag2");
            assert("tag1"@[3] != "tag2"@[3]);
        }
        let mut tags = crate::tags::new();
        let _ = crate::tags::insert(&mut tags, "tag1".to_owned());
        let _ = crate::tags::insert(&mut tags, "tag2".to_owned());
        assert(crate::tags::items(tags) =~= seq!["tag1"@, "tag2"@]);
        RecordingStartRequest { tags: Some(tags) }
    }
}

impl Example for SessionUpdatedEvent {
    /// An update that carries the id and the number of a call.
    fn example() -> (r: SessionUpdatedEvent)
        ensures
            r.metadata matches Some(m) && crate::json::entries(m).dom() =~= set![
                "call.id"@,
                "call.from"@,
            ] && crate::json::text_of(crate::json::entries(m)["call.id"@]) == Some("1234"@)
                && crate::json::text_of(crate::json::entries(m)["call.from"@]) == Some(
                "+493010001000"@,
            ),
    {
        proof {
            reveal_strlit("call.id");
            reveal_strlit("call.from");
            assert("call.id"@.len() != "call.from"@.len());
        }
        let mut map = crate::json::map_new();
        crate::fields::put_text(&mut map, "call.id", &"1234".to_owned());
        crate::fields::put_text(&mut map, "call.from", &"+493010001000".to_owned());
        SessionUpdatedEvent { metadata: Some(map) }
    }
}

impl Example for SessionTerminatedEvent {
    fn example() -> (r: SessionTerminatedEvent)
        ensures
            r.session_id@ == EXAMPLE_RESOURCE_ID@,
            r.reason == SessionCloseReason::Normal,
    {
        SessionTerminatedEvent {
            session_id: EXAMPLE_RESOURCE_ID.to_owned(),
            reason: SessionCloseReason::Normal,
        }
    }
}

} // verus!
