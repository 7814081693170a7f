use rtvbp::event::{ErrorEvent, EventExt};
use rtvbp::ext::ApiSupport;
use rtvbp::message::Message;
use rtvbp::op::application::{ApplicationMoveRequest, ApplicationMoveResponse};
use rtvbp::op::audio::{
    AudioCapabilities, AudioCodec, AudioDirection, AudioStreamStartRequest,
    AudioStreamStartResponse, AudioStreamStopRequest, AudioStreamStopResponse,
};
use rtvbp::op::log::LogEvent;
use rtvbp::op::ping::{PingRequest, PingResponse};
use rtvbp::op::playback::{
    PlaybackContent, PlaybackStartRequest, PlaybackStartResponse, PlaybackStopRequest,
    PlaybackStopResponse,
};
use rtvbp::op::recording::{
    RecordingFinishedEvent, RecordingStartRequest, RecordingStartResponse, RecordingStopRequest,
    RecordingStopResponse,
};
use rtvbp::op::session::{
    SessionCapabilities, SessionCloseReason, SessionCreateRequest, SessionTerminateRequest,
    SessionTerminateResponse, SessionTerminatedEvent, SessionUpdatedEvent,
};
use rtvbp::request::RequestExt;
use rtvbp::response::{ResponseError, ResponseExt};
use serde_json::Value;

fn json(text: &str) -> Value {
    serde_json::from_str(text).unwrap()
}

fn object(text: &str) -> serde_json::Map<String, Value> {
    serde_json::from_str(text).unwrap()
}

#[test]
fn method_and_event_names() {
    assert_eq!(PingRequest::request_method_name(), "ping");
    assert_eq!(ApplicationMoveRequest::request_method_name(), "application_move");
    assert_eq!(AudioStreamStartRequest::request_method_name(), "audio_stream_start");
    assert_eq!(AudioStreamStopRequest::request_method_name(), "audio_stream_stop");
    assert_eq!(PlaybackStartRequest::request_method_name(), "playback_start");
    assert_eq!(PlaybackStopRequest::request_method_name(), "playback_stop");
    assert_eq!(RecordingStartRequest::request_method_name(), "recording_start");
    assert_eq!(RecordingStopRequest::request_method_name(), "recording_stop");
    assert_eq!(SessionTerminateRequest::request_method_name(), "session.terminate");
    assert_eq!(SessionCreateRequest::request_method_name(), "session_create");
    assert_eq!(ErrorEvent::event_name(), "error");
    assert_eq!(LogEvent::event_name(), "log");
    assert_eq!(RecordingFinishedEvent::event_name(), "recording_finished");
    assert_eq!(SessionUpdatedEvent::event_name(), "session_updated");
    assert_eq!(SessionTerminatedEvent::event_name(), "session_terminated");
}

#[test]
fn empty_payloads() {
    let empty = json("{}");
    assert_eq!(PingRequest.to_value(), empty);
    assert_eq!(PingResponse.to_value(), empty);
    assert_eq!(ApplicationMoveResponse.to_value(), empty);
    assert_eq!(AudioStreamStartResponse.to_value(), empty);
    assert_eq!(AudioStreamStopRequest.to_value(), empty);
    assert_eq!(AudioStreamStopResponse.to_value(), empty);
    assert_eq!(PlaybackStopResponse {}.to_value(), empty);
    assert_eq!(RecordingStopRequest.to_value(), empty);
    assert_eq!(RecordingStopResponse.to_value(), empty);
    assert_eq!(SessionTerminateRequest {}.to_value(), empty);
    assert_eq!(SessionTerminateResponse {}.to_value(), empty);
    assert_eq!(PingRequest::from_value(&json("null")), Some(PingRequest));
    assert_eq!(PingResponse::from_value(&json("{\"x\":1}")), Some(PingResponse));
    assert_eq!(ApplicationMoveResponse::from_value(&empty), Some(ApplicationMoveResponse));
    assert_eq!(AudioStreamStartResponse::from_value(&empty), Some(AudioStreamStartResponse));
    assert_eq!(AudioStreamStopRequest::from_value(&empty), Some(AudioStreamStopRequest));
    assert_eq!(AudioStreamStopResponse::from_value(&empty), Some(AudioStreamStopResponse));
    assert_eq!(PlaybackStopResponse::from_value(&empty), Some(PlaybackStopResponse {}));
    assert_eq!(RecordingStopRequest::from_value(&empty), Some(RecordingStopRequest));
    assert_eq!(RecordingStopResponse::from_value(&empty), Some(RecordingStopResponse));
    assert_eq!(SessionTerminateRequest::from_value(&empty), Some(SessionTerminateRequest {}));
    assert_eq!(SessionTerminateResponse::from_value(&empty), Some(SessionTerminateResponse {}));
    // a payload without fields is nothing at all or an object, and nothing else
    assert_eq!(PingRequest::from_value(&json("5")), None);
    assert_eq!(PingRequest::from_value(&json("[]")), None);
    assert_eq!(PingResponse::from_value(&json("\"pong\"")), None);
    assert_eq!(PingResponse::from_value(&empty), Some(PingResponse));
    assert_eq!(SessionTerminateRequest::from_value(&json("true")), None);
    // a request to stop recording takes no members at all
    assert_eq!(RecordingStopRequest::from_value(&json("null")), Some(RecordingStopRequest));
    assert_eq!(RecordingStopRequest::from_value(&json("{\"x\":1}")), None);
    assert_eq!(RecordingStopRequest::from_value(&json("[]")), None);
    assert_eq!(RecordingStopResponse::from_value(&json("{\"x\":1}")), Some(RecordingStopResponse));
}

#[test]
fn error_event() {
    let e = ErrorEvent { message: "boom".to_string(), code: 500, details: None };
    assert_eq!(e.to_value(), json("{\"message\":\"boom\",\"code\":500,\"details\":null}"));
    let back = ErrorEvent::from_value(&e.to_value()).unwrap();
    assert_eq!(back.message, "boom");
    assert_eq!(back.code, 500);
    assert_eq!(back.details, None);
    let e = ErrorEvent { message: "m".to_string(), code: 1, details: Some("d".to_string()) };
    assert_eq!(e.to_value(), json("{\"message\":\"m\",\"code\":1,\"details\":\"d\"}"));
    assert_eq!(ErrorEvent::from_value(&e.to_value()).unwrap().details, Some("d".to_string()));
    assert!(ErrorEvent::from_value(&json("{\"code\":1}")).is_none());
    assert!(ErrorEvent::from_value(&json("{\"message\":\"m\",\"code\":70000}")).is_none());
    assert!(ErrorEvent::from_value(&json("{\"message\":\"m\",\"code\":1,\"details\":5}")).is_none());
    match e.message() {
        Message::Event(m) => {
            assert_eq!(m.event, "error");
            assert_eq!(m.data, Some(e.to_value()));
            assert_eq!(m.header.id.chars().count(), 21);
        }
        other => panic!("unexpected {:?}", other),
    }
}

#[test]
fn response_error() {
    let e = ResponseError::new(Some("nope".to_string()), 404);
    assert_eq!(e.to_value(), json("{\"error_message\":\"nope\",\"status\":404}"));
    let back = ResponseError::from_value(&e.to_value()).unwrap();
    assert_eq!(back.error_message, Some("nope".to_string()));
    assert_eq!(back.status, 404);
    let e = ResponseError::new(None, 500);
    assert_eq!(e.to_value(), json("{\"status\":500}"));
    assert_eq!(ResponseError::from_value(&e.to_value()).unwrap().error_message, None);
    assert!(ResponseError::from_value(&json("{}")).is_none());
    assert!(ResponseError::from_value(&json("{\"status\":1,\"error_message\":[]}")).is_none());
    match ResponseError::err("q".to_string()) {
        Message::Response(r) => assert_eq!(r.status, 500),
        other => panic!("unexpected {:?}", other),
    }
}

#[test]
fn application_move() {
    assert_eq!(ApplicationMoveRequest::Next.to_value(), json("\"next\""));
    let m = ApplicationMoveRequest::Application { id: "app-1".to_string() };
    assert_eq!(m.to_value(), json("{\"application\":{\"id\":\"app-1\"}}"));
    assert!(matches!(
        ApplicationMoveRequest::from_value(&json("\"next\"")),
        Some(ApplicationMoveRequest::Next)
    ));
    match ApplicationMoveRequest::from_value(&m.to_value()) {
        Some(ApplicationMoveRequest::Application { id }) => assert_eq!(id, "app-1"),
        other => panic!("unexpected {:?}", other),
    }
    assert!(ApplicationMoveRequest::from_value(&json("\"previous\"")).is_none());
    assert!(ApplicationMoveRequest::from_value(&json("{\"application\":{}}")).is_none());
    assert!(ApplicationMoveRequest::from_value(&json("{}")).is_none());
    match ApplicationMoveRequest::Next.message() {
        Message::Request(r) => {
            assert_eq!(r.request, "application_move");
            assert_eq!(r.data, Some(json("\"next\"")));
        }
        other => panic!("unexpected {:?}", other),
    }
}

#[test]
fn audio() {
    assert_eq!(AudioCodec::SLIN.as_str(), "slin");
    assert_eq!(AudioCodec::ALAW.as_str(), "alaw");
    assert_eq!(AudioCodec::from_word("alaw"), Some(AudioCodec::ALAW));
    assert_eq!(AudioCodec::from_word("slin"), Some(AudioCodec::SLIN));
    assert_eq!(AudioCodec::from_word("mp3"), None);
    assert_eq!(AudioDirection::default(), AudioDirection::Both);
    assert_eq!(AudioDirection::Both.as_str(), "both");
    assert_eq!(AudioDirection::In.as_str(), "in");
    assert_eq!(AudioDirection::Out.as_str(), "out");
    assert_eq!(AudioDirection::from_word("in"), Some(AudioDirection::In));
    assert_eq!(AudioDirection::from_word("out"), Some(AudioDirection::Out));
    assert_eq!(AudioDirection::from_word("both"), Some(AudioDirection::Both));
    assert_eq!(AudioDirection::from_word("up"), None);

    let r = AudioStreamStartRequest { codec: Some(AudioCodec::ALAW) };
    assert_eq!(r.to_value(), json("{\"codec\":\"alaw\"}"));
    assert_eq!(AudioStreamStartRequest::from_value(&r.to_value()), Some(r));
    let r = AudioStreamStartRequest { codec: None };
    assert_eq!(r.to_value(), json("{\"codec\":null}"));
    assert_eq!(AudioStreamStartRequest::from_value(&r.to_value()), Some(r));
    assert_eq!(AudioStreamStartRequest::from_value(&json("{}")), Some(r));
    assert_eq!(AudioStreamStartRequest::from_value(&json("{\"codec\":\"mp3\"}")), None);
    assert_eq!(AudioStreamStartRequest::from_value(&json("{\"codec\":3}")), None);

    let mut caps = AudioCapabilities::new(AudioDirection::In);
    assert!(caps.codecs().is_empty());
    assert!(caps.insert(AudioCodec::ALAW));
    assert!(caps.insert(AudioCodec::SLIN));
    assert!(!caps.insert(AudioCodec::ALAW));
    assert_eq!(caps.direction(), AudioDirection::In);
    assert_eq!(caps.codecs(), &vec![AudioCodec::ALAW, AudioCodec::SLIN]);
    assert!(caps.supports(AudioCodec::SLIN));
    assert_eq!(caps.to_value(), json("{\"direction\":\"in\",\"codecs\":[\"alaw\",\"slin\"]}"));
    let back = AudioCapabilities::from_value(&caps.to_value()).unwrap();
    assert_eq!(back.direction(), AudioDirection::In);
    assert_eq!(back.codecs(), &vec![AudioCodec::ALAW, AudioCodec::SLIN]);
    // a codec that is named twice counts once, where it is named first
    let twice = AudioCapabilities::from_value(&json(
        "{\"direction\":\"out\",\"codecs\":[\"slin\",\"alaw\",\"slin\"]}",
    ))
    .unwrap();
    assert_eq!(twice.direction(), AudioDirection::Out);
    assert_eq!(twice.codecs(), &vec![AudioCodec::SLIN, AudioCodec::ALAW]);
    assert!(AudioCapabilities::from_value(&json("{\"direction\":\"in\"}")).is_none());
    assert!(AudioCapabilities::from_value(&json("{\"direction\":\"in\",\"codecs\":[\"x\"]}"))
        .is_none());
    assert!(AudioCapabilities::from_value(&json("{\"direction\":\"x\",\"codecs\":[]}")).is_none());
}

#[test]
fn playback() {
    let url = PlaybackContent::URL { url: "http://x/a.wav".to_string() };
    assert_eq!(url.to_value(), json("{\"url\":\"http://x/a.wav\"}"));
    let tts = PlaybackContent::TTS {
        language: "en-US".to_string(),
        voice: Some("v".to_string()),
        text: "hello".to_string(),
        provider: None,
    };
    assert_eq!(tts.to_value(), json("{\"language\":\"en-US\",\"voice\":\"v\",\"text\":\"hello\"}"));
    let prompt = PlaybackContent::Prompt { id: "prompt-a".to_string() };
    assert_eq!(prompt.to_value(), json("{\"id\":\"prompt-a\"}"));
    let many = PlaybackContent::Multiple(vec![
        PlaybackContent::URL { url: "u".to_string() },
        PlaybackContent::Multiple(vec![PlaybackContent::Prompt { id: "p".to_string() }]),
    ]);
    assert_eq!(many.to_value(), json("[{\"url\":\"u\"},[{\"id\":\"p\"}]]"));

    match PlaybackContent::from_value(&url.to_value()) {
        Some(PlaybackContent::URL { url }) => assert_eq!(url, "http://x/a.wav"),
        other => panic!("unexpected {:?}", other),
    }
    match PlaybackContent::from_value(&tts.to_value()) {
        Some(PlaybackContent::TTS { language, voice, text, provider }) => {
            assert_eq!(language, "en-US");
            assert_eq!(voice, Some("v".to_string()));
            assert_eq!(text, "hello");
            assert_eq!(provider, None);
        }
        other => panic!("unexpected {:?}", other),
    }
    match PlaybackContent::from_value(&prompt.to_value()) {
        Some(PlaybackContent::Prompt { id }) => assert_eq!(id, "prompt-a"),
        other => panic!("unexpected {:?}", other),
    }
    match PlaybackContent::from_value(&many.to_value()) {
        Some(PlaybackContent::Multiple(list)) => {
            assert_eq!(list.len(), 2);
            assert!(matches!(&list[0], PlaybackContent::URL { .. }));
            match &list[1] {
                PlaybackContent::Multiple(inner) => assert_eq!(inner.len(), 1),
                other => panic!("unexpected {:?}", other),
            }
        }
        other => panic!("unexpected {:?}", other),
    }
    assert!(PlaybackContent::from_value(&json("{}")).is_none());
    assert!(PlaybackContent::from_value(&json("[{\"url\":\"u\"},{}]")).is_none());
    assert!(PlaybackContent::from_value(&json("7")).is_none());

    let start = PlaybackStartRequest {
        interrupt: Some(true),
        play_async: None,
        content: PlaybackContent::Prompt { id: "p".to_string() },
    };
    assert_eq!(start.to_value(), json("{\"interrupt\":true,\"content\":{\"id\":\"p\"}}"));
    let both = PlaybackStartRequest {
        interrupt: None,
        play_async: Some(false),
        content: PlaybackContent::Prompt { id: "p".to_string() },
    };
    assert_eq!(both.to_value(), json("{\"play_async\":false,\"content\":{\"id\":\"p\"}}"));
    assert_eq!(PlaybackStartRequest::from_value(&both.to_value()).unwrap().play_async, Some(false));
    let back = PlaybackStartRequest::from_value(&json(
        "{\"interrupt\":false,\"async\":true,\"content\":{\"id\":\"p\"}}",
    ))
    .unwrap();
    assert_eq!(back.interrupt, Some(false));
    assert_eq!(back.play_async, Some(true));
    // the flag may stand under either of its names, not under both
    assert!(PlaybackStartRequest::from_value(&json(
        "{\"async\":true,\"play_async\":true,\"content\":{\"id\":\"p\"}}",
    ))
    .is_none());
    assert!(PlaybackStartRequest::from_value(&json(
        "{\"play_async\":\"yes\",\"content\":{\"id\":\"p\"}}",
    ))
    .is_none());
    assert!(PlaybackStartRequest::from_value(&json("{\"content\":{}}")).is_none());
    assert!(PlaybackStartRequest::from_value(&json("{\"interrupt\":1,\"content\":{\"id\":\"p\"}}"))
        .is_none());
    assert!(PlaybackStartRequest::from_value(&json("{\"interrupt\":true}")).is_none());

    let resp = PlaybackStartResponse { id: "pb".to_string() };
    assert_eq!(resp.to_value(), json("{\"id\":\"pb\"}"));
    assert_eq!(PlaybackStartResponse::from_value(&resp.to_value()).unwrap().id, "pb");
    assert!(PlaybackStartResponse::from_value(&json("{}")).is_none());
    let stop = PlaybackStopRequest { id: "pb".to_string() };
    assert_eq!(stop.to_value(), json("{\"id\":\"pb\"}"));
    assert_eq!(PlaybackStopRequest::from_value(&stop.to_value()).unwrap().id, "pb");
    assert!(PlaybackStopRequest::from_value(&json("{\"id\":1}")).is_none());
}

#[test]
fn recording() {
    let tags = rtvbp::tags::from_words(vec!["b".to_string(), "a".to_string(), "b".to_string()]);
    assert_eq!(
        tags.iter().cloned().collect::<Vec<_>>(),
        vec!["b".to_string(), "a".to_string()]
    );
    let r = RecordingStartRequest { tags: Some(tags.clone()) };
    assert_eq!(r.to_value(), json("{\"tags\":[\"b\",\"a\"]}"));
    assert_eq!(RecordingStartRequest::from_value(&r.to_value()).unwrap().tags, Some(tags));
    // a tag that comes twice is kept once, where it came first
    let twice = RecordingStartRequest::from_value(&json("{\"tags\":[\"x\",\"y\",\"x\"]}"));
    assert_eq!(
        twice.unwrap().tags.unwrap().into_iter().collect::<Vec<_>>(),
        vec!["x".to_string(), "y".to_string()]
    );
    assert_eq!(
        rtvbp::tags::from_words(vec!["q".to_string(), "q".to_string()]).len(),
        1
    );
    let r = RecordingStartRequest { tags: None };
    assert_eq!(r.to_value(), json("{\"tags\":null}"));
    assert_eq!(RecordingStartRequest::from_value(&r.to_value()).unwrap().tags, None);
    assert!(RecordingStartRequest::from_value(&json("{\"tags\":[1]}")).is_none());
    assert!(RecordingStartRequest::from_value(&json("{\"tags\":\"a\"}")).is_none());
    // members that the payload does not know are refused
    assert!(RecordingStartRequest::from_value(&json("{\"tags\":[],\"x\":1}")).is_none());
    assert!(RecordingStartRequest::from_value(&json("{\"x\":1}")).is_none());
    assert!(RecordingStartRequest::from_value(&json("[]")).is_none());
    assert_eq!(RecordingStartRequest::from_value(&json("{}")).unwrap().tags, None);
    assert!(RecordingStartResponse::from_value(&json("{\"recording_id\":\"r\",\"x\":1}"))
        .is_none());

    let resp = RecordingStartResponse { recording_id: "rec".to_string() };
    assert_eq!(resp.to_value(), json("{\"recording_id\":\"rec\"}"));
    assert_eq!(RecordingStartResponse::from_value(&resp.to_value()).unwrap().recording_id, "rec");
    assert!(RecordingStartResponse::from_value(&json("{}")).is_none());
    let evt = RecordingFinishedEvent { recording_id: "rec".to_string() };
    assert_eq!(evt.to_value(), json("{\"recording_id\":\"rec\"}"));
    assert_eq!(RecordingFinishedEvent::from_value(&evt.to_value()).unwrap().recording_id, "rec");
    assert!(RecordingFinishedEvent::from_value(&json("[]")).is_none());
}

#[test]
fn session_events() {
    let u = SessionUpdatedEvent { metadata: Some(object("{\"call\":{\"id\":\"c\"}}")) };
    assert_eq!(u.to_value(), json("{\"metadata\":{\"call\":{\"id\":\"c\"}}}"));
    assert_eq!(
        SessionUpdatedEvent::from_value(&u.to_value()).unwrap().metadata,
        Some(object("{\"call\":{\"id\":\"c\"}}"))
    );
    // metadata is an object or it is not there
    assert!(SessionUpdatedEvent::from_value(&json("{\"metadata\":5}")).is_none());
    assert!(SessionUpdatedEvent::from_value(&json("{}")).unwrap().metadata.is_none());
    let u = SessionUpdatedEvent { metadata: None };
    assert_eq!(u.to_value(), json("{\"metadata\":null}"));
    assert_eq!(SessionUpdatedEvent::from_value(&u.to_value()).unwrap().metadata, None);

    assert_eq!(SessionCloseReason::Normal.as_str(), "normal");
    assert_eq!(SessionCloseReason::Error.as_str(), "error");
    assert_eq!(SessionCloseReason::Timeout.as_str(), "timeout");
    assert_eq!(SessionCloseReason::from_word("timeout"), Some(SessionCloseReason::Timeout));
    assert_eq!(SessionCloseReason::from_word("error"), Some(SessionCloseReason::Error));
    assert_eq!(SessionCloseReason::from_word("normal"), Some(SessionCloseReason::Normal));
    assert_eq!(SessionCloseReason::from_word("other"), None);
    let t = SessionTerminatedEvent {
        session_id: "s".to_string(),
        reason: SessionCloseReason::Timeout,
    };
    assert_eq!(t.to_value(), json("{\"session_id\":\"s\",\"reason\":\"timeout\"}"));
    let back = SessionTerminatedEvent::from_value(&t.to_value()).unwrap();
    assert_eq!(back.session_id, "s");
    assert_eq!(back.reason, SessionCloseReason::Timeout);
    assert!(SessionTerminatedEvent::from_value(&json("{\"session_id\":\"s\",\"reason\":\"x\"}"))
        .is_none());
    assert!(SessionTerminatedEvent::from_value(&json("{\"reason\":\"normal\"}")).is_none());
}

#[test]
fn handshake_payload() {
    let caps = SessionCapabilities {
        events: vec!["log".to_string()],
        requests: vec!["ping".to_string(), "playback_start".to_string()],
        audio: Some(slin_both()),
    };
    let hello = SessionCreateRequest {
        session_id: "sid".to_string(),
        capabilities: caps,
        metadata: Some(object("{\"k\":1}")),
    };
    let v = hello.to_value();
    assert_eq!(
        v,
        json(
            "{\"session_id\":\"sid\",\"capabilities\":{\"events\":[\"log\"],\
             \"requests\":[\"ping\",\"playback_start\"],\
             \"audio\":{\"direction\":\"both\",\"codecs\":[\"slin\"]}},\"metadata\":{\"k\":1}}"
        )
    );
    let back = SessionCreateRequest::from_value(&v).unwrap();
    assert_eq!(back.session_id, "sid");
    assert_eq!(back.capabilities.events, vec!["log".to_string()]);
    assert_eq!(back.capabilities.requests.len(), 2);
    assert_eq!(back.capabilities.audio.unwrap().codecs(), &vec![AudioCodec::SLIN]);
    assert_eq!(back.metadata, Some(object("{\"k\":1}")));
    assert!(SessionCreateRequest::from_value(&json(
        "{\"session_id\":\"s\",\"capabilities\":{\"events\":[],\"requests\":[]},\"metadata\":[]}"
    ))
    .is_none());

    let plain = SessionCreateRequest {
        session_id: "sid".to_string(),
        capabilities: SessionCapabilities::new(),
        metadata: None,
    };
    assert_eq!(
        plain.to_value(),
        json("{\"session_id\":\"sid\",\"capabilities\":{\"events\":[],\"requests\":[]},\"metadata\":null}")
    );
    let back = SessionCreateRequest::from_value(&plain.to_value()).unwrap();
    assert!(back.capabilities.audio.is_none());
    assert!(back.metadata.is_none());
    assert!(SessionCreateRequest::from_value(&json("{\"session_id\":\"s\"}")).is_none());
    assert!(SessionCreateRequest::from_value(&json(
        "{\"session_id\":\"s\",\"capabilities\":{\"events\":[1],\"requests\":[]}}"
    ))
    .is_none());
    assert!(SessionCapabilities::from_value(&json("{\"events\":[]}")).is_none());
    assert!(SessionCapabilities::from_value(&json(
        "{\"events\":[],\"requests\":[],\"audio\":{}}"
    ))
    .is_none());
}

#[test]
fn log_event() {
    let e = LogEvent::new("hello".to_string(), None);
    assert_eq!(e.to_value(), json("{\"message\":\"hello\",\"data\":null}"));
    let e = LogEvent::new("hello".to_string(), Some(json("[1]")));
    assert_eq!(e.to_value(), json("{\"message\":\"hello\",\"data\":[1]}"));
    let back = LogEvent::from_value(&e.to_value()).unwrap();
    assert_eq!(back.to_value(), e.to_value());
    assert!(LogEvent::from_value(&json("{\"data\":1}")).is_none());
}

fn slin_both() -> AudioCapabilities {
    let mut caps = AudioCapabilities::new(AudioDirection::Both);
    caps.insert(AudioCodec::SLIN);
    caps
}
