//! Playing content to the caller.
use crate::ext::ApiSupport;
use crate::fields::empty_object;
use crate::fields::empty_payload;
use crate::fields::is_empty_payload;
use crate::fields::reads_as_empty;
use crate::fields::flag_at;
use crate::fields::member;
use crate::fields::member_of;
use crate::fields::object_of;
use crate::fields::put;
use crate::fields::put_text;
use crate::fields::read_text;
use crate::fields::text;
use crate::fields::text_at;
use crate::json;
use crate::json::depth;
use crate::json::flag_of;
use crate::json::items_of;
use crate::json::text_of;
use crate::request::RequestExt;
use crate::response::ResponseExt;
use serde_json::Value;
use vstd::prelude::*;

verus! {

/// What to play.
#[derive(Debug)]
pub enum PlaybackContent {
    /// The audio behind an address.
    URL { url: String },
    /// A text, spoken by a synthetic voice.
    TTS { language: String, voice: Option<String>, text: String, provider: Option<String> },
    /// A recorded prompt.
    Prompt { id: String },
    /// Several contents, one after the other.
    Multiple(Vec<PlaybackContent>),
}

pub open spec fn key_url() -> Seq<char> {
    "url"@
}

pub open spec fn key_language() -> Seq<char> {
    "language"@
}

pub open spec fn key_voice() -> Seq<char> {
    "voice"@
}

pub open spec fn key_text() -> Seq<char> {
    "text"@
}

pub open spec fn key_provider() -> Seq<char> {
    "provider"@
}

pub open spec fn key_id() -> Seq<char> {
    "id"@
}

pub open spec fn key_interrupt() -> Seq<char> {
    "interrupt"@
}

pub open spec fn key_async() -> Seq<char> {
    "async"@
}

pub open spec fn key_play_async() -> Seq<char> {
    "play_async"@
}

pub open spec fn key_content() -> Seq<char> {
    "content"@
}

/// Whether the member under `key` reads as the optional string `s`.
pub open spec fn optional_text(v: Value, key: Seq<char>, s: Option<String>) -> bool {
    match s {
        Some(t) => text_at(v, key) == Some(t@),
        None => member_of(v, key) is None,
    }
}

/// Whether `v` reads as spoken text: it has the strings `language` and
/// `text`, and its `voice` and `provider` are strings where they are there.
pub open spec fn reads_as_speech(v: Value) -> bool {
    &&& text_at(v, key_language()) is Some
    &&& text_at(v, key_text()) is Some
    &&& member_of(v, key_voice()) matches Some(x) ==> text_of(x) is Some
    &&& member_of(v, key_provider()) matches Some(x) ==> text_of(x) is Some
}

/// The names of the members of spoken text: `language` and `text`, and
/// `voice` and `provider` where they are given.
pub open spec fn speech_keys(voice: bool, provider: bool) -> Set<Seq<char>> {
    set![key_language(), key_text()].union(
        if voice {
            set![key_voice()]
        } else {
            Set::empty()
        },
    ).union(
        if provider {
            set![key_provider()]
        } else {
            Set::empty()
        },
    )
}

impl PlaybackContent {
    /// Whether `v` is the JSON form of this content: an object with the one
    /// member `url`; an object with the members of spoken text; an object
    /// with the one member `id`; or the array of the forms of the contents.
    pub open spec fn written(self, v: Value) -> bool
        decreases self,
    {
        let f = json::members(v);
        match self {
            PlaybackContent::URL { url } => {
                &&& object_of(v, set![key_url()])
                &&& text_of(f[key_url()]) == Some(url@)
            },
            PlaybackContent::TTS { language, voice, text, provider } => {
                &&& object_of(v, speech_keys(voice is Some, provider is Some))
                &&& text_of(f[key_language()]) == Some(language@)
                &&& text_of(f[key_text()]) == Some(text@)
                &&& voice matches Some(x) ==> text_of(f[key_voice()]) == Some(x@)
                &&& provider matches Some(x) ==> text_of(f[key_provider()]) == Some(x@)
            },
            PlaybackContent::Prompt { id } => {
                &&& object_of(v, set![key_id()])
                &&& text_of(f[key_id()]) == Some(id@)
            },
            PlaybackContent::Multiple(list) => {
                &&& items_of(v) matches Some(items)
                &&& items.len() == list.len()
                &&& forall|i: int|
                    0 <= i < list.len() ==> (#[trigger] list[i]).written(items[i])
            },
        }
    }

    /// Whether `v` reads as this content. The forms are told apart by their
    /// members, in this order: an object with a string `url`; an object that
    /// reads as spoken text; an object with a string `id`; an array of
    /// contents.
    pub open spec fn is_json(self, v: Value) -> bool
        decreases self,
    {
        match self {
            PlaybackContent::URL { url } => text_at(v, key_url()) == Some(url@),
            PlaybackContent::TTS { language, voice, text, provider } => {
                &&& text_at(v, key_url()) is None
                &&& text_at(v, key_language()) == Some(language@)
                &&& text_at(v, key_text()) == Some(text@)
                &&& optional_text(v, key_voice(), voice)
                &&& optional_text(v, key_provider(), provider)
            },
            PlaybackContent::Prompt { id } => {
                &&& text_at(v, key_url()) is None
                &&& !reads_as_speech(v)
                &&& text_at(v, key_id()) == Some(id@)
            },
            PlaybackContent::Multiple(list) => {
                &&& text_at(v, key_url()) is None
                &&& !reads_as_speech(v)
                &&& text_at(v, key_id()) is None
                &&& items_of(v) matches Some(items)
                &&& items.len() == list.len()
                &&& forall|i: int|
                    0 <= i < list.len() ==> (#[trigger] list[i]).is_json(items[i])
            },
        }
    }

    /// Puts an optional string under a key; nothing where there is none.
    fn put_optional(map: &mut serde_json::Map<String, Value>, key: &str, s: &Option<String>)
        ensures
            json::entries(*final(map)).dom() == if s is Some {
                json::entries(*old(map)).dom().insert(key@)
            } else {
                json::entries(*old(map)).dom()
            },
            s matches Some(t) ==> text_of(json::entries(*final(map))[key@]) == Some(t@) && !json::null(
                json::entries(*final(map))[key@],
            ),
            forall|k: Seq<char>|
                k != key@ && json::entries(*old(map)).contains_key(k) ==> json::entries(
                    *final(map),
                )[k] == json::entries(*old(map))[k],
    {
        match s {
            Some(t) => put_text(map, key, t),
            None => {},
        }
    }

    /// The JSON form of this content.
    pub fn to_value(&self) -> (v: Value)
        ensures
            self.written(v),
            self.is_json(v),
            !json::null(v),
        decreases self,
    {
        proof {
            lemma_keys();
        }
        match self {
            PlaybackContent::URL { url } => {
                let mut map = json::map_new();
                put_text(&mut map, "url", url);
                json::object(map)
            },
            PlaybackContent::TTS { language, voice, text, provider } => {
                let mut map = json::map_new();
                put_text(&mut map, "language", language);
                PlaybackContent::put_optional(&mut map, "voice", voice);
                put_text(&mut map, "text", text);
                PlaybackContent::put_optional(&mut map, "provider", provider);
                json::object(map)
            },
            PlaybackContent::Prompt { id } => {
                let mut map = json::map_new();
                put_text(&mut map, "id", id);
                json::object(map)
            },
            PlaybackContent::Multiple(list) => {
                let mut items: Vec<Value> = Vec::new();
                let mut i: usize = 0;
                while i < list.len()
                    invariant
                        i <= list.len(),
                        items.len() == i,
                        decreases_to!(self => *list),
                        forall|k: int| 0 <= k < i ==> (#[trigger] list[k]).is_json(items@[k]),
                        forall|k: int| 0 <= k < i ==> (#[trigger] list[k]).written(items@[k]),
                    decreases list.len() - i,
                {
                    assert(decreases_to!(*list => list[i as int]));
                    let v = list[i].to_value();
                    items.push(v);
                    i = i + 1;
                }
                json::array(items)
            },
        }
    }

    /// The content that a JSON value reads as; `None` where it reads as none.
    pub fn from_value(v: &Value) -> (r: Option<PlaybackContent>)
        ensures
            r matches Some(x) ==> x.is_json(*v),
            r is None ==> forall|x: PlaybackContent| !#[trigger] x.is_json(*v),
        decreases depth(*v),
    {
        if let Some(url) = read_text(v, "url") {
            return Some(PlaybackContent::URL { url });
        }
        let language = read_text(v, "language");
        let words = read_text(v, "text");
        let voice = match member(v, "voice") {
            Some(x) => match text(x) {
                Some(t) => Some(Some(t)),
                None => None,
            },
            None => Some(None),
        };
        let provider = match member(v, "provider") {
            Some(x) => match text(x) {
                Some(t) => Some(Some(t)),
                None => None,
            },
            None => Some(None),
        };
        match (language, words, voice, provider) {
            (Some(language), Some(text), Some(voice), Some(provider)) => {
                return Some(PlaybackContent::TTS { language, voice, text, provider });
            },
            _ => {},
        }
        assert(!reads_as_speech(*v));
        if let Some(id) = read_text(v, "id") {
            return Some(PlaybackContent::Prompt { id });
        }
        match json::as_items(v) {
            None => None,
            Some(items) => {
                let mut list: Vec<PlaybackContent> = Vec::new();
                let mut i: usize = 0;
                while i < items.len()
                    invariant
                        i <= items.len(),
                        list.len() == i,
                        items_of(*v) == Some(items@),
                        text_at(*v, key_url()) is None,
                        !reads_as_speech(*v),
                        text_at(*v, key_id()) is None,
                        forall|k: int|
                            0 <= k < items@.len() ==> depth(#[trigger] items@[k]) < depth(*v),
                        forall|k: int| 0 <= k < i ==> (#[trigger] list[k]).is_json(items@[k]),
                    decreases items.len() - i,
                {
                    match PlaybackContent::from_value(&items[i]) {
                        Some(x) => {
                            list.push(x);
                        },
                        None => {
                            assert forall|x: PlaybackContent| !#[trigger] x.is_json(*v) by {
                                if x.is_json(*v) {
                                    match x {
                                        PlaybackContent::Multiple(l) => {
                                            assert(l[i as int].is_json(items@[i as int]));
                                        },
                                        _ => {},
                                    }
                                }
                            }
                            return None;
                        },
                    }
                    i = i + 1;
                }
                Some(PlaybackContent::Multiple(list))
            },
        }
    }
}

/// The member names of contents differ from each other.
pub proof fn lemma_keys()
    ensures
        key_url() != key_language(),
        key_url() != key_voice(),
        key_url() != key_text(),
        key_url() != key_provider(),
        key_url() != key_id(),
        key_language() != key_voice(),
        key_language() != key_text(),
        key_language() != key_provider(),
        key_language() != key_id(),
        key_voice() != key_text(),
        key_voice() != key_provider(),
        key_voice() != key_id(),
        key_text() != key_provider(),
        key_text() != key_id(),
        key_provider() != key_id(),
        key_interrupt() != key_async(),
        key_interrupt() != key_play_async(),
        key_play_async() != key_content(),
        key_play_async() != key_async(),
        key_interrupt() != key_content(),
        key_async() != key_content(),
{
    reveal_strlit("url");
    reveal_strlit("language");
    reveal_strlit("voice");
    reveal_strlit("text");
    reveal_strlit("provider");
    reveal_strlit("id");
    reveal_strlit("interrupt");
    reveal_strlit("async");
    reveal_strlit("play_async");
    assert(key_play_async()[0] == 'p');
    reveal_strlit("content");
    assert(key_url()[0] == 'u');
    assert(key_language()[0] == 'l');
    assert(key_voice()[0] == 'v');
    assert(key_text()[0] == 't');
    assert(key_provider()[0] == 'p');
    assert(key_id()[0] == 'i');
    assert(key_interrupt()[0] == 'i');
    assert(key_async()[0] == 'a');
    assert(key_content()[0] == 'c');
}

/// Asks the peer to play content.
#[derive(Debug)]
pub struct PlaybackStartRequest {
    /// Whether to cut off what plays now.
    pub interrupt: Option<bool>,
    /// Whether to answer at once, before the content has played.
    pub play_async: Option<bool>,
    pub content: PlaybackContent,
}

/// Playing has started.
#[derive(Debug)]
pub struct PlaybackStartResponse {
    /// The id of the playback that has started.
    pub id: String,
}

/// Asks the peer to stop a playback.
#[derive(Debug)]
pub struct PlaybackStopRequest {
    pub id: String,
}

/// The playback has stopped. The payload is an empty object.
#[derive(Debug, Clone, Copy, PartialEq, Eq, Structural)]
pub struct PlaybackStopResponse {}

/// Whether the member under `key` reads as the optional boolean `b`.
pub open spec fn optional_flag(v: Value, key: Seq<char>, b: Option<bool>) -> bool {
    match b {
        Some(x) => flag_at(v, key) == Some(x),
        None => member_of(v, key) is None,
    }
}

/// An optional boolean under `key`: `None` where the member has another type.
fn read_optional_flag(v: &Value, key: &str) -> (r: Option<Option<bool>>)
    ensures
        r matches Some(b) ==> optional_flag(*v, key@, b),
        r is None ==> forall|b: Option<bool>| !optional_flag(*v, key@, b),
{
    match member(v, key) {
        None => Some(None),
        Some(x) => match json::as_flag(x) {
            Some(b) => Some(Some(b)),
            None => None,
        },
    }
}

/// The names of the members of a request to play: `content`, and
/// `interrupt` and `play_async` where they are set.
pub open spec fn start_keys(interrupt: bool, play_async: bool) -> Set<Seq<char>> {
    set![key_content()].union(
        if interrupt {
            set![key_interrupt()]
        } else {
            Set::empty()
        },
    ).union(
        if play_async {
            set![key_play_async()]
        } else {
            Set::empty()
        },
    )
}

/// Whether `v` reads as the flag `b` for answering at once: the flag stands
/// under `play_async` or under its other name `async`, never under both.
pub open spec fn reads_async(v: Value, b: Option<bool>) -> bool {
    let long = member_of(v, key_play_async());
    let short = member_of(v, key_async());
    match b {
        Some(x) => {
            ||| long matches Some(f) && short is None && flag_of(f) == Some(x)
            ||| short matches Some(f) && long is None && flag_of(f) == Some(x)
        },
        None => long is None && short is None,
    }
}

/// The flag for answering at once: `None` where it does not read.
fn read_async(v: &Value) -> (r: Option<Option<bool>>)
    ensures
        r matches Some(b) ==> reads_async(*v, b),
        r is None ==> forall|b: Option<bool>| !reads_async(*v, b),
{
    match (member(v, "play_async"), member(v, "async")) {
        (None, None) => Some(None),
        (Some(_), Some(_)) => None,
        (Some(f), None) => match json::as_flag(f) {
            Some(b) => Some(Some(b)),
            None => None,
        },
        (None, Some(f)) => match json::as_flag(f) {
            Some(b) => Some(Some(b)),
            None => None,
        },
    }
}

impl ApiSupport for PlaybackStartRequest {
    /// An object with the member `content`, and with the members `interrupt`
    /// and `play_async` where they are set.
    open spec fn written(&self, v: Value) -> bool {
        let f = json::members(v);
        &&& object_of(v, start_keys(self.interrupt is Some, self.play_async is Some))
        &&& self.interrupt matches Some(b) ==> flag_of(f[key_interrupt()]) == Some(b)
        &&& self.play_async matches Some(b) ==> flag_of(f[key_play_async()]) == Some(b)
        &&& self.content.written(f[key_content()])
    }

    /// An object with the content under `content`, with the boolean
    /// `interrupt` where it is set, and with the boolean `play_async`, which
    /// may also stand under `async`, where it is set.
    open spec fn is_json(&self, v: Value) -> bool {
        &&& optional_flag(v, key_interrupt(), self.interrupt)
        &&& reads_async(v, self.play_async)
        &&& member_of(v, key_content()) matches Some(c)
        &&& self.content.is_json(c)
    }

    fn to_value(&self) -> (v: Value) {
        proof {
            lemma_keys();
        }
        let mut map = json::map_new();
        match self.interrupt {
            Some(b) => put(&mut map, "interrupt", json::flag(b)),
            None => {},
        }
        match self.play_async {
            Some(b) => put(&mut map, "play_async", json::flag(b)),
            None => {},
        }
        put(&mut map, "content", self.content.to_value());
        json::object(map)
    }

    fn from_value(v: &Value) -> (r: Option<PlaybackStartRequest>) {
        let interrupt = match read_optional_flag(v, "interrupt") {
            Some(b) => b,
            None => {
                return None;
            },
        };
        let play_async = match read_async(v) {
            Some(b) => b,
            None => {
                return None;
            },
        };
        match member(v, "content") {
            None => None,
            Some(c) => match PlaybackContent::from_value(c) {
                Some(content) => Some(PlaybackStartRequest { interrupt, play_async, content }),
                None => None,
            },
        }
    }
}

impl ApiSupport for PlaybackStartResponse {
    /// An object with the one member `id`.
    open spec fn written(&self, v: Value) -> bool {
        &&& object_of(v, set![key_id()])
        &&& text_of(json::members(v)[key_id()]) == Some(self.id@)
    }

    /// An object with a string `id`.
    open spec fn is_json(&self, v: Value) -> bool {
        text_at(v, key_id()) == Some(self.id@)
    }

    fn to_value(&self) -> (v: Value) {
        let mut map = json::map_new();
        put_text(&mut map, "id", &self.id);
        json::object(map)
    }

    fn from_value(v: &Value) -> (r: Option<PlaybackStartResponse>) {
        match read_text(v, "id") {
            Some(id) => Some(PlaybackStartResponse { id }),
            None => None,
        }
    }
}

impl ApiSupport for PlaybackStopRequest {
    /// An object with the one member `id`.
    open spec fn written(&self, v: Value) -> bool {
        &&& object_of(v, set![key_id()])
        &&& text_of(json::members(v)[key_id()]) == Some(self.id@)
    }

    /// An object with a string `id`.
    open spec fn is_json(&self, v: Value) -> bool {
        text_at(v, key_id()) == Some(self.id@)
    }

    fn to_value(&self) -> (v: Value) {
        let mut map = json::map_new();
        put_text(&mut map, "id", &self.id);
        json::object(map)
    }

    fn from_value(v: &Value) -> (r: Option<PlaybackStopRequest>) {
        match read_text(v, "id") {
            Some(id) => Some(PlaybackStopRequest { id }),
            None => None,
        }
    }
}

impl ApiSupport for PlaybackStopResponse {
    /// An object without members.
    open spec fn written(&self, v: Value) -> bool {
        empty_object(v)
    }

    /// There is nothing to read: the payload may be left out, and the
    /// members of an object are not looked at.
    open spec fn is_json(&self, v: Value) -> bool {
        reads_as_empty(v)
    }

    fn to_value(&self) -> (v: Value) {
        empty_payload()
    }

    fn from_value(v: &Value) -> (r: Option<PlaybackStopResponse>)
        ensures
            r is Some == reads_as_empty(*v),
    {
        if is_empty_payload(v) {
            Some(PlaybackStopResponse {  })
        } else {
            None
        }
    }
}

impl RequestExt for PlaybackStartRequest {
    type Response = PlaybackStartResponse;

    open spec fn method() -> Seq<char> {
        "playback_start"@
    }

    fn request_method_name() -> (name: &'static str) {
        "playback_start"
    }
}

impl RequestExt for PlaybackStopRequest {
    type Response = PlaybackStopResponse;

    open spec fn method() -> Seq<char> {
        "playback_stop"@
    }

    fn request_method_name() -> (name: &'static str) {
        "playback_stop"
    }
}

impl ResponseExt for PlaybackStartResponse {

}

impl ResponseExt for PlaybackStopResponse {

}

} // verus!
