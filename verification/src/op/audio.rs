//! Audio streams: codecs, directions, starting and stopping.
use crate::ext::ApiSupport;
use crate::fields::empty_object;
use crate::fields::empty_payload;
use crate::fields::is_empty_payload;
use crate::fields::reads_as_empty;
use crate::fields::member;
use crate::fields::lines;
use crate::fields::member_of;
use crate::fields::object_of;
use crate::fields::text_array;
use crate::fields::texts;
use crate::fields::texts_of;
use crate::tags::lemma_unique_contains;
use crate::tags::lemma_unique_of_distinct;
use crate::tags::unique;
use crate::fields::put;
use crate::json;
use crate::json::same_text;
use crate::json::text_of;
use crate::request::RequestExt;
use crate::response::ResponseExt;
use serde_json::Value;
use vstd::prelude::*;

verus! {

/// How audio samples are coded.
#[derive(Debug, Clone, Copy, PartialEq, Eq, Structural, Hash)]
pub enum AudioCodec {
    /// Signed linear samples.
    SLIN,
    /// A-law samples.
    ALAW,
}

/// Which way audio flows, as seen from the side that owns the session.
#[derive(Debug, Clone, Copy, PartialEq, Eq, Structural)]
pub enum AudioDirection {
    /// Both ways.
    Both,
    /// Towards the owner of the session.
    In,
    /// Away from the owner of the session.
    Out,
}

impl Default for AudioDirection {
    fn default() -> (d: AudioDirection)
        ensures
            d == AudioDirection::Both,
    {
        AudioDirection::Both
    }
}

impl AudioCodec {
    /// The word that stands for the codec on the wire.
    pub open spec fn word(self) -> Seq<char> {
        match self {
            AudioCodec::SLIN => "slin"@,
            AudioCodec::ALAW => "alaw"@,
        }
    }

    /// The word that stands for the codec on the wire.
    pub fn as_str(&self) -> (w: &'static str)
        ensures
            w@ == self.word(),
    {
        match self {
            AudioCodec::SLIN => "slin",
            AudioCodec::ALAW => "alaw",
        }
    }

    /// The codec that a word stands for.
    pub fn from_word(w: &str) -> (r: Option<AudioCodec>)
        ensures
            r matches Some(c) ==> c.word() == w@,
            r is None ==> forall|c: AudioCodec| #[trigger] c.word() != w@,
    {
        if same_text(w, "slin") {
            Some(AudioCodec::SLIN)
        } else if same_text(w, "alaw") {
            Some(AudioCodec::ALAW)
        } else {
            None
        }
    }
}

impl AudioDirection {
    /// The word that stands for the direction on the wire.
    pub open spec fn word(self) -> Seq<char> {
        match self {
            AudioDirection::Both => "both"@,
            AudioDirection::In => "in"@,
            AudioDirection::Out => "out"@,
        }
    }

    /// The word that stands for the direction on the wire.
    pub fn as_str(&self) -> (w: &'static str)
        ensures
            w@ == self.word(),
    {
        match self {
            AudioDirection::Both => "both",
            AudioDirection::In => "in",
            AudioDirection::Out => "out",
        }
    }

    /// The direction that a word stands for.
    pub fn from_word(w: &str) -> (r: Option<AudioDirection>)
        ensures
            r matches Some(d) ==> d.word() == w@,
            r is None ==> forall|d: AudioDirection| #[trigger] d.word() != w@,
    {
        if same_text(w, "both") {
            Some(AudioDirection::Both)
        } else if same_text(w, "in") {
            Some(AudioDirection::In)
        } else if same_text(w, "out") {
            Some(AudioDirection::Out)
        } else {
            None
        }
    }
}

/// The words of a list of codecs.
pub open spec fn codec_words(codecs: Seq<AudioCodec>) -> Seq<Seq<char>> {
    codecs.map_values(|c: AudioCodec| c.word())
}

/// Different codecs have different words, so a list of codecs and the list
/// of its words hold the same things in the same places.
pub proof fn lemma_codec_words(codecs: Seq<AudioCodec>, c: AudioCodec)
    ensures
        codec_words(codecs).contains(c.word()) == codecs.contains(c),
        codecs.no_duplicates() ==> codec_words(codecs).no_duplicates(),
{
    reveal_strlit("slin");
    reveal_strlit("alaw");
    assert(AudioCodec::SLIN.word()[0] != AudioCodec::ALAW.word()[0]);
    let words = codec_words(codecs);
    if words.contains(c.word()) {
        let k = choose|k: int| 0 <= k < words.len() && words[k] == c.word();
        assert(codecs[k].word() == c.word());
        assert(codecs[k] == c);
    }
    if codecs.contains(c) {
        let k = choose|k: int| 0 <= k < codecs.len() && codecs[k] == c;
        assert(words[k] == c.word());
    }
    if codecs.no_duplicates() {
        assert forall|a: int, b: int|
            0 <= a < words.len() && 0 <= b < words.len() && a != b implies words[a]
            != words[b] by {
            assert(codecs[a] != codecs[b]);
            assert(words[a] == codecs[a].word());
            assert(words[b] == codecs[b].word());
        }
    }
}

/// What a side can do with audio: a direction, and the codecs that it
/// supports, in the order of its preference, each named once.
#[derive(Debug)]
pub struct AudioCapabilities {
    direction: AudioDirection,
    codecs: Vec<AudioCodec>,
}

pub open spec fn key_direction() -> Seq<char> {
    "direction"@
}

pub open spec fn key_codecs() -> Seq<char> {
    "codecs"@
}

impl AudioCapabilities {
    #[verifier::type_invariant]
    spec fn inv(self) -> bool {
        self.codecs@.no_duplicates()
    }

    /// The direction.
    pub closed spec fn way(self) -> AudioDirection {
        self.direction
    }

    /// The codecs, in the order of preference.
    pub closed spec fn list(self) -> Seq<AudioCodec> {
        self.codecs@
    }

    /// Capabilities of the given direction that name no codec yet.
    pub fn new(direction: AudioDirection) -> (c: AudioCapabilities)
        ensures
            c.way() == direction,
            c.list() == Seq::<AudioCodec>::empty(),
    {
        AudioCapabilities { direction, codecs: Vec::new() }
    }

    /// The direction.
    pub fn direction(&self) -> (d: AudioDirection)
        ensures
            d == self.way(),
    {
        self.direction
    }

    /// The codecs, in the order of preference. None is named twice.
    pub fn codecs(&self) -> (list: &Vec<AudioCodec>)
        ensures
            list@ == self.list(),
            list@.no_duplicates(),
    {
        proof {
            use_type_invariant(self);
        }
        &self.codecs
    }

    /// Whether the list names the codec.
    pub fn supports(&self, codec: AudioCodec) -> (r: bool)
        ensures
            r == self.list().contains(codec),
    {
        let mut i: usize = 0;
        while i < self.codecs.len()
            invariant
                i <= self.codecs.len(),
                forall|k: int| 0 <= k < i ==> self.codecs@[k] != codec,
            decreases self.codecs.len() - i,
        {
            if self.codecs[i] == codec {
                return true;
            }
            i = i + 1;
        }
        false
    }

    /// Names a codec at the end of the list, unless the list names it
    /// already. Returns whether the codec was new.
    pub fn insert(&mut self, codec: AudioCodec) -> (added: bool)
        ensures
            final(self).way() == old(self).way(),
            added == !old(self).list().contains(codec),
            final(self).list() == if added {
                old(self).list().push(codec)
            } else {
                old(self).list()
            },
            final(self).list().no_duplicates(),
    {
        proof {
            use_type_invariant(&*self);
        }
        if self.supports(codec) {
            false
        } else {
            let ghost before = self.codecs@;
            let mut codecs = Vec::new();
            std::mem::swap(&mut codecs, &mut self.codecs);
            codecs.push(codec);
            proof {
                assert forall|a: int, b: int|
                    0 <= a < codecs@.len() && 0 <= b < codecs@.len() && a != b implies codecs@[a]
                    != codecs@[b] by {
                    if a < before.len() && b < before.len() {
                    } else {
                        let c = if a < before.len() {
                            a
                        } else {
                            b
                        };
                        assert(before.contains(before[c]));
                    }
                }
            }
            std::mem::swap(&mut codecs, &mut self.codecs);
            true
        }
    }

    /// Whether `v` is the JSON form of these capabilities: an object with
    /// the members `direction`, the word of the direction, and `codecs`, the
    /// array of the words of the codecs in their order.
    pub open spec fn written(self, v: Value) -> bool {
        let f = json::members(v);
        &&& object_of(v, set![key_direction(), key_codecs()])
        &&& text_of(f[key_direction()]) == Some(self.way().word())
        &&& texts_of(f[key_codecs()]) == Some(codec_words(self.list()))
    }

    /// Whether `v` reads as these capabilities: an object with the word of
    /// the direction under `direction` and, under `codecs`, an array of
    /// words of codecs, of which the codecs are the distinct ones in their
    /// order.
    pub open spec fn is_json(self, v: Value) -> bool {
        &&& member_of(v, key_direction()) matches Some(d)
        &&& text_of(d) == Some(self.way().word())
        &&& member_of(v, key_codecs()) matches Some(c)
        &&& texts_of(c) matches Some(words)
        &&& unique(words) == codec_words(self.list())
    }

    /// The JSON form of these capabilities.
    pub fn to_value(&self) -> (v: Value)
        ensures
            self.written(v),
            self.is_json(v),
            !json::null(v),
    {
        proof {
            use_type_invariant(self);
            reveal_strlit("direction");
            reveal_strlit("codecs");
            assert(key_direction()[0] == 'd');
            assert(key_codecs()[0] == 'c');
            lemma_codec_words(self.codecs@, AudioCodec::SLIN);
            lemma_unique_of_distinct(codec_words(self.codecs@));
        }
        let mut words: Vec<String> = Vec::new();
        let mut i: usize = 0;
        while i < self.codecs.len()
            invariant
                i <= self.codecs.len(),
                words.len() == i,
                forall|k: int| 0 <= k < i ==> (#[trigger] words@[k])@ == self.codecs@[k].word(),
            decreases self.codecs.len() - i,
        {
            words.push(self.codecs[i].as_str().to_owned());
            i = i + 1;
        }
        assert(lines(words@) =~= codec_words(self.codecs@));
        let mut map = json::map_new();
        put(&mut map, "direction", json::text(self.direction.as_str().to_owned()));
        put(&mut map, "codecs", text_array(&words));
        json::object(map)
    }

    /// The capabilities that a JSON value reads as; `None` where it reads as
    /// none. A codec that is named more than once counts where it is named
    /// first.
    pub fn from_value(v: &Value) -> (r: Option<AudioCapabilities>)
        ensures
            r matches Some(x) ==> x.is_json(*v),
            r is None ==> forall|x: AudioCapabilities| !#[trigger] x.is_json(*v),
    {
        let direction = match member(v, "direction") {
            None => {
                return None;
            },
            Some(d) => match json::as_text(d) {
                None => {
                    return None;
                },
                Some(word) => match AudioDirection::from_word(word) {
                    Some(direction) => direction,
                    None => {
                        return None;
                    },
                },
            },
        };
        let words = match member(v, "codecs") {
            None => {
                return None;
            },
            Some(c) => match texts(c) {
                None => {
                    return None;
                },
                Some(words) => words,
            },
        };
        let mut caps = AudioCapabilities::new(direction);
        let mut i: usize = 0;
        while i < words.len()
            invariant
                i <= words.len(),
                caps.way() == direction,
                member_of(*v, key_codecs()) matches Some(c) && texts_of(c) == Some(lines(words@)),
                codec_words(caps.list()) == unique(lines(words@).take(i as int)),
            decreases words.len() - i,
        {
            let ghost head = lines(words@).take(i as int);
            let ghost next = lines(words@).take(i + 1);
            proof {
                assert(next.drop_last() =~= head);
                assert(next.last() == words@[i as int]@);
            }
            match AudioCodec::from_word(words[i].as_str()) {
                Some(c) => {
                    let ghost before = caps.list();
                    proof {
                        lemma_codec_words(before, c);
                    }
                    let _ = caps.insert(c);
                    proof {
                        assert(codec_words(before.push(c)) =~= codec_words(before).push(c.word()));
                    }
                },
                None => {
                    assert forall|x: AudioCapabilities| !#[trigger] x.is_json(*v) by {
                        if x.is_json(*v) {
                            let all = lines(words@);
                            let w = all[i as int];
                            assert(all.contains(w));
                            lemma_unique_contains(all, w);
                            let k = choose|k: int|
                                0 <= k < codec_words(x.list()).len() && codec_words(x.list())[k]
                                    == w;
                            assert(x.list()[k].word() == w);
                        }
                    }
                    return None;
                },
            }
            i = i + 1;
        }
        assert(lines(words@).take(words.len() as int) =~= lines(words@));
        Some(caps)
    }
}

/// Asks the peer to start streaming audio.
#[derive(Debug, Clone, Copy, PartialEq, Eq, Structural)]
pub struct AudioStreamStartRequest {
    /// The codec to stream in; the choice is the peer's where none is named.
    pub codec: Option<AudioCodec>,
}

/// The stream has started. The payload is an empty object.
#[derive(Debug, Clone, Copy, PartialEq, Eq, Structural)]
pub struct AudioStreamStartResponse;

/// Asks the peer to stop streaming audio. The payload is an empty object.
#[derive(Debug, Clone, Copy, PartialEq, Eq, Structural)]
pub struct AudioStreamStopRequest;

/// The stream has stopped. The payload is an empty object.
#[derive(Debug, Clone, Copy, PartialEq, Eq, Structural)]
pub struct AudioStreamStopResponse;

pub open spec fn key_codec() -> Seq<char> {
    "codec"@
}

impl ApiSupport for AudioStreamStartRequest {
    /// An object with the one member `codec`: the word of the codec, or
    /// `null` where no codec is named.
    open spec fn written(&self, v: Value) -> bool {
        let c = json::members(v)[key_codec()];
        &&& object_of(v, set![key_codec()])
        &&& match self.codec {
            Some(codec) => text_of(c) == Some(codec.word()),
            None => json::null(c),
        }
    }

    /// An object whose member `codec` is the word of the codec, or is
    /// missing or `null` where no codec is named.
    open spec fn is_json(&self, v: Value) -> bool {
        match self.codec {
            Some(c) => member_of(v, key_codec()) matches Some(w) && text_of(w) == Some(c.word()),
            None => member_of(v, key_codec()) is None,
        }
    }

    fn to_value(&self) -> (v: Value) {
        let mut map = json::map_new();
        let codec = match self.codec {
            Some(c) => json::text(c.as_str().to_owned()),
            None => json::null_value(),
        };
        put(&mut map, "codec", codec);
        json::object(map)
    }

    fn from_value(v: &Value) -> (r: Option<AudioStreamStartRequest>) {
        match member(v, "codec") {
            None => Some(AudioStreamStartRequest { codec: None }),
            Some(w) => match json::as_text(w) {
                None => None,
                Some(word) => match AudioCodec::from_word(word) {
                    Some(c) => Some(AudioStreamStartRequest { codec: Some(c) }),
                    None => None,
                },
            },
        }
    }
}

impl ApiSupport for AudioStreamStartResponse {
    /// An object without members.
    open spec fn written(&self, v: Value) -> bool {
        empty_object(v)
    }

    /// There is nothing to read: the payload may be left out, and the
    /// members of an object are not looked at.
    open spec fn is_json(&self, v: Value) -> bool {
        reads_as_empty(v)
    }

    fn to_value(&self) -> (v: Value) {
        empty_payload()
    }

    fn from_value(v: &Value) -> (r: Option<AudioStreamStartResponse>)
        ensures
            r is Some == reads_as_empty(*v),
    {
        if is_empty_payload(v) {
            Some(AudioStreamStartResponse)
        } else {
            None
        }
    }
}

impl ApiSupport for AudioStreamStopRequest {
    /// An object without members.
    open spec fn written(&self, v: Value) -> bool {
        empty_object(v)
    }

    /// There is nothing to read: the payload may be left out, and the
    /// members of an object are not looked at.
    open spec fn is_json(&self, v: Value) -> bool {
        reads_as_empty(v)
    }

    fn to_value(&self) -> (v: Value) {
        empty_payload()
    }

    fn from_value(v: &Value) -> (r: Option<AudioStreamStopRequest>)
        ensures
            r is Some == reads_as_empty(*v),
    {
        if is_empty_payload(v) {
            Some(AudioStreamStopRequest)
        } else {
            None
        }
    }
}

impl ApiSupport for AudioStreamStopResponse {
    /// An object without members.
    open spec fn written(&self, v: Value) -> bool {
        empty_object(v)
    }

    /// There is nothing to read: the payload may be left out, and the
    /// members of an object are not looked at.
    open spec fn is_json(&self, v: Value) -> bool {
        reads_as_empty(v)
    }

    fn to_value(&self) -> (v: Value) {
        empty_payload()
    }

    fn from_value(v: &Value) -> (r: Option<AudioStreamStopResponse>)
        ensures
            r is Some == reads_as_empty(*v),
    {
        if is_empty_payload(v) {
            Some(AudioStreamStopResponse)
        } else {
            None
        }
    }
}

impl RequestExt for AudioStreamStartRequest {
    type Response = AudioStreamStartResponse;

    open spec fn method() -> Seq<char> {
        "audio_stream_start"@
    }

    fn request_method_name() -> (name: &'static str) {
        "audio_stream_start"
    }
}

impl RequestExt for AudioStreamStopRequest {
    type Response = AudioStreamStopResponse;

    open spec fn method() -> Seq<char> {
        "audio_stream_stop"@
    }

    fn request_method_name() -> (name: &'static str) {
        "audio_stream_stop"
    }
}

impl ResponseExt for AudioStreamStartResponse {

}

impl ResponseExt for AudioStreamStopResponse {

}

} // verus!
