//! The header that every control message carries.
use vstd::prelude::*;

verus! {

/// The number of characters of a freshly minted message id.
pub const ID_LENGTH: usize = 21;

/// Identity and time of one control message.
#[derive(Debug)]
pub struct Header {
    /// Message id, unique within a session with overwhelming probability.
    pub id: String,
    /// Milliseconds since the Unix epoch.
    pub timestamp: i64,
}

/// What a header holds, as mathematical values.
pub struct HeaderView {
    pub id: Seq<char>,
    pub timestamp: i64,
}

impl View for Header {
    type V = HeaderView;

    open spec fn view(&self) -> HeaderView {
        HeaderView { id: self.id@, timestamp: self.timestamp }
    }
}

/// Whether a character may stand in a minted id: a letter or a digit of
/// ASCII, `_` or `-`.
pub open spec fn id_char(c: char) -> bool {
    ||| 'a' <= c <= 'z'
    ||| 'A' <= c <= 'Z'
    ||| '0' <= c <= '9'
    ||| c == '_'
    ||| c == '-'
}

/// Whether a text has the form of a minted id: 21 characters, each one that
/// may stand in an id.
pub open spec fn id_form(id: Seq<char>) -> bool {
    &&& id.len() == ID_LENGTH
    &&& forall|i: int| 0 <= i < id.len() ==> id_char(#[trigger] id[i])
}

/// Whether a header has the form of a minted one: its id has the form of a
/// minted id, and its time is not before the epoch.
pub open spec fn minted(h: HeaderView) -> bool {
    &&& id_form(h.id)
    &&& h.timestamp >= 0
}

/// `nanoid::format` with the generator `nanoid::rngs::default`, the alphabet
/// `nanoid::alphabet::SAFE` and 21 characters, which is what the crate's
/// `nanoid!()` stands for. The characters are drawn at random from the 64 of
/// the alphabet: what holds of every outcome is their number and that each
/// is one of these. The generator panics where the system has no entropy to
/// give.
#[verifier::external_body]
fn random_id() -> (r: String)
    ensures
        id_form(r@),
{
    nanoid::format(nanoid::rngs::default, &nanoid::alphabet::SAFE, 21)
}

/// `chrono::Utc::now` followed by `DateTime::timestamp_millis`: the wall
/// clock, in milliseconds since the Unix epoch. `chrono` takes the time as a
/// duration since the epoch and panics where the system clock stands before
/// 1970, so what it returns is never negative.
#[verifier::external_body]
fn clock_millis() -> (r: i64)
    ensures
        r >= 0,
{
    chrono::Utc::now().timestamp_millis()
}

impl Header {
    /// A header of the given id and time.
    pub fn new(id: String, timestamp: i64) -> (h: Header)
        ensures
            h@ == (HeaderView { id: id@, timestamp }),
    {
        Header { id, timestamp }
    }

    /// A header with a random id and the present time.
    pub fn mint() -> (h: Header)
        ensures
            minted(h@),
    {
        Header { id: random_id(), timestamp: clock_millis() }
    }
}

impl Clone for Header {
    fn clone(&self) -> (h: Header)
        ensures
            h@ == self@,
    {
        Header { id: self.id.clone(), timestamp: self.timestamp }
    }
}

impl Default for Header {
    /// A freshly minted header: see `Header::mint`.
    fn default() -> (h: Header)
        ensures
            minted(h@),
    {
        Header::mint()
    }
}

} // verus!
