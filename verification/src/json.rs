//! JSON values: the payloads of control messages and the objects that carry
//! them on the wire.
//!
//! A value is a `serde_json::Value`. To the verifier such a value is opaque:
//! all that is known of it is what the functions of this module state. Each of
//! them makes one call into `serde_json`, and its contract is taken on trust
//! from that crate's source. What a value holds is named by the spec functions
//! below; they have no body, since only `serde_json` computes them.
use serde_json::Value;
use vstd::prelude::*;

verus! {

/// `serde_json::Value`: any JSON value.
#[verifier::external_type_specification]
#[verifier::external_body]
pub struct ExValue(serde_json::Value);

/// `serde_json::Error`: why a text is not JSON.
#[verifier::external_type_specification]
#[verifier::external_body]
pub struct ExJsonError(serde_json::Error);

/// `serde_json::Map`: the members of a JSON object under construction.
#[verifier::external_type_specification]
#[verifier::external_body]
#[verifier::reject_recursive_types(K)]
#[verifier::reject_recursive_types(V)]
pub struct ExJsonMap<K, V>(serde_json::Map<K, V>);

/// The members of a JSON object, by key. A value that is no object has none.
pub uninterp spec fn members(v: Value) -> Map<Seq<char>, Value>;

/// The characters of a JSON string; `None` for any other value.
pub uninterp spec fn text_of(v: Value) -> Option<Seq<char>>;

/// A JSON integer that fits `i64`; `None` for any other value.
pub uninterp spec fn signed_of(v: Value) -> Option<i64>;

/// A JSON integer that fits `u64`; `None` for any other value.
pub uninterp spec fn unsigned_of(v: Value) -> Option<u64>;

/// A JSON boolean; `None` for any other value.
pub uninterp spec fn flag_of(v: Value) -> Option<bool>;

/// The elements of a JSON array, in order; `None` for any other value.
pub uninterp spec fn items_of(v: Value) -> Option<Seq<Value>>;

/// How deep a value nests. A value is a finite tree, so what an array holds
/// nests less deep than the array; recursion over values rests on this.
pub uninterp spec fn depth(v: Value) -> nat;

/// Whether the value is JSON `null`.
pub uninterp spec fn null(v: Value) -> bool;

/// Whether the value is a JSON object.
pub uninterp spec fn is_obj(v: Value) -> bool;

/// The compact JSON text of a value.
pub uninterp spec fn rendered(v: Value) -> Seq<char>;

/// The value that a text denotes; `None` where the text is not JSON.
pub uninterp spec fn parsed(text: Seq<char>) -> Option<Value>;

/// The entries of a map under construction, by key.
pub uninterp spec fn entries(m: serde_json::Map<String, Value>) -> Map<Seq<char>, Value>;

/// `serde_json::from_str` at `Value`: reads one JSON text. The result is a
/// function of the text alone; this is the function `parsed`.
#[verifier::external_body]
pub(crate) fn parse(text: &str) -> (r: Result<Value, serde_json::Error>)
    ensures
        r matches Ok(v) ==> parsed(text@) == Some(v),
        r is Err ==> parsed(text@) is None,
{
    serde_json::from_str::<Value>(text)
}

/// `Display` for `Value`, through `to_string`: the compact text of a value,
/// which is the function `rendered`.
#[verifier::external_body]
pub(crate) fn render(v: &Value) -> (r: String)
    ensures
        r@ == rendered(*v),
{
    v.to_string()
}

/// `Value::get` with a string index: the member under `key` where the value is
/// an object that has one, `None` otherwise.
#[verifier::external_body]
pub(crate) fn member<'a>(v: &'a Value, key: &str) -> (r: Option<&'a Value>)
    ensures
        r == (if members(*v).contains_key(key@) { Some(&members(*v)[key@]) } else { None }),
{
    v.get(key)
}

/// `Value::as_str`: the string's characters where the value is a string.
#[verifier::external_body]
pub(crate) fn as_text<'a>(v: &'a Value) -> (r: Option<&'a str>)
    ensures
        r is Some == text_of(*v) is Some,
        r matches Some(s) ==> text_of(*v) == Some(s@),
{
    v.as_str()
}

/// `Value::as_i64`: the integer where the value is one that fits `i64`.
#[verifier::external_body]
pub(crate) fn as_signed(v: &Value) -> (r: Option<i64>)
    ensures
        r == signed_of(*v),
{
    v.as_i64()
}

/// `Value::as_u64`: the integer where the value is one that fits `u64`.
#[verifier::external_body]
pub(crate) fn as_unsigned(v: &Value) -> (r: Option<u64>)
    ensures
        r == unsigned_of(*v),
{
    v.as_u64()
}

/// `Value::as_bool`: the boolean where the value is one.
#[verifier::external_body]
pub(crate) fn as_flag(v: &Value) -> (r: Option<bool>)
    ensures
        r == flag_of(*v),
{
    v.as_bool()
}

/// `Value::as_array`: the elements where the value is an array. A value is a
/// finite tree, so each element nests less deep than the array.
#[verifier::external_body]
pub(crate) fn as_items<'a>(v: &'a Value) -> (r: Option<&'a Vec<Value>>)
    ensures
        r is Some == items_of(*v) is Some,
        r matches Some(items) ==> items_of(*v) == Some(items@),
        r matches Some(items) ==> forall|i: int|
            0 <= i < items@.len() ==> depth(#[trigger] items@[i]) < depth(*v),
{
    v.as_array()
}

/// `Value::is_null`.
#[verifier::external_body]
pub(crate) fn is_null(v: &Value) -> (r: bool)
    ensures
        r == null(*v),
{
    v.is_null()
}

/// `Clone` for `Value`: an equal value.
#[verifier::external_body]
pub(crate) fn copy(v: &Value) -> (r: Value)
    ensures
        r == *v,
{
    v.clone()
}

/// The variant `Value::Null`.
#[verifier::external_body]
pub(crate) fn null_value() -> (r: Value)
    ensures
        null(r),
{
    Value::Null
}

/// `From<String>` for `Value`: a JSON string of the same characters, which
/// is not null.
#[verifier::external_body]
pub(crate) fn text(s: String) -> (r: Value)
    ensures
        text_of(r) == Some(s@),
        !null(r),
{
    Value::from(s)
}

/// `From<i64>` for `Value`: a JSON integer, which `as_i64` reads back.
#[verifier::external_body]
pub(crate) fn signed(n: i64) -> (r: Value)
    ensures
        signed_of(r) == Some(n),
{
    Value::from(n)
}

/// `From<u64>` for `Value`: a JSON integer, which `as_u64` reads back.
#[verifier::external_body]
pub(crate) fn unsigned(n: u64) -> (r: Value)
    ensures
        unsigned_of(r) == Some(n),
        !null(r),
{
    Value::from(n)
}

/// `From<bool>` for `Value`: a JSON boolean.
#[verifier::external_body]
pub(crate) fn flag(b: bool) -> (r: Value)
    ensures
        flag_of(r) == Some(b),
        !null(r),
{
    Value::from(b)
}

/// The variant `Value::Array`: an array of the given elements, in their order.
#[verifier::external_body]
pub(crate) fn array(items: Vec<Value>) -> (r: Value)
    ensures
        items_of(r) == Some(items@),
        !null(r),
        members(r).dom() == Set::<Seq<char>>::empty(),
{
    Value::Array(items)
}

/// The variant `Value::Object`: an object whose members are the map's entries.
#[verifier::external_body]
pub(crate) fn object(m: serde_json::Map<String, Value>) -> (r: Value)
    ensures
        is_obj(r),
        members(r) == entries(m),
        !null(r),
        text_of(r) is None,
{
    Value::Object(m)
}

/// `Value::as_object`: the map of the members where the value is an object.
#[verifier::external_body]
pub(crate) fn as_members<'a>(v: &'a Value) -> (r: Option<&'a serde_json::Map<String, Value>>)
    ensures
        r is Some == is_obj(*v),
        r matches Some(m) ==> entries(*m) == members(*v),
{
    v.as_object()
}

/// Whether a set of names is finite and has `n` elements.
pub open spec fn counts(names: Set<Seq<char>>, n: usize) -> bool {
    names.finite() && names.len() == n
}

/// `Map::len`: the number of entries, which is finite.
#[verifier::external_body]
pub(crate) fn map_len(m: &serde_json::Map<String, Value>) -> (r: usize)
    ensures
        counts(entries(*m).dom(), r),
{
    m.len()
}

/// `Clone` for `Map`: a map of the same entries.
#[verifier::external_body]
pub(crate) fn copy_map(m: &serde_json::Map<String, Value>) -> (r: serde_json::Map<String, Value>)
    ensures
        entries(r) == entries(*m),
{
    m.clone()
}

/// `Map::new`: a map without entries.
#[verifier::external_body]
pub(crate) fn map_new() -> (r: serde_json::Map<String, Value>)
    ensures
        entries(r).dom() == Set::<Seq<char>>::empty(),
{
    serde_json::Map::new()
}

/// `Map::insert`: the value stands under the key afterwards, whether or not
/// the key was there before; the other entries stay.
#[verifier::external_body]
pub(crate) fn map_insert(m: &mut serde_json::Map<String, Value>, key: String, value: Value)
    ensures
        entries(*final(m)) == entries(*old(m)).insert(key@, value),
{
    m.insert(key, value);
}

/// Whether two strings hold the same characters.
pub(crate) fn same_text(a: &str, b: &str) -> (r: bool)
    ensures
        r == (a@ == b@),
{
    let x = a.to_owned();
    let y = b.to_owned();
    x == y
}

} // verus!
