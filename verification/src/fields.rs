//! Reading and writing the members of JSON objects.
use crate::json;
use crate::json::flag_of;
use crate::json::is_obj;
use crate::json::items_of;
use crate::json::members;
use crate::json::null;
use crate::json::text_of;
use crate::json::unsigned_of;
use serde_json::Value;
use vstd::prelude::*;

verus! {

/// The member under `key`; `None` where it is missing or `null`.
pub open spec fn member_of(v: Value, key: Seq<char>) -> Option<Value> {
    if members(v).contains_key(key) && !null(members(v)[key]) {
        Some(members(v)[key])
    } else {
        None
    }
}

/// The characters of an optional string.
pub open spec fn chars_of(s: Option<String>) -> Option<Seq<char>> {
    match s {
        Some(s) => Some(s@),
        None => None,
    }
}

/// Whether `v` is an object whose members are exactly those of the names
/// `keys`.
pub open spec fn object_of(v: Value, keys: Set<Seq<char>>) -> bool {
    &&& is_obj(v)
    &&& members(v).dom() =~= keys
}

/// Whether `v` is an object without members.
pub open spec fn empty_object(v: Value) -> bool {
    object_of(v, Set::empty())
}

/// Whether `v` reads as a payload without fields: it is nothing at all, or
/// it is an object.
pub open spec fn reads_as_empty(v: Value) -> bool {
    null(v) || is_obj(v)
}

/// Whether `v` reads as a payload without fields.
pub fn is_empty_payload(v: &Value) -> (r: bool)
    ensures
        r == reads_as_empty(*v),
{
    json::is_null(v) || json::as_members(v).is_some()
}

/// A finite set lies within a set of one name just when it is empty or is
/// that set.
pub proof fn lemma_single_member(d: Set<Seq<char>>, k: Seq<char>)
    requires
        d.finite(),
    ensures
        d.subset_of(set![k]) <==> (d.len() == 0 || (d.len() == 1 && d.contains(k))),
{
    if d.subset_of(set![k]) {
        if d.contains(k) {
            assert(d =~= set![k]);
        } else {
            assert(d =~= Set::<Seq<char>>::empty());
        }
    }
    if d.len() == 0 {
        d.lemma_len0_is_empty();
    }
    if d.len() == 1 && d.contains(k) {
        d.remove(k).lemma_len0_is_empty();
        assert forall|e: Seq<char>| d.contains(e) implies set![k].contains(e) by {
            if e != k {
                assert(d.remove(k).contains(e));
            }
        }
    }
}

/// Whether `v` is an object without members.
pub fn is_empty_object(v: &Value) -> (r: bool)
    ensures
        r == empty_object(*v),
{
    match json::as_members(v) {
        Some(m) => {
            let n = json::map_len(m);
            proof {
                if n == 0 {
                    members(*v).dom().lemma_len0_is_empty();
                }
            }
            n == 0
        },
        None => false,
    }
}

/// Whether `v` is an object that has no member but, at most, the one under
/// `key`.
pub fn has_only(v: &Value, key: &str) -> (r: bool)
    ensures
        r == (is_obj(*v) && only_members(*v, set![key@])),
{
    match json::as_members(v) {
        Some(m) => {
            let n = json::map_len(m);
            let there = json::member(v, key).is_some();
            proof {
                lemma_single_member(members(*v).dom(), key@);
            }
            n == 0 || (n == 1 && there)
        },
        None => false,
    }
}

/// Whether every member of `v` has one of the names `keys`.
pub open spec fn only_members(v: Value, keys: Set<Seq<char>>) -> bool {
    members(v).dom().subset_of(keys)
}

/// An object without members.
pub fn empty_payload() -> (v: Value)
    ensures
        empty_object(v),
        !null(v),
{
    json::object(json::map_new())
}

/// The member under `key`, unless it is missing or `null`.
pub fn member<'a>(v: &'a Value, key: &str) -> (r: Option<&'a Value>)
    ensures
        r is Some == member_of(*v, key@) is Some,
        r matches Some(x) ==> member_of(*v, key@) == Some(*x),
{
    match json::member(v, key) {
        Some(x) => if json::is_null(x) {
            None
        } else {
            Some(x)
        },
        None => None,
    }
}

/// The characters of a value that is a string.
pub fn text(v: &Value) -> (r: Option<String>)
    ensures
        chars_of(r) == text_of(*v),
{
    match json::as_text(v) {
        Some(s) => Some(s.to_owned()),
        None => None,
    }
}

/// The string under `key`.
pub open spec fn text_at(v: Value, key: Seq<char>) -> Option<Seq<char>> {
    match member_of(v, key) {
        Some(x) => text_of(x),
        None => None,
    }
}

/// The string under `key`, where there is one.
pub fn read_text(v: &Value, key: &str) -> (r: Option<String>)
    ensures
        chars_of(r) == text_at(*v, key@),
{
    match member(v, key) {
        Some(x) => text(x),
        None => None,
    }
}

/// The integer under `key` that fits `u16`.
pub open spec fn u16_at(v: Value, key: Seq<char>) -> Option<u16> {
    match member_of(v, key) {
        Some(x) => match unsigned_of(x) {
            Some(n) => if n <= u16::MAX {
                Some(n as u16)
            } else {
                None
            },
            None => None,
        },
        None => None,
    }
}

/// The integer under `key`, where there is one that fits `u16`.
pub fn read_u16(v: &Value, key: &str) -> (r: Option<u16>)
    ensures
        r == u16_at(*v, key@),
{
    match member(v, key) {
        Some(x) => match json::as_unsigned(x) {
            Some(n) => if n <= 0xffff {
                Some(n as u16)
            } else {
                None
            },
            None => None,
        },
        None => None,
    }
}

/// The boolean under `key`.
pub open spec fn flag_at(v: Value, key: Seq<char>) -> Option<bool> {
    match member_of(v, key) {
        Some(x) => flag_of(x),
        None => None,
    }
}

/// The strings of a vector, each by its characters.
pub open spec fn lines(v: Seq<String>) -> Seq<Seq<char>> {
    v.map_values(|s: String| s@)
}

/// The strings of an array of strings; `None` where the value is no array or
/// holds something else.
pub open spec fn texts_of(v: Value) -> Option<Seq<Seq<char>>> {
    match items_of(v) {
        Some(items) => if forall|i: int| 0 <= i < items.len() ==> text_of(#[trigger] items[i])
            is Some {
            Some(items.map_values(|x: Value| text_of(x).unwrap()))
        } else {
            None
        },
        None => None,
    }
}

/// The strings of an array of strings.
pub fn texts(v: &Value) -> (r: Option<Vec<String>>)
    ensures
        match r {
            Some(list) => texts_of(*v) == Some(lines(list@)),
            None => texts_of(*v) is None,
        },
{
    match json::as_items(v) {
        None => None,
        Some(items) => {
            let mut out: Vec<String> = Vec::new();
            let mut i: usize = 0;
            while i < items.len()
                invariant
                    i <= items.len(),
                    items_of(*v) == Some(items@),
                    out.len() == i,
                    forall|k: int| 0 <= k < i ==> text_of(#[trigger] items@[k]) == Some(out@[k]@),
                decreases items.len() - i,
            {
                match json::as_text(&items[i]) {
                    Some(s) => {
                        out.push(s.to_owned());
                    },
                    None => {
                        return None;
                    },
                }
                i = i + 1;
            }
            assert(lines(out@) =~= items@.map_values(|x: Value| text_of(x).unwrap()));
            Some(out)
        },
    }
}

/// An array of strings.
pub fn text_array(list: &Vec<String>) -> (v: Value)
    ensures
        texts_of(v) == Some(lines(list@)),
        !null(v),
{
    let mut items: Vec<Value> = Vec::new();
    let mut i: usize = 0;
    while i < list.len()
        invariant
            i <= list.len(),
            items.len() == i,
            forall|k: int| 0 <= k < i ==> text_of(#[trigger] items@[k]) == Some(list@[k]@),
        decreases list.len() - i,
    {
        items.push(json::text(list[i].clone()));
        i = i + 1;
    }
    let v = json::array(items);
    assert(lines(list@) =~= items@.map_values(|x: Value| text_of(x).unwrap()));
    v
}

/// Puts a string under a key.
pub fn put_text(m: &mut serde_json::Map<String, Value>, key: &str, s: &String)
    ensures
        json::entries(*final(m)).dom() == json::entries(*old(m)).dom().insert(key@),
        text_of(json::entries(*final(m))[key@]) == Some(s@),
        !null(json::entries(*final(m))[key@]),
        forall|k: Seq<char>|
            k != key@ && json::entries(*old(m)).contains_key(k) ==> json::entries(*final(m))[k]
                == json::entries(*old(m))[k],
{
    json::map_insert(m, key.to_owned(), json::text(s.clone()));
}

/// Puts a value under a key.
pub fn put(m: &mut serde_json::Map<String, Value>, key: &str, value: Value)
    ensures
        json::entries(*final(m)).dom() == json::entries(*old(m)).dom().insert(key@),
        json::entries(*final(m))[key@] == value,
        forall|k: Seq<char>|
            k != key@ && json::entries(*old(m)).contains_key(k) ==> json::entries(*final(m))[k]
                == json::entries(*old(m))[k],
{
    json::map_insert(m, key.to_owned(), value);
}

} // verus!
