//! JSON documents, held as `serde_json::Value`, and the few operations the client needs on them.
use vstd::prelude::*;

verus! {

#[verifier::external_type_specification]
#[verifier::external_body]
pub struct ExJsonValue(serde_json::Value);

/// The members of `v` when it is a JSON object; `None` for any other kind of value.
pub uninterp spec fn json_members(v: serde_json::Value) -> Option<Map<Seq<char>, serde_json::Value>>;

/// The unsigned integer that `v` holds, if it is a number that fits in `u64`.
pub uninterp spec fn json_u64(v: serde_json::Value) -> Option<u64>;

/// The text that `v` holds, if it is a JSON string.
pub uninterp spec fn json_str(v: serde_json::Value) -> Option<Seq<char>>;

/// The JSON value that the bytes `b` hold, if they are a valid JSON document.
pub uninterp spec fn json_parsed(b: Seq<u8>) -> Option<serde_json::Value>;

/// The boolean that `v` holds, if it is one.
pub uninterp spec fn json_bool(v: serde_json::Value) -> Option<bool>;

/// The member values of `v`, in key order, when it is a JSON object.
pub uninterp spec fn json_values(v: serde_json::Value) -> Option<Seq<serde_json::Value>>;

/// The members of `v` as (key, value) pairs in key order, when it is a JSON object.
pub uninterp spec fn json_pairs(v: serde_json::Value) -> Option<Seq<(Seq<char>, serde_json::Value)>>;

/// The compact JSON text of `v`.
pub uninterp spec fn json_text(v: serde_json::Value) -> Seq<char>;

/// The elements of `v` when it is a JSON array; `None` for any other kind of value.
pub uninterp spec fn json_items(v: serde_json::Value) -> Option<Seq<serde_json::Value>>;

/// The pretty-printed text of `v`.
pub uninterp spec fn json_pretty(v: serde_json::Value) -> Seq<char>;

/// The JSON object whose members are `m` (members are kept sorted by key, so `m` decides it).
pub uninterp spec fn json_object(m: Map<Seq<char>, serde_json::Value>) -> serde_json::Value;

/// The JSON number `n`.
pub uninterp spec fn json_number(n: u64) -> serde_json::Value;

/// The JSON string holding `s`.
pub uninterp spec fn json_string(s: Seq<char>) -> serde_json::Value;

/// Member `key` of `v`, when `v` is an object that has it.
pub open spec fn member(v: serde_json::Value, key: Seq<char>) -> Option<serde_json::Value> {
    match json_members(v) {
        Some(m) => if m.contains_key(key) {
            Some(m[key])
        } else {
            None
        },
        None => None,
    }
}

/// `v[key]` as text, or empty.
pub open spec fn text_or_empty(v: serde_json::Value, key: Seq<char>) -> Seq<char> {
    match member(v, key) {
        Some(x) => match json_str(x) {
            Some(t) => t,
            None => Seq::empty(),
        },
        None => Seq::empty(),
    }
}

/// `v[key]` as an unsigned integer, or 0.
pub open spec fn u64_or_zero(v: serde_json::Value, key: Seq<char>) -> u64 {
    match member(v, key) {
        Some(x) => match json_u64(x) {
            Some(n) => n,
            None => 0,
        },
        None => 0,
    }
}

/// `v[key]` as a boolean, or false.
pub open spec fn bool_or_false(v: serde_json::Value, key: Seq<char>) -> bool {
    match member(v, key) {
        Some(x) => match json_bool(x) {
            Some(b) => b,
            None => false,
        },
        None => false,
    }
}

/// `v[key]` as text, or empty.
pub fn member_text(v: &serde_json::Value, key: &str) -> (r: String)
    ensures
        r@ == text_or_empty(*v, key@),
{
    match json_get(v, key) {
        Some(x) => match json_as_str(x) {
            Some(t) => t,
            None => String::new(),
        },
        None => String::new(),
    }
}

/// `v[key]` as an unsigned integer, or 0.
pub fn member_u64(v: &serde_json::Value, key: &str) -> (r: u64)
    ensures
        r == u64_or_zero(*v, key@),
{
    match json_get(v, key) {
        Some(x) => match json_as_u64(x) {
            Some(n) => n,
            None => 0,
        },
        None => 0,
    }
}

/// `v[key]` as a boolean, or false.
pub fn member_bool(v: &serde_json::Value, key: &str) -> (r: bool)
    ensures
        r == bool_or_false(*v, key@),
{
    match json_get(v, key) {
        Some(x) => match json_as_bool(x) {
            Some(b) => b,
            None => false,
        },
        None => false,
    }
}

/// Relies on `serde_json::Value`'s `Clone`: the copy is the same value.
pub assume_specification[ <serde_json::Value as Clone>::clone ](v: &serde_json::Value) -> (r: serde_json::Value)
    ensures
        r == *v,
;

/// Relies on `serde_json::from_slice`: the document that `b` holds, if valid.
#[verifier::external_body]
pub(crate) fn parse_json(b: &[u8]) -> (r: Option<serde_json::Value>)
    ensures
        r == json_parsed(b@),
{
    serde_json::from_slice::<serde_json::Value>(b).ok()
}

/// Relies on `serde_json::Value::get` with a string key: the member of an object.
#[verifier::external_body]
pub(crate) fn json_get<'a>(v: &'a serde_json::Value, key: &str) -> (r: Option<&'a serde_json::Value>)
    ensures
        match r {
            Some(x) => member(*v, key@) == Some(*x),
            None => member(*v, key@) is None,
        },
{
    v.get(key)
}

/// Relies on `serde_json::Value::as_u64`.
#[verifier::external_body]
pub(crate) fn json_as_u64(v: &serde_json::Value) -> (r: Option<u64>)
    ensures
        r == json_u64(*v),
{
    v.as_u64()
}

/// Relies on `serde_json::Value::as_str`.
#[verifier::external_body]
pub(crate) fn json_as_str(v: &serde_json::Value) -> (r: Option<String>)
    ensures
        match r {
            Some(s) => json_str(*v) == Some(s@),
            None => json_str(*v) is None,
        },
{
    v.as_str().map(|s| s.to_string())
}

/// Relies on `serde_json::Value::as_bool`.
#[verifier::external_body]
pub(crate) fn json_as_bool(v: &serde_json::Value) -> (r: Option<bool>)
    ensures
        r == json_bool(*v),
{
    v.as_bool()
}

/// Relies on `serde_json::Map::iter`: the members of an object as (key, value) pairs, in key
/// order.
#[verifier::external_body]
pub(crate) fn json_object_pairs(v: &serde_json::Value) -> (r: Option<Vec<(String, serde_json::Value)>>)
    ensures
        match r {
            Some(ps) => json_pairs(*v) == Some(ps@.map_values(|p: (String, serde_json::Value)| (p.0@, p.1))),
            None => json_pairs(*v) is None,
        },
{
    if let serde_json::Value::Object(m) = v {
        Some(m.iter().map(|(k, x)| (k.clone(), x.clone())).collect())
    } else {
        None
    }
}

/// Relies on `serde_json::Value`'s `Display`: its compact JSON text.
#[verifier::external_body]
pub(crate) fn json_compact(v: &serde_json::Value) -> (r: String)
    ensures
        r@ == json_text(*v),
{
    v.to_string()
}

/// Relies on `serde_json::Map::values`: the member values of an object, in key order.
#[verifier::external_body]
pub(crate) fn json_object_values(v: &serde_json::Value) -> (r: Option<Vec<serde_json::Value>>)
    ensures
        match r {
            Some(items) => json_values(*v) == Some(items@),
            None => json_values(*v) is None,
        },
{
    if let serde_json::Value::Object(m) = v {
        Some(m.values().cloned().collect())
    } else {
        None
    }
}

/// Relies on `serde_json::Value::as_array`: the elements of an array, in order.
#[verifier::external_body]
pub(crate) fn json_as_array(v: &serde_json::Value) -> (r: Option<Vec<serde_json::Value>>)
    ensures
        match r {
            Some(items) => json_items(*v) == Some(items@),
            None => json_items(*v) is None,
        },
{
    v.as_array().cloned()
}

/// Relies on `serde_json::Value::is_object`; an object is `Value::Object` of its member map.
#[verifier::external_body]
pub(crate) fn json_is_object(v: &serde_json::Value) -> (r: bool)
    ensures
        r == json_members(*v) is Some,
        r ==> *v == json_object(json_members(*v)->0),
{
    v.is_object()
}

/// Relies on `serde_json::Map::insert`: sets member `key` of an object, replacing any earlier one.
#[verifier::external_body]
pub(crate) fn json_insert(v: &mut serde_json::Value, key: &str, x: serde_json::Value)
    requires
        json_members(*old(v)) is Some,
    ensures
        json_members(*final(v)) == Some(json_members(*old(v))->0.insert(key@, x)),
        *final(v) == json_object(json_members(*old(v))->0.insert(key@, x)),
{
    if let serde_json::Value::Object(m) = v {
        m.insert(key.to_string(), x);
    }
}

/// Relies on `serde_json::Value::from(u64)`: a number holding `n`.
#[verifier::external_body]
pub(crate) fn json_of_u64(n: u64) -> (r: serde_json::Value)
    ensures
        r == json_number(n),
        json_u64(r) == Some(n),
        json_members(r) is None,
{
    serde_json::Value::from(n)
}

/// Relies on `serde_json::Value::from(&str)`: a string holding `s`.
#[verifier::external_body]
pub(crate) fn json_of_str(s: &str) -> (r: serde_json::Value)
    ensures
        r == json_string(s@),
        json_str(r) == Some(s@),
        json_members(r) is None,
{
    serde_json::Value::from(s)
}

/// Relies on `serde_json::Map::new`: an object with no members.
#[verifier::external_body]
pub(crate) fn json_empty_object() -> (r: serde_json::Value)
    ensures
        r == json_object(Map::<Seq<char>, serde_json::Value>::empty()),
        json_members(r) == Some(Map::<Seq<char>, serde_json::Value>::empty()),
{
    serde_json::Value::Object(serde_json::Map::new())
}

/// Relies on `serde_json::to_string_pretty`: the pretty-printed text of `v`.
#[verifier::external_body]
pub(crate) fn json_to_pretty(v: &serde_json::Value) -> (r: String)
    ensures
        r@ == json_pretty(*v),
{
    serde_json::to_string_pretty(v).unwrap_or_default()
}

} // verus!
