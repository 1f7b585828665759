//! JSON values, as `serde_json` holds, reads and writes them.
//!
//! `Json` is the mathematical value; `json(v)` is the one that a
//! `serde_json::Value` holds. Contracts in this crate speak of `Json`.

use serde_json::Value;
use vstd::prelude::*;

verus! {

/// `serde_json::Value`: its content is `json(v)`.
#[verifier::external_type_specification]
#[verifier::external_body]
pub struct ExValue(serde_json::Value);

/// `serde_json::Map`: its content is `members(m)`.
#[verifier::external_type_specification]
#[verifier::external_body]
#[verifier::reject_recursive_types(K)]
#[verifier::reject_recursive_types(V)]
pub struct ExObject<K, V>(serde_json::Map<K, V>);

/// What an object holds under its keys.
pub type Members = Map<Seq<char>, Json>;

/// A JSON value.
pub enum Json {
    Null,
    Bool(bool),
    /// A number held as a 64-bit integer.
    Int(int),
    /// Any other number, by the text that it is written as.
    Float(Seq<char>),
    Str(Seq<char>),
    Array(Seq<Json>),
    Object(Members),
}

/// The content of a `serde_json::Value`.
pub uninterp spec fn json(v: serde_json::Value) -> Json;

/// The content of a `serde_json::Map`.
pub uninterp spec fn members(m: serde_json::Map<String, serde_json::Value>) -> Members;

/// What `serde_json::from_str::<Value>` reads from a text, `None` where it
/// reports an error.
pub uninterp spec fn json_of_text(text: Seq<char>) -> Option<Json>;

/// What `serde_json::from_slice::<Value>` reads from bytes, `None` where it
/// reports an error.
pub uninterp spec fn json_of_bytes(bytes: Seq<u8>) -> Option<Json>;

/// The compact text that `serde_json` writes for a value.
pub uninterp spec fn json_text(j: Json) -> Seq<char>;

/// The content of an optional value.
pub open spec fn json_opt(v: Option<Value>) -> Option<Json> {
    match v {
        Some(v) => Some(json(v)),
        None => None,
    }
}

/// A value, or `null` where there is none.
pub open spec fn or_null(j: Option<Json>) -> Json {
    match j {
        Some(j) => j,
        None => Json::Null,
    }
}

/// The member `key` of an object; nothing in any other value.
pub open spec fn field(j: Json, key: Seq<char>) -> Option<Json> {
    match j {
        Json::Object(m) => if m.contains_key(key) {
            Some(m[key])
        } else {
            None
        },
        _ => None,
    }
}

/// The element at `i` of an array; nothing in any other value.
pub open spec fn item(j: Json, i: int) -> Option<Json> {
    match j {
        Json::Array(s) => if 0 <= i < s.len() {
            Some(s[i])
        } else {
            None
        },
        _ => None,
    }
}

/// The characters of an optional value that is there and is a string.
pub open spec fn text_of(j: Option<Json>) -> Option<Seq<char>> {
    match j {
        Some(Json::Str(s)) => Some(s),
        _ => None,
    }
}

/// No number but 64-bit integers, and arrays and objects nested at most
/// `depth` deep.
pub open spec fn fits(j: Json, depth: nat) -> bool
    decreases depth,
{
    match j {
        Json::Float(_) => false,
        Json::Array(s) => depth > 0 && forall|i: int|
            0 <= i < s.len() ==> #[trigger] fits(s[i], (depth - 1) as nat),
        Json::Object(m) => depth > 0 && forall|k: Seq<char>| #[trigger]
            m.contains_key(k) ==> fits(m[k], (depth - 1) as nat),
        _ => true,
    }
}

/// What the reader gives back unchanged: it follows arrays and objects 127
/// levels down.
pub open spec fn reads_back(j: Json) -> bool {
    fits(j, 127)
}

/// `Value::as_str`: the characters of a string, nothing for any other value.
pub assume_specification[ serde_json::Value::as_str ](v: &serde_json::Value) -> (r: Option<&str>)
    ensures
        match json(*v) {
            Json::Str(s) => r is Some && r->0@ == s,
            _ => r is None,
        },
;

/// `Value::as_u64`: an integer that a `u64` can hold, nothing for any other value.
pub assume_specification[ serde_json::Value::as_u64 ](v: &serde_json::Value) -> (r: Option<u64>)
    ensures
        match json(*v) {
            Json::Int(n) => r == if 0 <= n <= u64::MAX {
                Some(n as u64)
            } else {
                None
            },
            _ => r is None,
        },
;

/// `Value::as_i64`: an integer that an `i64` can hold, nothing for any other value.
pub assume_specification[ serde_json::Value::as_i64 ](v: &serde_json::Value) -> (r: Option<i64>)
    ensures
        match json(*v) {
            Json::Int(n) => r == if i64::MIN <= n <= i64::MAX {
                Some(n as i64)
            } else {
                None
            },
            _ => r is None,
        },
;

/// `Value::as_bool`: the boolean, nothing for any other value.
pub assume_specification[ serde_json::Value::as_bool ](v: &serde_json::Value) -> (r: Option<bool>)
    ensures
        match json(*v) {
            Json::Bool(b) => r == Some(b),
            _ => r is None,
        },
;

/// `Value::is_null`: whether the value is `null`.
pub assume_specification[ serde_json::Value::is_null ](v: &serde_json::Value) -> (r: bool)
    ensures
        r == (json(*v) == Json::Null),
;

/// `Value::clone`: a value with the same content.
pub assume_specification[ <serde_json::Value as Clone>::clone ](v: &serde_json::Value) -> (r:
    serde_json::Value)
    ensures
        json(r) == json(*v),
;

/// `Map::new`: an object with no members.
pub assume_specification[ serde_json::Map::<String, serde_json::Value>::new ]() -> (r:
    serde_json::Map<String, serde_json::Value>)
    ensures
        members(r) == Members::empty(),
;

/// `Map::insert`: puts the value under the key, in place of one that was there.
pub assume_specification[ serde_json::Map::<String, serde_json::Value>::insert ](
    m: &mut serde_json::Map<String, serde_json::Value>,
    k: String,
    v: serde_json::Value,
) -> (r: Option<serde_json::Value>)
    ensures
        members(*final(m)) == members(*old(m)).insert(k@, json(v)),
        json_opt(r) == (if members(*old(m)).contains_key(k@) {
            Some(members(*old(m))[k@])
        } else {
            None
        }),
;

/// `Value::get` with a string: the member of an object, nothing for any other
/// value.
#[verifier::external_body]
pub(crate) fn get_field<'a>(v: &'a Value, key: &str) -> (r: Option<&'a Value>)
    ensures
        match field(json(*v), key@) {
            Some(j) => r is Some && json(*r->0) == j,
            None => r is None,
        },
{
    v.get(key)
}

/// `Value::get` with a number: the element of an array, nothing for any other
/// value.
#[verifier::external_body]
pub(crate) fn get_item<'a>(v: &'a Value, i: usize) -> (r: Option<&'a Value>)
    ensures
        match item(json(*v), i as int) {
            Some(j) => r is Some && json(*r->0) == j,
            None => r is None,
        },
{
    v.get(i)
}

/// `serde_json::from_str`: the value that the text spells, nothing where it is
/// no JSON text. What it reads is a function of the text, named `json_of_text`.
#[verifier::external_body]
pub(crate) fn read_text(text: &str) -> (r: Option<Value>)
    ensures
        json_opt(r) == json_of_text(text@),
{
    serde_json::from_str::<Value>(text).ok()
}

/// `serde_json::from_slice`: the value that the bytes spell, nothing where they
/// are no JSON text. What it reads is a function of the bytes, named
/// `json_of_bytes`.
#[verifier::external_body]
pub(crate) fn read_bytes(bytes: &[u8]) -> (r: Option<Value>)
    ensures
        json_opt(r) == json_of_bytes(bytes@),
{
    serde_json::from_slice::<Value>(bytes).ok()
}

/// `Value::to_string`: the compact text of the value. It is a function of the
/// content, named `json_text`, and `serde_json::from_str` reads it back to the
/// same content, but for numbers that are no 64-bit integers and for nesting
/// deeper than the reader follows.
#[verifier::external_body]
pub(crate) fn write_text(v: &Value) -> (r: String)
    ensures
        r@ == json_text(json(*v)),
        reads_back(json(*v)) ==> json_of_text(r@) == Some(json(*v)),
{
    v.to_string()
}

/// `Value::Null`.
#[verifier::external_body]
pub(crate) fn null_value() -> (r: Value)
    ensures
        json(r) == Json::Null,
{
    Value::Null
}

/// `Value::Bool` with the given boolean.
#[verifier::external_body]
pub(crate) fn bool_value(b: bool) -> (r: Value)
    ensures
        json(r) == Json::Bool(b),
{
    Value::Bool(b)
}

/// `Value::String` with the given characters.
#[verifier::external_body]
pub(crate) fn string_value(s: String) -> (r: Value)
    ensures
        json(r) == Json::Str(s@),
{
    Value::String(s)
}

/// `Value::from` with a `u64`: that integer.
#[verifier::external_body]
pub(crate) fn u64_value(n: u64) -> (r: Value)
    ensures
        json(r) == Json::Int(n as int),
{
    Value::from(n)
}

/// `Value::from` with an `i64`: that integer.
#[verifier::external_body]
pub(crate) fn i64_value(n: i64) -> (r: Value)
    ensures
        json(r) == Json::Int(n as int),
{
    Value::from(n)
}

/// `Value::Object` with the given members.
#[verifier::external_body]
pub(crate) fn object_value(m: serde_json::Map<String, Value>) -> (r: Value)
    ensures
        json(r) == Json::Object(members(m)),
{
    Value::Object(m)
}

/// The characters of the member `key`, where it is a string.
pub fn str_field<'a>(v: &'a Value, key: &str) -> (r: Option<&'a str>)
    ensures
        match text_of(field(json(*v), key@)) {
            Some(s) => r is Some && r->0@ == s,
            None => r is None,
        },
{
    match get_field(v, key) {
        Some(f) => f.as_str(),
        None => None,
    }
}

/// The characters of the first element, where it is a string.
pub fn str_first(v: &Value) -> (r: Option<&str>)
    ensures
        match text_of(item(json(*v), 0)) {
            Some(s) => r is Some && r->0@ == s,
            None => r is None,
        },
{
    match get_item(v, 0) {
        Some(f) => f.as_str(),
        None => None,
    }
}

} // verus!
