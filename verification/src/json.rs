//! A mathematical model of JSON documents, and the trusted bridge to the
//! JSON library that parses and navigates them.
//!
//! The library's decoding logic never inspects a `serde_json::Value`
//! directly: every observation goes through one of the small trusted
//! functions below, whose contracts are stated over the model.

use vstd::prelude::*;

verus! {

#[verifier::external_type_specification]
#[verifier::external_body]
pub struct ExValue(serde_json::Value);

/// Shape of a JSON document. Numbers are not modelled beyond their presence:
/// no decision of this library reads a numeric payload.
pub ghost enum Json {
    Null,
    Bool(bool),
    Num,
    Str(Seq<char>),
    Arr(Seq<Json>),
    Obj(Map<Seq<char>, Json>),
}

/// The document held by a parsed `serde_json::Value`.
pub uninterp spec fn json_model(v: serde_json::Value) -> Json;

/// The document that JSON text parses to, if the text is well-formed.
pub uninterp spec fn json_of(s: Seq<char>) -> Option<Json>;

/// The member of an object under a key.
pub open spec fn spec_field(j: Json, key: Seq<char>) -> Option<Json> {
    match j {
        Json::Obj(m) => if m.contains_key(key) {
            Some(m[key])
        } else {
            None
        },
        _ => None,
    }
}

/// The string payload of an object member, when the member is a string.
pub open spec fn spec_str_field(j: Json, key: Seq<char>) -> Option<Seq<char>> {
    match spec_field(j, key) {
        Some(Json::Str(s)) => Some(s),
        _ => None,
    }
}

/// Relies on `serde_json::from_str::<serde_json::Value>`: well-formed JSON
/// text parses to its document tree, anything else is rejected.
#[verifier::external_body]
pub fn json_parse(s: &str) -> (r: Option<serde_json::Value>)
    ensures
        r is Some <==> json_of(s@) is Some,
        r matches Some(v) ==> Some(json_model(v)) == json_of(s@),
{
    serde_json::from_str::<serde_json::Value>(s).ok()
}

/// Relies on `serde_json::Value::get` with a string index: on an object it
/// looks the key up, on every other value it returns nothing.
#[verifier::external_body]
pub fn json_field<'a>(v: &'a serde_json::Value, key: &str) -> (r: Option<&'a serde_json::Value>)
    ensures
        (match json_model(*v) {
            Json::Obj(m) => {
                &&& (r is Some <==> m.contains_key(key@))
                &&& (r matches Some(f) ==> m.contains_key(key@) && json_model(*f) == m[key@])
            },
            _ => r is None,
        }),
{
    v.get(key)
}

/// Relies on `serde_json::Value::as_str`: the payload of a string value,
/// nothing on every other value.
#[verifier::external_body]
pub fn json_str(v: &serde_json::Value) -> (r: Option<String>)
    ensures
        (match json_model(*v) {
            Json::Str(s) => r matches Some(x) && x@ == s,
            _ => r is None,
        }),
{
    match v.as_str() {
        Some(s) => Some(s.to_string()),
        None => None,
    }
}

/// Relies on `serde_json::Value::as_array`: the elements of an array value,
/// nothing on every other value.
#[verifier::external_body]
pub fn json_array<'a>(v: &'a serde_json::Value) -> (r: Option<&'a Vec<serde_json::Value>>)
    ensures
        (match json_model(*v) {
            Json::Arr(elems) => {
                &&& r matches Some(a)
                &&& (r matches Some(a) ==> a@.len() == elems.len() && forall|i: int|
                    0 <= i < elems.len() ==> json_model(a@[i]) == elems[i])
            },
            _ => r is None,
        }),
{
    v.as_array()
}

} // verus!
