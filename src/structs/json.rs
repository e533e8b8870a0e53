use vstd::prelude::*;

use crate::structs::text::{parse_u64, text_eq, u64_text_value};

verus! {

/// serde_json's document type, carried through without looking inside.
#[verifier::external_type_specification]
#[verifier::external_body]
pub struct ExValue(serde_json::Value);

/// The document serde_json reads from `text`, where it reads one.
pub uninterp spec fn json_doc(text: Seq<char>) -> Option<Json>;

/// The message of serde_json's error on `text`, where it reads no document.
pub uninterp spec fn json_error_text(text: Seq<char>) -> Seq<char>;

/// Relies on serde_json::from_str into serde_json::Value, and on the `Display`
/// of serde_json::Error: both depend on the text alone.
#[verifier::external_body]
fn read_json(text: &str) -> (r: Result<Json, String>)
    ensures
        match r {
            Ok(j) => json_doc(text@) == Some(j),
            Err(m) => json_doc(text@) is None && m@ == json_error_text(text@),
        },
{
    match serde_json::from_str::<serde_json::Value>(text) {
        Ok(v) => Ok(json_from_value(v)),
        Err(e) => Err(e.to_string()),
    }
}

/// Turns serde_json's document into the library's, one variant for one; a
/// number keeps the text serde_json writes for it.
#[verifier::external_body]
fn json_from_value(v: serde_json::Value) -> Json {
    match v {
        serde_json::Value::Null => Json::Null,
        serde_json::Value::Bool(b) => Json::Bool(b),
        serde_json::Value::Number(n) => Json::Number(n.to_string()),
        serde_json::Value::String(s) => Json::Str(s),
        serde_json::Value::Array(a) => Json::Array(a.into_iter().map(json_from_value).collect()),
        serde_json::Value::Object(m) => Json::Object(
            m.into_iter().map(|(k, x)| (k, json_from_value(x))).collect(),
        ),
    }
}

/// A JSON document as plain values.
#[derive(Debug, PartialEq)]
pub enum Json {
    Null,
    Bool(bool),
    /// A number, as the text the JSON reader writes for it.
    Number(String),
    Str(String),
    Array(Vec<Json>),
    Object(Vec<(String, Json)>),
}

/// The value of the first member of `members` named `key`.
pub open spec fn lookup(members: Seq<(String, Json)>, key: Seq<char>) -> Option<Json>
    decreases members.len(),
{
    if members.len() == 0 {
        None
    } else if members[0].0@ == key {
        Some(members[0].1)
    } else {
        lookup(members.drop_first(), key)
    }
}

/// The member `key` of `j`, where `j` is an object that has it.
pub open spec fn field(j: Json, key: Seq<char>) -> Option<Json> {
    match j {
        Json::Object(members) => lookup(members@, key),
        _ => None,
    }
}

/// The value of the first member of `members` named `key`.
pub fn member<'a>(members: &'a Vec<(String, Json)>, key: &str) -> (r: Option<&'a Json>)
    ensures
        match r {
            Some(v) => lookup(members@, key@) == Some(*v),
            None => lookup(members@, key@) is None,
        },
{
    let mut i: usize = 0;
    assert(members@.skip(0) == members@);
    while i < members.len()
        invariant
            i <= members.len(),
            lookup(members@, key@) == lookup(members@.skip(i as int), key@),
        decreases members.len() - i,
    {
        assert(members@.skip(i as int).drop_first() == members@.skip(i + 1));
        if text_eq(members[i].0.as_str(), key) {
            return Some(&members[i].1);
        }
        i = i + 1;
    }
    None
}

/// The text `j` holds, where it is a string.
pub open spec fn text_of(j: Option<Json>) -> Option<String> {
    match j {
        Some(Json::Str(s)) => Some(s),
        _ => None,
    }
}

/// The number `j` holds, where it is an integer within `u64`.
pub open spec fn u64_of(j: Option<Json>) -> Option<u64> {
    match j {
        Some(Json::Number(t)) => u64_text_value(t@),
        _ => None,
    }
}

/// An optional text: absent or `null` is `Some(None)`, a string `Some(Some(_))`,
/// anything else does not match (`None`).
pub open spec fn optional_text_of(j: Option<Json>) -> Option<Option<String>> {
    match j {
        None => Some(None),
        Some(Json::Null) => Some(None),
        Some(Json::Str(s)) => Some(Some(s)),
        _ => None,
    }
}

/// An optional number, read as `optional_text_of` reads an optional text.
pub open spec fn optional_u64_of(j: Option<Json>) -> Option<Option<u64>> {
    match j {
        None => Some(None),
        Some(Json::Null) => Some(None),
        Some(Json::Number(t)) => match u64_text_value(t@) {
            Some(n) => Some(Some(n)),
            None => None,
        },
        _ => None,
    }
}

/// The text of member `key`.
pub fn get_text(members: &Vec<(String, Json)>, key: &str) -> (r: Option<String>)
    ensures
        r == text_of(lookup(members@, key@)),
{
    match member(members, key) {
        Some(Json::Str(s)) => Some(s.clone()),
        _ => None,
    }
}

/// The number of member `key`.
pub fn get_u64(members: &Vec<(String, Json)>, key: &str) -> (r: Option<u64>)
    ensures
        r == u64_of(lookup(members@, key@)),
{
    match member(members, key) {
        Some(Json::Number(t)) => parse_u64(t.as_str()),
        _ => None,
    }
}

/// The optional text of member `key`.
pub fn get_optional_text(members: &Vec<(String, Json)>, key: &str) -> (r: Option<Option<String>>)
    ensures
        r == optional_text_of(lookup(members@, key@)),
{
    match member(members, key) {
        None => Some(None),
        Some(Json::Null) => Some(None),
        Some(Json::Str(s)) => Some(Some(s.clone())),
        _ => None,
    }
}

/// The optional number of member `key`.
pub fn get_optional_u64(members: &Vec<(String, Json)>, key: &str) -> (r: Option<Option<u64>>)
    ensures
        r == optional_u64_of(lookup(members@, key@)),
{
    match member(members, key) {
        None => Some(None),
        Some(Json::Null) => Some(None),
        Some(Json::Number(t)) => match parse_u64(t.as_str()) {
            Some(n) => Some(Some(n)),
            None => None,
        },
        _ => None,
    }
}

/// Reads `text` as one JSON document; the error is the reader's message.
pub fn parse_json(text: &str) -> (r: Result<Json, String>)
    ensures
        match r {
            Ok(j) => json_doc(text@) == Some(j),
            Err(m) => json_doc(text@) is None && m@ == json_error_text(text@),
        },
{
    read_json(text)
}

} // verus!
