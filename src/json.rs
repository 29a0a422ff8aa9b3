//! A generic JSON tree, filled by serde_json's parser, on which all decoding works.

use crate::error::{DecodeError, JsonKind};
use vstd::prelude::*;

verus! {

#[verifier::external_type_specification]
#[verifier::external_body]
pub struct ExValue(serde_json::Value);

/// A JSON value.
///
/// Objects keep their members as a list of key and value; a lookup takes the
/// first member with the key asked for.
#[derive(Debug)]
pub enum Json {
    Null,
    Bool(bool),
    /// A number that is an integer in the range of `i64`.
    Int(i64),
    /// Any other number (a fraction, an exponent, a large unsigned), as text.
    OtherNumber(String),
    Str(String),
    Array(Vec<Json>),
    Object(Vec<(String, Json)>),
}

/// The first value stored under `key` among `fields`, searching from index `i` on.
pub open spec fn lookup_from(fields: Seq<(String, Json)>, key: Seq<char>, i: int) -> Option<Json>
    decreases fields.len() - i,
{
    if i < 0 || i >= fields.len() {
        None
    } else if fields[i].0@ == key {
        Some(fields[i].1)
    } else {
        lookup_from(fields, key, i + 1)
    }
}

/// The member `key` of `j`, when `j` is an object that has one.
pub open spec fn member(j: Json, key: Seq<char>) -> Option<Json> {
    match j {
        Json::Object(fields) => lookup_from(fields@, key, 0),
        _ => None,
    }
}

impl Json {
    /// The member `key` of this value, when it is an object that has one.
    pub fn get(&self, key: &str) -> (r: Option<&Json>)
        ensures
            match r {
                Some(v) => member(*self, key@) == Some(*v),
                None => member(*self, key@) is None,
            },
    {
        match self {
            Json::Object(fields) => {
                let k = key.to_owned();
                let mut i: usize = 0;
                while i < fields.len()
                    invariant
                        i <= fields@.len(),
                        k@ == key@,
                        member(*self, key@) == lookup_from(fields@, key@, 0),
                        lookup_from(fields@, key@, 0) == lookup_from(fields@, key@, i as int),
                    decreases fields@.len() - i,
                {
                    let entry = &fields[i];
                    if entry.0 == k {
                        assert(lookup_from(fields@, key@, i as int) == Some(entry.1));
                        return Some(&entry.1);
                    }
                    i = i + 1;
                }
                None
            },
            _ => None,
        }
    }
}

/// Whether serde_json accepts `text` as one JSON value.
pub uninterp spec fn json_text_accepted(text: Seq<char>) -> bool;

/// The value that serde_json reads from `text`, where it accepts the text.
pub uninterp spec fn json_of(text: Seq<char>) -> Json;

/// Relies on the variants of `serde_json::Value`: each becomes the `Json`
/// variant of the same name, children converted in order. A number is kept as
/// an integer where serde_json's `Number::as_i64` gives one, else as its text.
#[verifier::external_body]
fn value_to_json(v: serde_json::Value) -> (r: Json) {
    match v {
        serde_json::Value::Null => Json::Null,
        serde_json::Value::Bool(b) => Json::Bool(b),
        serde_json::Value::Number(n) => match n.as_i64() {
            Some(i) => Json::Int(i),
            None => Json::OtherNumber(n.to_string()),
        },
        serde_json::Value::String(s) => Json::Str(s),
        serde_json::Value::Array(a) => Json::Array(a.into_iter().map(value_to_json).collect()),
        serde_json::Value::Object(m) => {
            Json::Object(m.into_iter().map(|(k, x)| (k, value_to_json(x))).collect())
        },
    }
}

/// Relies on serde_json::from_str, read into a `serde_json::Value`: it succeeds
/// exactly on the texts that serde_json accepts as JSON, and the value read
/// depends on the text alone.
#[verifier::external_body]
fn parse_value(text: &str) -> (r: Option<Json>)
    ensures
        r is Some == json_text_accepted(text@),
        r matches Some(j) ==> j == json_of(text@),
{
    serde_json::from_str::<serde_json::Value>(text).ok().map(value_to_json)
}

/// Parses `text` as JSON.
///
/// Gives the value that serde_json reads where it accepts the text, and fails
/// with `Syntax` exactly where it rejects it.
pub fn parse(text: &str) -> (r: Result<Json, DecodeError>)
    ensures
        json_text_accepted(text@) ==> r == Ok::<Json, DecodeError>(json_of(text@)),
        !json_text_accepted(text@) ==> r == Err::<Json, DecodeError>(DecodeError::Syntax),
{
    match parse_value(text) {
        Some(j) => Ok(j),
        None => Err(DecodeError::Syntax),
    }
}

impl Json {
    /// Whether this value is an object.
    pub fn is_object(&self) -> (r: bool)
        ensures
            r == (*self is Object),
    {
        match self {
            Json::Object(_) => true,
            _ => false,
        }
    }

    /// The shape of this value.
    pub fn kind(&self) -> (r: JsonKind)
        ensures
            r == kind_of(*self),
    {
        match self {
            Json::Null => JsonKind::Null,
            Json::Bool(_) => JsonKind::Bool,
            Json::Int(_) => JsonKind::Number,
            Json::OtherNumber(_) => JsonKind::Number,
            Json::Str(_) => JsonKind::String,
            Json::Array(_) => JsonKind::Array,
            Json::Object(_) => JsonKind::Object,
        }
    }
}

/// The shape of `j`.
pub open spec fn kind_of(j: Json) -> JsonKind {
    match j {
        Json::Null => JsonKind::Null,
        Json::Bool(_) => JsonKind::Bool,
        Json::Int(_) => JsonKind::Number,
        Json::OtherNumber(_) => JsonKind::Number,
        Json::Str(_) => JsonKind::String,
        Json::Array(_) => JsonKind::Array,
        Json::Object(_) => JsonKind::Object,
    }
}

} // verus!
