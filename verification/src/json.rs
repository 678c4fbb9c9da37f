//! JSON values, as `serde_json` holds them, and what the rest of the library
//! reads from them and builds into them.
//!
//! A `serde_json::Value` is opaque to the verifier. What it holds is named by
//! [`value_model`], a tree of plain values, and every operation on a value is
//! stated over that tree.

use vstd::prelude::*;

verus! {

/// `serde_json::Value`, carried as it is.
#[verifier::external_type_specification]
#[verifier::external_body]
pub struct ExValue(serde_json::Value);

/// `serde_json::Error`, carried as it is.
#[verifier::external_type_specification]
#[verifier::external_body]
pub struct ExJsonError(serde_json::Error);

/// What a JSON value holds. Whole numbers are mathematical integers; a
/// number with a fraction or an exponent is held as its notation.
pub enum JsonValue {
    Null,
    Bool(bool),
    Integer(int),
    Real(Seq<char>),
    Text(Seq<char>),
    Array(Seq<JsonValue>),
    Object(Map<Seq<char>, JsonValue>),
}

impl JsonValue {
    /// The member under `key`: `Null` where `self` is no object or has no
    /// such member.
    pub open spec fn member(self, key: Seq<char>) -> JsonValue {
        match self {
            JsonValue::Object(members) => if members.contains_key(key) {
                members[key]
            } else {
                JsonValue::Null
            },
            _ => JsonValue::Null,
        }
    }

    /// The text that `self` is, if it is one.
    pub open spec fn text(self) -> Option<Seq<char>> {
        match self {
            JsonValue::Text(s) => Some(s),
            _ => None,
        }
    }

    /// The text under `key`, if there is one.
    pub open spec fn text_member(self, key: Seq<char>) -> Option<Seq<char>> {
        self.member(key).text()
    }

    /// The number that `self` is, if it is a whole number from 0 to the
    /// largest `u64`.
    pub open spec fn unsigned(self) -> Option<u64> {
        match self {
            JsonValue::Integer(i) => if 0 <= i <= u64::MAX {
                Some(i as u64)
            } else {
                None
            },
            _ => None,
        }
    }

    /// An object of one member.
    pub open spec fn object1(k: Seq<char>, v: JsonValue) -> JsonValue {
        JsonValue::Object(Map::empty().insert(k, v))
    }
}

/// What `v` holds: its members, items, text or number, down to the leaves.
pub uninterp spec fn value_model(v: serde_json::Value) -> JsonValue;

/// The value that a text is the JSON notation of, as `serde_json` reads
/// it; `None` where it is the notation of none.
pub uninterp spec fn parsed_json(text: Seq<char>) -> Option<JsonValue>;

/// The JSON notation of a value on one line, as `serde_json` writes it.
pub uninterp spec fn compact_text(v: JsonValue) -> Seq<char>;

/// The JSON notation of a value over several indented lines, as
/// `serde_json` writes it.
pub uninterp spec fn pretty_text(v: JsonValue) -> Seq<char>;

/// `serde_json::from_str` at `Value`: the value that the text denotes, or
/// the parser's error. Which texts denote which values is left to the parser.
#[verifier::external_body]
pub(crate) fn parse_value(text: &str) -> (out: Result<serde_json::Value, serde_json::Error>)
    ensures
        parsed_json(text@) == match out {
            Ok(v) => Some(value_model(v)),
            Err(_) => None::<JsonValue>,
        },
{
    serde_json::from_str::<serde_json::Value>(text)
}

/// `to_string` of a `serde_json::Error`: its message, as its `Display`
/// writes it. Nothing is said of the message.
#[verifier::external_body]
pub(crate) fn error_text(e: &serde_json::Error) -> (out: String) {
    e.to_string()
}

/// `serde_json::to_string` at `Value`: the notation of what the value
/// holds, on one line. On a `Value` the writer does not fail: it writes
/// into a vector of bytes, the keys of an object are texts, and a number is
/// finite.
#[verifier::external_body]
pub(crate) fn render_compact(v: &serde_json::Value) -> (out: Result<String, serde_json::Error>)
    ensures
        out is Ok,
        out->Ok_0@ == compact_text(value_model(*v)),
{
    serde_json::to_string(v)
}

/// `serde_json::to_string_pretty` at `Value`: the notation of what the
/// value holds, indented. On a `Value` the writer does not fail: it writes
/// into a vector of bytes, the keys of an object are texts, and a number is
/// finite.
#[verifier::external_body]
pub(crate) fn render_pretty(v: &serde_json::Value) -> (out: Result<String, serde_json::Error>)
    ensures
        out is Ok,
        out->Ok_0@ == pretty_text(value_model(*v)),
{
    serde_json::to_string_pretty(v)
}

/// What comes of a writing of the notation, whichever way it went: the text
/// that the writer gave, as it is, and where the writer failed its message
/// in place of its error.
pub fn rendered(result: Result<String, serde_json::Error>) -> (out: Result<String, String>)
    ensures
        match result {
            Ok(text) => out == Ok::<String, String>(text),
            Err(_) => out is Err,
        },
{
    match result {
        Ok(text) => Ok(text),
        Err(e) => Err(error_text(&e)),
    }
}

/// Indexing a `Value` by a key: the member of an object under that key, and
/// `Null` where there is none or the value is no object.
#[verifier::external_body]
pub(crate) fn value_member<'a>(v: &'a serde_json::Value, key: &str) -> (out: &'a serde_json::Value)
    ensures
        value_model(*out) == value_model(*v).member(key@),
{
    &v[key]
}

/// `Value::as_str`: the text of a string value, `None` for any other.
#[verifier::external_body]
pub(crate) fn value_as_str<'a>(v: &'a serde_json::Value) -> (out: Option<&'a str>)
    ensures
        match out {
            Some(s) => value_model(*v) == JsonValue::Text(s@),
            None => value_model(*v).text() is None,
        },
{
    v.as_str()
}

/// `Value::as_u64`: the number of a value that is a whole number from 0 to
/// the largest `u64`, `None` for any other.
#[verifier::external_body]
pub(crate) fn value_as_u64(v: &serde_json::Value) -> (out: Option<u64>)
    ensures
        out == value_model(*v).unsigned(),
{
    v.as_u64()
}

/// `Value::is_null`: whether the value is `null`.
#[verifier::external_body]
pub(crate) fn value_is_null(v: &serde_json::Value) -> (out: bool)
    ensures
        out == (value_model(*v) is Null),
{
    v.is_null()
}

/// `Value::is_object`: whether the value is an object.
#[verifier::external_body]
pub(crate) fn value_is_object(v: &serde_json::Value) -> (out: bool)
    ensures
        out == (value_model(*v) is Object),
{
    v.is_object()
}

/// `Value::clone`: a value that holds the same.
pub assume_specification[ <serde_json::Value as Clone>::clone ](v: &serde_json::Value) -> (out:
    serde_json::Value)
    ensures
        value_model(out) == value_model(*v),
;

/// `Value::Null`: the value `null`.
#[verifier::external_body]
pub(crate) fn null_value() -> (out: serde_json::Value)
    ensures
        value_model(out) == JsonValue::Null,
{
    serde_json::Value::Null
}

/// `Value::String` of a copy of the text.
#[verifier::external_body]
pub(crate) fn text_value(s: &str) -> (out: serde_json::Value)
    ensures
        value_model(out) == JsonValue::Text(s@),
{
    serde_json::Value::String(s.to_string())
}

/// `Value::from` at `u64`: the whole number `n`.
#[verifier::external_body]
pub(crate) fn unsigned_value(n: u64) -> (out: serde_json::Value)
    ensures
        value_model(out) == JsonValue::Integer(n as int),
{
    serde_json::Value::from(n)
}

/// `Value::from` at `i64`: the whole number `n`.
#[verifier::external_body]
pub(crate) fn signed_value(n: i64) -> (out: serde_json::Value)
    ensures
        value_model(out) == JsonValue::Integer(n as int),
{
    serde_json::Value::from(n)
}

/// `Value::Array` of the items, in their order.
#[verifier::external_body]
pub(crate) fn array_value(items: Vec<serde_json::Value>) -> (out: serde_json::Value)
    ensures
        value_model(out) == JsonValue::Array(items@.map_values(|v: serde_json::Value| value_model(v))),
{
    serde_json::Value::Array(items)
}

/// `Value::Object` of `Map::new()`: the object without members.
#[verifier::external_body]
pub(crate) fn empty_object() -> (out: serde_json::Value)
    ensures
        value_model(out) == JsonValue::Object(Map::<Seq<char>, JsonValue>::empty()),
{
    serde_json::Value::Object(serde_json::Map::new())
}

/// `Map::insert` on the members of an object: the member under `key` is
/// `member` afterwards, whether or not there was one, and the others stay.
#[verifier::external_body]
pub(crate) fn with_member(object: serde_json::Value, key: &str, member: serde_json::Value) -> (out:
    serde_json::Value)
    requires
        value_model(object) is Object,
    ensures
        value_model(out) == JsonValue::Object(
            value_model(object)->Object_0.insert(key@, value_model(member)),
        ),
{
    let mut object = object;
    if let serde_json::Value::Object(members) = &mut object {
        members.insert(key.to_string(), member);
    }
    object
}

} // verus!
