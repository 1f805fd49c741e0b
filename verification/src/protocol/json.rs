//! JSON documents.
//!
//! Payloads are `serde_json::Value` trees. The verifier cannot look inside
//! one, so this module gives every value a mathematical reading, [`Json`],
//! and states each `serde_json` operation the protocol relies on in terms of
//! that reading. Nothing in this module is proved: it is the boundary between
//! the verified protocol logic and the JSON library.

use vstd::prelude::*;

verus! {

#[verifier::external_type_specification]
#[verifier::external_body]
pub struct ExValue(serde_json::Value);

#[verifier::external_type_specification]
#[verifier::external_body]
pub struct ExJsonError(serde_json::Error);

/// A JSON document as a mathematical tree.
///
/// Numbers are split the way `serde_json` stores them: an integer that fits
/// `u64` or `i64` is an `Integer`; any other number is a `Fraction`,
/// identified by the bit pattern of its 64-bit IEEE representation.
pub enum Json {
    Null,
    Bool(bool),
    Integer(int),
    Fraction(u64),
    Text(Seq<char>),
    Array(Seq<Json>),
    Object(Map<Seq<char>, Json>),
}

impl Json {
    /// The member `key` of an object; `None` for a missing member and for
    /// anything that is not an object.
    pub open spec fn field(self, key: Seq<char>) -> Option<Json> {
        match self {
            Json::Object(members) => if members.contains_key(key) {
                Some(members[key])
            } else {
                None
            },
            _ => None,
        }
    }

    /// The characters of a string; `None` for anything else.
    pub open spec fn as_text(self) -> Option<Seq<char>> {
        match self {
            Json::Text(s) => Some(s),
            _ => None,
        }
    }

    /// The value of a boolean; `None` for anything else.
    pub open spec fn as_bool(self) -> Option<bool> {
        match self {
            Json::Bool(b) => Some(b),
            _ => None,
        }
    }

    /// The value of a non-negative integer that fits `u64`; `None` for
    /// anything else.
    pub open spec fn as_u64(self) -> Option<u64> {
        match self {
            Json::Integer(i) => if 0 <= i <= u64::MAX {
                Some(i as u64)
            } else {
                None
            },
            _ => None,
        }
    }

    /// This object with member `key` set to `item`; anything that is no
    /// object stays as it is.
    pub open spec fn with(self, key: Seq<char>, item: Json) -> Json {
        match self {
            Json::Object(members) => Json::Object(members.insert(key, item)),
            other => other,
        }
    }

    /// The object without members.
    pub open spec fn empty_object() -> Json {
        Json::Object(Map::empty())
    }

    /// The array of the numbers `bytes`.
    pub open spec fn byte_array(bytes: Seq<u8>) -> Json {
        Json::Array(Seq::new(bytes.len(), |i: int| Json::Integer(bytes[i] as int)))
    }
}

/// The document that a `serde_json::Value` holds.
pub uninterp spec fn json_of(value: serde_json::Value) -> Json;

/// The compact JSON text that `serde_json::to_vec` writes for a document.
pub uninterp spec fn json_text(document: Json) -> Seq<u8>;

/// The document that `serde_json::from_slice` reads from a text, `None` where
/// it rejects the text.
pub uninterp spec fn json_parse(text: Seq<u8>) -> Option<Json>;

/// `serde_json::Value::Null`: the JSON `null`.
#[verifier::external_body]
pub(crate) fn value_null() -> (r: serde_json::Value)
    ensures
        json_of(r) == Json::Null,
{
    serde_json::Value::Null
}

/// `Value::from(bool)`: a JSON boolean with the given value.
#[verifier::external_body]
pub(crate) fn value_bool(b: bool) -> (r: serde_json::Value)
    ensures
        json_of(r) == Json::Bool(b),
{
    serde_json::Value::from(b)
}

/// `Value::from(u64)`: a JSON number holding exactly the given integer.
#[verifier::external_body]
pub(crate) fn value_u64(n: u64) -> (r: serde_json::Value)
    ensures
        json_of(r) == Json::Integer(n as int),
{
    serde_json::Value::from(n)
}

/// `Value::from(&str)`: a JSON string with the given characters.
#[verifier::external_body]
pub(crate) fn value_text(s: &str) -> (r: serde_json::Value)
    ensures
        json_of(r) == Json::Text(s@),
{
    serde_json::Value::from(s)
}

/// `Value::Array`: a JSON array holding the given values in their order.
#[verifier::external_body]
pub(crate) fn value_array(items: Vec<serde_json::Value>) -> (r: serde_json::Value)
    ensures
        json_of(r) == Json::Array(Seq::new(items@.len(), |i: int| json_of(items@[i]))),
{
    serde_json::Value::Array(items)
}

/// `Value::Object(Map::new())`: a JSON object without members.
#[verifier::external_body]
pub(crate) fn value_object() -> (r: serde_json::Value)
    ensures
        json_of(r) == Json::empty_object(),
{
    serde_json::Value::Object(serde_json::Map::new())
}

/// `Map::insert` on the members of an object: the member `key` is set to
/// `item`, replacing an earlier member of that name; the others stay. A
/// value that is no object is left as it is.
#[verifier::external_body]
pub(crate) fn object_insert(object: &mut serde_json::Value, key: &str, item: serde_json::Value)
    ensures
        json_of(*final(object)) == json_of(*old(object)).with(key@, json_of(item)),
{
    if let serde_json::Value::Object(members) = object {
        members.insert(key.to_owned(), item);
    }
}

/// `Value::get` with a string index: the member of that name, where the value
/// is an object that has one.
#[verifier::external_body]
pub(crate) fn value_get<'a>(value: &'a serde_json::Value, key: &str) -> (r: Option<
    &'a serde_json::Value,
>)
    ensures
        match r {
            Some(member) => json_of(*value).field(key@) == Some(json_of(*member)),
            None => json_of(*value).field(key@) is None,
        },
{
    value.get(key)
}

/// `Value::as_str`: the characters, where the value is a string.
#[verifier::external_body]
pub(crate) fn value_as_str<'a>(value: &'a serde_json::Value) -> (r: Option<&'a str>)
    ensures
        match r {
            Some(s) => json_of(*value).as_text() == Some(s@),
            None => json_of(*value).as_text() is None,
        },
{
    value.as_str()
}

/// `Value::as_bool`: the boolean, where the value is one.
#[verifier::external_body]
pub(crate) fn value_as_bool(value: &serde_json::Value) -> (r: Option<bool>)
    ensures
        r == json_of(*value).as_bool(),
{
    value.as_bool()
}

/// `Value::as_u64`: the number, where the value is a non-negative integer
/// that fits `u64`.
#[verifier::external_body]
pub(crate) fn value_as_u64(value: &serde_json::Value) -> (r: Option<u64>)
    ensures
        r == json_of(*value).as_u64(),
{
    value.as_u64()
}

/// `Value::clone`: a value holding the same document.
pub assume_specification[ <serde_json::Value as Clone>::clone ](
    value: &serde_json::Value,
) -> (r: serde_json::Value)
    ensures
        json_of(r) == json_of(*value),
;

/// `serde_json::to_vec` on a `Value`: the bytes are the compact JSON text of
/// the document. It always succeeds: writing into a vector cannot fail, the
/// keys of a `Value` are strings, and its numbers are finite.
#[verifier::external_body]
pub(crate) fn to_bytes(value: &serde_json::Value) -> (r: Result<Vec<u8>, serde_json::Error>)
    ensures
        r is Ok,
        r matches Ok(bytes) ==> bytes@ == json_text(json_of(*value)),
{
    serde_json::to_vec(value)
}

/// `serde_json::from_slice` into a `Value`: succeeds exactly on the texts it
/// accepts, with the document read from them.
#[verifier::external_body]
pub(crate) fn from_bytes(text: &[u8]) -> (r: Result<serde_json::Value, serde_json::Error>)
    ensures
        match r {
            Ok(value) => json_parse(text@) == Some(json_of(value)),
            Err(_) => json_parse(text@) is None,
        },
{
    serde_json::from_slice(text)
}

/// `Value::eq`: whether two values are equal. Values that hold the same
/// document are equal. Equal values hold the same document but for the sign
/// of a zero among their fractions, which `serde_json` compares as numbers
/// and writes with its sign; so equal values with the same text hold the
/// same document.
#[verifier::external_body]
fn values_equal(a: &serde_json::Value, b: &serde_json::Value) -> (r: bool)
    ensures
        json_of(*a) == json_of(*b) ==> r,
        r && json_text(json_of(*a)) == json_text(json_of(*b)) ==> json_of(*a) == json_of(*b),
{
    a == b
}

/// Whether two byte strings are the same.
fn bytes_equal(a: &Vec<u8>, b: &Vec<u8>) -> (r: bool)
    ensures
        r == (a@ == b@),
{
    if a.len() != b.len() {
        return false;
    }
    let mut i: usize = 0;
    while i < a.len()
        invariant
            i <= a@.len(),
            a@.len() == b@.len(),
            forall|k: int| 0 <= k < i ==> a@[k] == b@[k],
        decreases a@.len() - i,
    {
        if a[i] != b[i] {
            return false;
        }
        i += 1;
    }
    assert(a@ =~= b@);
    true
}

/// Whether two values hold the same document: they are equal and are
/// written as the same text.
pub fn same_document(a: &serde_json::Value, b: &serde_json::Value) -> (r: bool)
    ensures
        r == (json_of(*a) == json_of(*b)),
{
    if !values_equal(a, b) {
        return false;
    }
    match (to_bytes(a), to_bytes(b)) {
        (Ok(text_a), Ok(text_b)) => bytes_equal(&text_a, &text_b),
        _ => false,
    }
}

/// `Error::to_string`: the library's description of a failure. Nothing is
/// claimed of the text.
#[verifier::external_body]
pub(crate) fn error_text(error: &serde_json::Error) -> (r: String) {
    error.to_string()
}

} // verus!
