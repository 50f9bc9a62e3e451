//! JSON values as the adapter sees them.
//!
//! Messages travel as [`serde_json::Value`]. That type is opaque to the
//! verifier, so its contents are named by [`json`], a finite tree, and each
//! `serde_json` call that reads, builds, parses or prints a value is described
//! here over that tree. Everything else in the crate reasons about the tree.

use serde_json::Value;
use vstd::prelude::*;

verus! {

/// A JSON number the way `serde_json` holds it.
pub enum JsonNumber {
    /// A non-negative integer.
    Unsigned(u64),
    /// A negative integer.
    Negative(i64),
    /// Any other number, by the bits of its binary64 form.
    Binary64 { bits: u64 },
}

/// What a JSON value holds.
pub enum Json {
    Null,
    Bool(bool),
    Number(JsonNumber),
    Text(Seq<char>),
    Array(Seq<Json>),
    Object(Map<Seq<char>, Json>),
}

impl Json {
    /// The member of an object under a key; nothing else has members.
    pub open spec fn get(self, key: Seq<char>) -> Option<Json> {
        match self {
            Json::Object(members) => if members.contains_key(key) {
                Some(members[key])
            } else {
                None
            },
            _ => None,
        }
    }

    /// The text, if this is a string.
    pub open spec fn text(self) -> Option<Seq<char>> {
        match self {
            Json::Text(text) => Some(text),
            _ => None,
        }
    }

    /// The number, if this is an integer that a `u64` can hold.
    pub open spec fn unsigned(self) -> Option<u64> {
        match self {
            Json::Number(JsonNumber::Unsigned(number)) => Some(number),
            _ => None,
        }
    }

    /// The truth value, if this is one.
    pub open spec fn boolean(self) -> Option<bool> {
        match self {
            Json::Bool(flag) => Some(flag),
            _ => None,
        }
    }

    /// The string under a key.
    pub open spec fn text_at(self, key: Seq<char>) -> Option<Seq<char>> {
        match self.get(key) {
            Some(member) => member.text(),
            None => None,
        }
    }

    /// The unsigned integer under a key.
    pub open spec fn unsigned_at(self, key: Seq<char>) -> Option<u64> {
        match self.get(key) {
            Some(member) => member.unsigned(),
            None => None,
        }
    }

    /// The truth value under a key.
    pub open spec fn boolean_at(self, key: Seq<char>) -> Option<bool> {
        match self.get(key) {
            Some(member) => member.boolean(),
            None => None,
        }
    }

    /// The member `inner` of the object under `outer`.
    pub open spec fn nested(self, outer: Seq<char>, inner: Seq<char>) -> Option<Json> {
        match self.get(outer) {
            Some(member) => member.get(inner),
            None => None,
        }
    }
}

/// Makes `serde_json::Value` known to the verifier, without its variants.
#[verifier::external_type_specification]
#[verifier::external_body]
pub struct ExValue(serde_json::Value);

/// What a value holds.
pub uninterp spec fn json(value: Value) -> Json;

/// What `serde_json::from_str` makes of a text: the value, or the text of the
/// parser's error.
pub uninterp spec fn json_from_str(text: Seq<char>) -> Result<Json, Seq<char>>;

/// The bytes that `serde_json::to_vec` makes of a value.
pub uninterp spec fn json_to_vec(value: Json) -> Seq<u8>;

/// `Value::as_str`: the text of a string, nothing for any other value.
pub assume_specification[ Value::as_str ](value: &Value) -> (res: Option<&str>)
    ensures
        match res {
            Some(text) => json(*value).text() == Some(text@),
            None => json(*value).text() is None,
        },
;

/// `Value::as_u64`: the number of a non-negative integer, nothing for any other
/// value.
pub assume_specification[ Value::as_u64 ](value: &Value) -> (res: Option<u64>)
    ensures
        res == json(*value).unsigned(),
;

/// `Value::as_bool`: the truth value of a boolean, nothing for any other value.
pub assume_specification[ Value::as_bool ](value: &Value) -> (res: Option<bool>)
    ensures
        res == json(*value).boolean(),
;

/// `Value::as_array`: the elements of an array, nothing for any other value.
pub assume_specification[ Value::as_array ](value: &Value) -> (res: Option<&Vec<Value>>)
    ensures
        match res {
            Some(elements) => json(*value) == Json::Array(
                elements@.map_values(|element: Value| json(element)),
            ),
            None => !(json(*value) is Array),
        },
;

/// `Value::is_object`: whether the value is an object.
pub assume_specification[ Value::is_object ](value: &Value) -> (res: bool)
    ensures
        res == (json(*value) is Object),
;

/// A key that a JSON Pointer spells as it stands and that is no array index.
pub open spec fn plain_key(key: Seq<char>) -> bool {
    &&& key.len() > 0
    &&& 'a' <= key[0] <= 'z'
    &&& !key.contains('/')
    &&& !key.contains('~')
}

/// The JSON Pointer to the member `inner` of the object under `outer`.
pub open spec fn pointer_to(outer: Seq<char>, inner: Seq<char>) -> Seq<char> {
    seq!['/'] + outer + seq!['/'] + inner
}

/// `Value::pointer`: where the pointer has two plain keys, the member under the
/// second of the object under the first, and nothing where there is none. Of other
/// pointers, with escapes, array indices or another number of keys, nothing is said.
pub assume_specification<'a>[ Value::pointer ](value: &'a Value, pointer: &str) -> (res: Option<
    &'a Value,
>)
    ensures
        match res {
            Some(found) => forall|outer: Seq<char>, inner: Seq<char>|
                plain_key(outer) && plain_key(inner) && pointer@ == #[trigger] pointer_to(
                    outer,
                    inner,
                ) ==> json(*value).nested(outer, inner) == Some(json(*found)),
            None => forall|outer: Seq<char>, inner: Seq<char>|
                plain_key(outer) && plain_key(inner) && pointer@ == #[trigger] pointer_to(
                    outer,
                    inner,
                ) ==> json(*value).nested(outer, inner) is None,
        },
;

/// `Value::get` with a string index: the member of an object under that key,
/// nothing where the value is no object or has no such member.
#[verifier::external_body]
pub(crate) fn member<'a>(value: &'a Value, key: &str) -> (res: Option<&'a Value>)
    ensures
        match res {
            Some(found) => json(*value).get(key@) == Some(json(*found)),
            None => json(*value).get(key@) is None,
        },
{
    value.get(key)
}

/// `serde_json::from_str` into a `Value`, with the parser's error as its text.
/// The outcome is a function of the text alone.
#[verifier::external_body]
pub(crate) fn parse_json(text: &str) -> (res: Result<Value, String>)
    ensures
        match res {
            Ok(value) => json_from_str(text@) == Ok::<Json, Seq<char>>(json(value)),
            Err(error) => json_from_str(text@) == Err::<Json, Seq<char>>(error@),
        },
{
    serde_json::from_str(text).map_err(|error| error.to_string())
}

/// `serde_json::to_vec` of a `Value`, with the encoder's error as its text. It always
/// succeeds: the keys of a `Value` are strings, every number of one can be printed, and
/// a vector takes every write. The bytes are a function of what the value holds: object
/// members are printed in the order of their keys. The compact form has no line feed,
/// because nothing is printed between tokens and one inside a string is escaped.
#[verifier::external_body]
pub(crate) fn print_json(value: &Value) -> (res: Result<Vec<u8>, String>)
    ensures
        match res {
            Ok(bytes) => bytes@ == json_to_vec(json(*value)) && !bytes@.contains(0x0au8),
            Err(_) => false,
        },
{
    serde_json::to_vec(value).map_err(|error| error.to_string())
}

/// `Value::Null`.
#[verifier::external_body]
pub(crate) fn null_value() -> (res: Value)
    ensures
        json(res) == Json::Null,
{
    Value::Null
}

/// `Value::from` on a string slice: the JSON string with that text.
#[verifier::external_body]
pub(crate) fn text_value(text: &str) -> (res: Value)
    ensures
        json(res) == Json::Text(text@),
{
    Value::from(text)
}

/// `Value::Array` of no elements.
#[verifier::external_body]
pub(crate) fn empty_array() -> (res: Value)
    ensures
        json(res) == Json::Array(Seq::empty()),
{
    Value::Array(Vec::new())
}

/// `Value::Object` of `serde_json::Map::new`: the object without members.
#[verifier::external_body]
pub(crate) fn empty_object() -> (res: Value)
    ensures
        json(res) == Json::Object(Map::empty()),
{
    Value::Object(serde_json::Map::new())
}

/// Assignment through `Value`'s `IndexMut` with a string index: the object gets
/// the member, in place of any it had under that key. On any value but an object or
/// null the operator panics.
#[verifier::external_body]
pub(crate) fn set_member(object: &mut Value, key: &str, value: Value)
    requires
        json(*old(object)) is Object,
    ensures
        json(*final(object)) == Json::Object(
            json(*old(object))->Object_0.insert(key@, json(value)),
        ),
{
    object[key] = value;
}

/// The string under a key.
pub fn text_at<'a>(value: &'a Value, key: &str) -> (res: Option<&'a str>)
    ensures
        match res {
            Some(text) => json(*value).text_at(key@) == Some(text@),
            None => json(*value).text_at(key@) is None,
        },
{
    match member(value, key) {
        Some(found) => found.as_str(),
        None => None,
    }
}

/// The unsigned integer under a key.
pub fn unsigned_at(value: &Value, key: &str) -> (res: Option<u64>)
    ensures
        res == json(*value).unsigned_at(key@),
{
    match member(value, key) {
        Some(found) => found.as_u64(),
        None => None,
    }
}

/// The truth value under a key.
pub fn boolean_at(value: &Value, key: &str) -> (res: Option<bool>)
    ensures
        res == json(*value).boolean_at(key@),
{
    match member(value, key) {
        Some(found) => found.as_bool(),
        None => None,
    }
}

} // verus!
