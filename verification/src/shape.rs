//! Statements about JSON values, in terms of what the values are made of.

use crate::json::{Json, JsonNumber};
use vstd::prelude::*;

verus! {

/// An object with the given member.
pub open spec fn has(value: Json, key: Seq<char>, member: Json) -> bool {
    value matches Json::Object(members) && members.contains_key(key) && members[key] == member
}

/// An object with the given text under a key.
pub open spec fn has_text(value: Json, key: Seq<char>, text: Seq<char>) -> bool {
    has(value, key, Json::Text(text))
}

/// An object with the given non-negative integer under a key.
pub open spec fn has_number(value: Json, key: Seq<char>, number: u64) -> bool {
    has(value, key, Json::Number(JsonNumber::Unsigned(number)))
}

/// An object with the given truth value under a key.
pub open spec fn has_flag(value: Json, key: Seq<char>, flag: bool) -> bool {
    has(value, key, Json::Bool(flag))
}

/// An object with any member under a key.
pub open spec fn has_member(value: Json, key: Seq<char>) -> bool {
    value matches Json::Object(members) && members.contains_key(key)
}

/// An object with a text under a key, other than the empty one.
pub open spec fn has_some_text(value: Json, key: Seq<char>) -> bool {
    &&& value matches Json::Object(members)
    &&& members.contains_key(key)
    &&& members[key] matches Json::Text(text)
    &&& text.len() > 0
}

/// An object with a text under a key, empty or not.
pub open spec fn has_any_text(value: Json, key: Seq<char>) -> bool {
    value matches Json::Object(members) && members.contains_key(key) && members[key] is Text
}

/// An object with a non-negative integer under a key.
pub open spec fn has_some_number(value: Json, key: Seq<char>) -> bool {
    &&& value matches Json::Object(members)
    &&& members.contains_key(key)
    &&& members[key] matches Json::Number(number)
    &&& number is Unsigned
}

/// An object with a truth value under a key.
pub open spec fn has_some_flag(value: Json, key: Seq<char>) -> bool {
    value matches Json::Object(members) && members.contains_key(key) && members[key] is Bool
}

/// What is read under a key is what the object holds there: every text, the empty one
/// included, every number from the least to the greatest, and either truth value.
pub proof fn law_members_are_read_as_they_are(
    value: Json,
    key: Seq<char>,
    member: Json,
    text: Seq<char>,
    number: u64,
    flag: bool,
)
    ensures
        value.get(key) == Some(member) <==> has(value, key, member),
        value.get(key) is None <==> !has_member(value, key),
        value.text_at(key) == Some(text) <==> has_text(value, key, text),
        value.text_at(key) is None <==> !has_any_text(value, key),
        value.unsigned_at(key) == Some(number) <==> has_number(value, key, number),
        value.unsigned_at(key) is None <==> !has_some_number(value, key),
        value.boolean_at(key) == Some(flag) <==> has_flag(value, key, flag),
        value.boolean_at(key) is None <==> !has_some_flag(value, key),
{
}

/// A member of a member is found exactly where both objects have it.
pub proof fn law_nested_member_is_found(
    value: Json,
    outer: Seq<char>,
    middle: Json,
    inner: Seq<char>,
    member: Json,
)
    ensures
        has(value, outer, middle) && has(middle, inner, member) ==> value.nested(outer, inner)
            == Some(member),
        has(value, outer, middle) && !has_member(middle, inner) ==> value.nested(outer, inner)
            is None,
        !has_member(value, outer) ==> value.nested(outer, inner) is None,
{
}

} // verus!
