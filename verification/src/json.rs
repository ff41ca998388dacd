//! JSON values as the session parsers read them.

use vstd::prelude::*;
use crate::text::{owned, text_equals};

verus! {

/// A decoded JSON value.
///
/// Numbers keep their value only where it is a non-negative integer that fits in `u64`:
/// that is the one reading of a number that usage parsing makes.
#[derive(Debug)]
pub enum JsonValue {
    /// `null`.
    Null,
    /// `true` or `false`.
    Bool(bool),
    /// A non-negative integer that fits in `u64`.
    Unsigned(u64),
    /// Any other number: negative, fractional or out of range.
    OtherNumber,
    /// A string.
    Text(String),
    /// An array.
    Array(Vec<JsonValue>),
    /// An object, as its members in order.
    Object(Vec<(String, JsonValue)>),
}

/// The value of the first member named `key` at or after position `start`.
pub open spec fn member_from(members: Seq<(String, JsonValue)>, key: Seq<char>, start: int) -> Option<JsonValue>
    decreases members.len() - start,
{
    if start < 0 || start >= members.len() {
        None
    } else if members[start].0@ == key {
        Some(members[start].1)
    } else {
        member_from(members, key, start + 1)
    }
}

/// The member named `key` of an object; `None` for a value that is not an object or has
/// no such member.
pub open spec fn json_get(value: JsonValue, key: Seq<char>) -> Option<JsonValue> {
    match value {
        JsonValue::Object(members) => member_from(members@, key, 0),
        _ => None,
    }
}

/// The text of a string value.
pub open spec fn json_text(value: JsonValue) -> Option<Seq<char>> {
    match value {
        JsonValue::Text(text) => Some(text@),
        _ => None,
    }
}

/// The integer of a value that is a non-negative integer fitting in `u64`.
pub open spec fn json_unsigned(value: JsonValue) -> Option<u64> {
    match value {
        JsonValue::Unsigned(number) => Some(number),
        _ => None,
    }
}

/// The text of member `key` when it is a string.
pub open spec fn text_member(value: JsonValue, key: Seq<char>) -> Option<Seq<char>> {
    match json_get(value, key) {
        Some(member) => json_text(member),
        None => None,
    }
}

/// The integer of member `key` when it is a non-negative integer fitting in `u64`.
pub open spec fn unsigned_member(value: JsonValue, key: Seq<char>) -> Option<u64> {
    match json_get(value, key) {
        Some(member) => json_unsigned(member),
        None => None,
    }
}

/// Whether member `key` is present.
pub open spec fn has_member(value: JsonValue, key: Seq<char>) -> bool {
    json_get(value, key) is Some
}

impl JsonValue {
    /// The member named `key` of an object.
    pub fn get(&self, key: &str) -> (result: Option<&JsonValue>)
        ensures
            match result {
                Some(member) => json_get(*self, key@) == Some(*member),
                None => json_get(*self, key@) is None,
            },
    {
        match self {
            JsonValue::Object(members) => {
                let mut index: usize = 0;
                while index < members.len()
                    invariant
                        index <= members.len(),
                        json_get(*self, key@) == member_from(members@, key@, 0),
                        member_from(members@, key@, 0) == member_from(members@, key@, index as int),
                    decreases members.len() - index,
                {
                    let entry = &members[index];
                    if text_equals(entry.0.as_str(), key) {
                        let member = &entry.1;
                        assert(member_from(members@, key@, index as int) == Some(*member));
                        return Some(member);
                    }
                    index = index + 1;
                }
                None
            },
            _ => None,
        }
    }

    /// The text of a string value.
    pub fn as_str(&self) -> (result: Option<&str>)
        ensures
            match result {
                Some(text) => json_text(*self) == Some(text@),
                None => json_text(*self) is None,
            },
    {
        match self {
            JsonValue::Text(text) => Some(text.as_str()),
            _ => None,
        }
    }

    /// The integer of a value that is a non-negative integer fitting in `u64`.
    pub fn as_u64(&self) -> (result: Option<u64>)
        ensures
            result == json_unsigned(*self),
    {
        match self {
            JsonValue::Unsigned(number) => Some(*number),
            _ => None,
        }
    }

    /// Whether the value is `null`.
    pub fn is_null(&self) -> (result: bool)
        ensures
            result == (*self is Null),
    {
        match self {
            JsonValue::Null => true,
            _ => false,
        }
    }

    /// The text of member `key` when it is a string, copied.
    pub fn text_member(&self, key: &str) -> (result: Option<String>)
        ensures
            option_text_view(result) == text_member(*self, key@),
    {
        match self.get(key) {
            Some(member) => match member.as_str() {
                Some(text) => Some(owned(text)),
                None => None,
            },
            None => None,
        }
    }

    /// The integer of member `key` when it is a non-negative integer fitting in `u64`.
    pub fn unsigned_member(&self, key: &str) -> (result: Option<u64>)
        ensures
            result == unsigned_member(*self, key@),
    {
        match self.get(key) {
            Some(member) => member.as_u64(),
            None => None,
        }
    }

    /// Whether member `key` is present.
    pub fn has_member(&self, key: &str) -> (result: bool)
        ensures
            result == has_member(*self, key@),
    {
        self.get(key).is_some()
    }
}

/// The characters of an optional text.
pub open spec fn option_text_view(text: Option<String>) -> Option<Seq<char>> {
    match text {
        Some(value) => Some(value@),
        None => None,
    }
}

/// `serde_json::Value`, the value that `serde_json` decodes JSON text into.
#[verifier::external_type_specification]
#[verifier::external_body]
pub struct ExDecodedJson(serde_json::Value);

/// The value that `serde_json::from_str::<Value>` decodes a text into, when the text is
/// JSON, as this library's JSON value.
pub uninterp spec fn json_text_value(text: Seq<char>) -> Option<JsonValue>;

/// Converts a `serde_json::Value` into this library's JSON value, variant for variant; a
/// number keeps its value where `Number::as_u64` gives one.
#[verifier::external_body]
fn converted_json(value: serde_json::Value) -> JsonValue {
    match value {
        serde_json::Value::Null => JsonValue::Null,
        serde_json::Value::Bool(flag) => JsonValue::Bool(flag),
        serde_json::Value::Number(number) => number.as_u64().map_or(JsonValue::OtherNumber, JsonValue::Unsigned),
        serde_json::Value::String(text) => JsonValue::Text(text),
        serde_json::Value::Array(items) => JsonValue::Array(items.into_iter().map(converted_json).collect()),
        serde_json::Value::Object(members) => JsonValue::Object(
            members.into_iter().map(|(key, member)| (key, converted_json(member))).collect(),
        ),
    }
}

/// Decodes a text as JSON with `serde_json::from_str::<Value>`: `None` where the text is not
/// JSON, else the decoded value.
#[verifier::external_body]
pub(crate) fn parse_json_text(text: &str) -> (result: Option<JsonValue>)
    ensures
        result == json_text_value(text@),
{
    serde_json::from_str::<serde_json::Value>(text).ok().map(converted_json)
}

} // verus!
