//! Parsed JSON documents, as far as the codec reads them.
//!
//! Parsing and string escaping are `serde_json`'s work. A parsed document is a
//! `serde_json::Value`, which Verus cannot look into, so this module names the
//! document that such a value holds ([`json_model`]) as a [`JsonValue`], states
//! what each accessor of `serde_json::Value` returns in terms of that document,
//! and builds the verified field readers of the codec on top of them.
use vstd::prelude::*;

verus! {

/// A JSON document.
///
/// An `Integer` is a number that `serde_json` holds as an integer, which it
/// does for the whole numbers from `i64::MIN` to `u64::MAX`. Every other
/// number is a `Float`, whose value is not modelled. An object is a map from
/// its keys to its members.
pub enum JsonValue {
    Null,
    Bool(bool),
    Integer(int),
    Float,
    Text(Seq<char>),
    Array(Seq<JsonValue>),
    Object(Map<Seq<char>, JsonValue>),
}

impl JsonValue {
    /// The member of an object under `key`; `None` for a missing key and for a
    /// document that is no object.
    pub open spec fn member(self, key: Seq<char>) -> Option<JsonValue> {
        match self {
            JsonValue::Object(members) => if members.contains_key(key) {
                Some(members[key])
            } else {
                None
            },
            _ => None,
        }
    }

    /// The number of a document that is an integer within `u64`.
    pub open spec fn as_u64(self) -> Option<u64> {
        match self {
            JsonValue::Integer(number) => if 0 <= number <= u64::MAX {
                Some(number as u64)
            } else {
                None
            },
            _ => None,
        }
    }

    /// The number of a document that is an integer within `i64`.
    pub open spec fn as_i64(self) -> Option<i64> {
        match self {
            JsonValue::Integer(number) => if i64::MIN <= number <= i64::MAX {
                Some(number as i64)
            } else {
                None
            },
            _ => None,
        }
    }

    /// The characters of a document that is a string.
    pub open spec fn as_text(self) -> Option<Seq<char>> {
        match self {
            JsonValue::Text(text) => Some(text),
            _ => None,
        }
    }

    /// The truth value of a document that is a boolean.
    pub open spec fn as_bool(self) -> Option<bool> {
        match self {
            JsonValue::Bool(flag) => Some(flag),
            _ => None,
        }
    }

    /// The elements of a document that is an array.
    pub open spec fn as_array(self) -> Option<Seq<JsonValue>> {
        match self {
            JsonValue::Array(elements) => Some(elements),
            _ => None,
        }
    }

    /// The number of a document that is an integer within `i32`.
    pub open spec fn as_i32(self) -> Option<i32> {
        match self {
            JsonValue::Integer(number) => if i32::MIN <= number <= i32::MAX {
                Some(number as i32)
            } else {
                None
            },
            _ => None,
        }
    }

    /// The member under `key` that holds something: `None` for a missing key,
    /// for a member that is `null` and for a document that is no object.
    pub open spec fn present(self, key: Seq<char>) -> Option<JsonValue> {
        match self.member(key) {
            Some(member) => if member is Null {
                None
            } else {
                Some(member)
            },
            None => None,
        }
    }

    /// A field that must be there and hold an integer within `u64`.
    pub open spec fn required_u64(self, key: Seq<char>) -> Option<u64> {
        match self.member(key) {
            Some(member) => member.as_u64(),
            None => None,
        }
    }

    /// A field that must be there and hold an integer within `i32`.
    pub open spec fn required_i32(self, key: Seq<char>) -> Option<i32> {
        match self.member(key) {
            Some(member) => member.as_i32(),
            None => None,
        }
    }

    /// A field that must be there and hold a string.
    pub open spec fn required_text(self, key: Seq<char>) -> Option<Seq<char>> {
        match self.member(key) {
            Some(member) => member.as_text(),
            None => None,
        }
    }

    /// A field that may be missing or `null`, and otherwise must hold an
    /// integer within `u64`. The outer `None` stands for a field of another
    /// kind.
    pub open spec fn optional_u64(self, key: Seq<char>) -> Option<Option<u64>> {
        match self.present(key) {
            Some(member) => match member.as_u64() {
                Some(number) => Some(Some(number)),
                None => None,
            },
            None => Some(None),
        }
    }

    /// A field that may be missing or `null`, and otherwise must hold a
    /// string. The outer `None` stands for a field of another kind.
    pub open spec fn optional_text(self, key: Seq<char>) -> Option<Option<Seq<char>>> {
        match self.present(key) {
            Some(member) => match member.as_text() {
                Some(text) => Some(Some(text)),
                None => None,
            },
            None => Some(None),
        }
    }

    /// A field that may be missing or `null`, and otherwise must hold a
    /// boolean. The outer `None` stands for a field of another kind.
    pub open spec fn optional_bool(self, key: Seq<char>) -> Option<Option<bool>> {
        match self.present(key) {
            Some(member) => match member.as_bool() {
                Some(flag) => Some(Some(flag)),
                None => None,
            },
            None => Some(None),
        }
    }
}

/// A parsed JSON document of `serde_json`. Verus sees nothing inside it.
#[verifier::external_type_specification]
#[verifier::external_body]
pub struct ExValue(serde_json::Value);

/// The JSON document that a `serde_json::Value` holds.
pub uninterp spec fn json_model(value: serde_json::Value) -> JsonValue;

/// The document that `serde_json::from_str` parses `text` to, or `None` where
/// it rejects `text`.
pub uninterp spec fn json_parse(text: Seq<char>) -> Option<JsonValue>;

/// The JSON string literal, quotes and escapes included, that
/// `serde_json::to_string` writes for the string `text`.
pub uninterp spec fn json_string(text: Seq<char>) -> Seq<char>;

/// Calls `serde_json::from_str` for a `serde_json::Value`. The result is a
/// function of `text` alone: the value holds the document [`json_parse`] names,
/// and there is no value exactly where `serde_json` returns an error.
#[verifier::external_body]
pub(crate) fn parse_value(text: &str) -> (parsed: Option<serde_json::Value>)
    ensures
        match parsed {
            Some(value) => json_parse(text@) == Some(json_model(value)),
            None => json_parse(text@) is None,
        },
{
    serde_json::from_str::<serde_json::Value>(text).ok()
}

/// Calls `serde_json::to_string` on a string, which writes it as a JSON string
/// literal. Writing a string into memory cannot fail.
#[verifier::external_body]
pub(crate) fn quote_text(text: &str) -> (quoted: String)
    ensures
        quoted@ == json_string(text@),
{
    serde_json::to_string(text).unwrap_or_default()
}

/// Calls `serde_json::Value::get` with a string key: the member of an object
/// under that key, and nothing for a missing key or a value that is no object.
#[verifier::external_body]
pub(crate) fn value_member<'a>(value: &'a serde_json::Value, key: &str) -> (member: Option<
    &'a serde_json::Value,
>)
    ensures
        match member {
            Some(member) => json_model(*value).member(key@) == Some(json_model(*member)),
            None => json_model(*value).member(key@) is None,
        },
{
    value.get(key)
}

/// `serde_json::Value::is_null` tells whether the value is JSON's `null`.
pub assume_specification[ serde_json::Value::is_null ](value: &serde_json::Value) -> (null: bool)
    ensures
        null == (json_model(*value) is Null),
;

/// `serde_json::Value::is_object` tells whether the value is an object.
pub assume_specification[ serde_json::Value::is_object ](value: &serde_json::Value) -> (object:
    bool)
    ensures
        object == (json_model(*value) is Object),
;

/// `serde_json::Value::as_u64` returns the number of a value that is an
/// integer within `u64`, and nothing for any other value.
pub assume_specification[ serde_json::Value::as_u64 ](value: &serde_json::Value) -> (number:
    Option<u64>)
    ensures
        number == json_model(*value).as_u64(),
;

/// `serde_json::Value::as_i64` returns the number of a value that is an
/// integer within `i64`, and nothing for any other value.
pub assume_specification[ serde_json::Value::as_i64 ](value: &serde_json::Value) -> (number:
    Option<i64>)
    ensures
        number == json_model(*value).as_i64(),
;

/// `serde_json::Value::as_bool` returns the truth value of a boolean, and
/// nothing for any other value.
pub assume_specification[ serde_json::Value::as_bool ](value: &serde_json::Value) -> (flag: Option<
    bool,
>)
    ensures
        flag == json_model(*value).as_bool(),
;

/// `serde_json::Value::as_str` returns the characters of a string, and nothing
/// for any other value.
pub assume_specification<'a>[ serde_json::Value::as_str ](value: &'a serde_json::Value) -> (text:
    Option<&'a str>)
    ensures
        match text {
            Some(text) => json_model(*value).as_text() == Some(text@),
            None => json_model(*value).as_text() is None,
        },
;

/// `serde_json::Value::as_array` returns the elements of an array, in their
/// order, and nothing for any other value.
pub assume_specification<'a>[ serde_json::Value::as_array ](value: &'a serde_json::Value) -> (items:
    Option<&'a Vec<serde_json::Value>>)
    ensures
        match items {
            Some(items) => json_model(*value).as_array() == Some(models_of(items@)),
            None => json_model(*value).as_array() is None,
        },
;

/// The documents that the values of a sequence hold, in its order.
pub open spec fn models_of(values: Seq<serde_json::Value>) -> Seq<JsonValue> {
    Seq::new(values.len(), |i: int| json_model(values[i]))
}

/// The characters of an optional optional string.
pub open spec fn optional_text_view(field: Option<Option<String>>) -> Option<Option<Seq<char>>> {
    match field {
        Some(Some(text)) => Some(Some(text@)),
        Some(None) => Some(None),
        None => None,
    }
}

/// Tells whether two strings hold the same characters.
pub fn text_equals(text: &str, other: &str) -> (equal: bool)
    ensures
        equal == (text@ == other@),
{
    let text = text.to_owned();
    let other = other.to_owned();
    text == other
}

/// The member of `object` under `key` unless it is missing or `null`.
pub fn present<'a>(object: &'a serde_json::Value, key: &str) -> (member: Option<
    &'a serde_json::Value,
>)
    ensures
        match member {
            Some(member) => json_model(*object).present(key@) == Some(json_model(*member)),
            None => json_model(*object).present(key@) is None,
        },
{
    match value_member(object, key) {
        Some(member) => if member.is_null() {
            None
        } else {
            Some(member)
        },
        None => None,
    }
}

/// Reads a field that must be there and hold an integer within `u64`.
pub fn required_u64(object: &serde_json::Value, key: &str) -> (number: Option<u64>)
    ensures
        number == json_model(*object).required_u64(key@),
{
    match value_member(object, key) {
        Some(member) => member.as_u64(),
        None => None,
    }
}

/// Reads a field that must be there and hold an integer within `i32`.
pub fn required_i32(object: &serde_json::Value, key: &str) -> (number: Option<i32>)
    ensures
        number == json_model(*object).required_i32(key@),
{
    match value_member(object, key) {
        Some(member) => match member.as_i64() {
            Some(number) => if -2147483648 <= number && number <= 2147483647 {
                Some(number as i32)
            } else {
                None
            },
            None => None,
        },
        None => None,
    }
}

/// Reads a field that must be there and hold a string.
pub fn required_text(object: &serde_json::Value, key: &str) -> (text: Option<String>)
    ensures
        crate::models::text_view(text) == json_model(*object).required_text(key@),
{
    match value_member(object, key) {
        Some(member) => match member.as_str() {
            Some(text) => Some(text.to_owned()),
            None => None,
        },
        None => None,
    }
}

/// Reads a field that may be missing or `null` and otherwise must hold an
/// integer within `u64`.
pub fn optional_u64(object: &serde_json::Value, key: &str) -> (field: Option<Option<u64>>)
    ensures
        field == json_model(*object).optional_u64(key@),
{
    match present(object, key) {
        Some(member) => match member.as_u64() {
            Some(number) => Some(Some(number)),
            None => None,
        },
        None => Some(None),
    }
}

/// Reads a field that may be missing or `null` and otherwise must hold a
/// string.
pub fn optional_text(object: &serde_json::Value, key: &str) -> (field: Option<Option<String>>)
    ensures
        optional_text_view(field) == json_model(*object).optional_text(key@),
{
    match present(object, key) {
        Some(member) => match member.as_str() {
            Some(text) => Some(Some(text.to_owned())),
            None => None,
        },
        None => Some(None),
    }
}

/// Reads a field that may be missing or `null` and otherwise must hold a
/// boolean.
pub fn optional_bool(object: &serde_json::Value, key: &str) -> (field: Option<Option<bool>>)
    ensures
        field == json_model(*object).optional_bool(key@),
{
    match present(object, key) {
        Some(member) => match member.as_bool() {
            Some(flag) => Some(Some(flag)),
            None => None,
        },
        None => Some(None),
    }
}

} // verus!
