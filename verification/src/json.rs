//! JSON values as `serde_json` reads and writes them.
//!
//! Nothing in this file is proved. It declares the types of `serde_json` that
//! the library handles, gives a mathematical model to what a
//! `serde_json::Value` holds, and states of each function of `serde_json`
//! that the library calls what its source shows.

use vstd::prelude::*;

verus! {

/// What a JSON number offers to a reader.
pub struct NumberView {
    /// The number as a signed 64-bit integer, where it is one.
    pub integer: Option<i64>,
    /// The bit pattern of the number as a double, where it has one.
    pub double: Option<u64>,
}

/// The mathematical model of a JSON value.
pub enum JsonView {
    Null,
    Bool(bool),
    Number(NumberView),
    Text(Seq<char>),
    Array(Seq<JsonView>),
    Object(Map<Seq<char>, JsonView>),
}

/// `serde_json::Value`, of which the library sees nothing but what the
/// functions below hand out.
#[verifier::external_type_specification]
#[verifier::external_body]
pub struct ExValue(serde_json::Value);

/// The JSON value that a `serde_json::Value` holds.
pub uninterp spec fn json_view(value: serde_json::Value) -> JsonView;

/// The JSON value that `serde_json` reads from a text, or `None` where it
/// rejects the text.
pub uninterp spec fn json_document(text: Seq<u8>) -> Option<JsonView>;

/// The JSON string literal that `serde_json` writes for a text, quotes and
/// escapes included, or `None` where it writes none.
pub uninterp spec fn json_quoted(text: Seq<char>) -> Option<Seq<char>>;

/// The models of a sequence of values, one for one.
pub open spec fn json_views(values: Seq<serde_json::Value>) -> Seq<JsonView> {
    values.map_values(|value: serde_json::Value| json_view(value))
}

/// `serde_json::from_slice` at the type `Value`: reads a whole text as one
/// JSON value. The text alone decides whether it is accepted and which value
/// comes out; a rejected text gives `None`.
#[verifier::external_body]
pub(crate) fn parse_document(text: &[u8]) -> (parsed: Option<serde_json::Value>)
    ensures
        match parsed {
            Some(value) => json_document(text@) == Some(json_view(value)),
            None => json_document(text@) is None,
        },
{
    serde_json::from_slice::<serde_json::Value>(text).ok()
}

/// `serde_json::to_string` at the type `str`: writes a text as a JSON string
/// literal. The text alone decides what is written; a failure gives `None`.
#[verifier::external_body]
pub(crate) fn quote(text: &str) -> (written: Option<String>)
    ensures
        match written {
            Some(literal) => json_quoted(text@) == Some(literal@),
            None => json_quoted(text@) is None,
        },
{
    serde_json::to_string(text).ok()
}

/// `Value::get` with a string index: the member of an object under a key.
/// There is none where the value is no object or the object lacks the key.
#[verifier::external_body]
pub(crate) fn member<'a>(
    value: &'a serde_json::Value,
    key: &str,
) -> (found: Option<&'a serde_json::Value>)
    ensures
        match json_view(*value) {
            JsonView::Object(members) => match found {
                Some(inner) => members.contains_key(key@) && members[key@] == json_view(*inner),
                None => !members.contains_key(key@),
            },
            _ => found is None,
        },
{
    value.get(key)
}

/// `Value::is_object`: whether the value is a JSON object.
pub assume_specification[ serde_json::Value::is_object ](
    value: &serde_json::Value,
) -> (answer: bool)
    ensures
        answer == (json_view(*value) is Object),
;

/// `Value::is_null`: whether the value is JSON's `null`.
pub assume_specification[ serde_json::Value::is_null ](
    value: &serde_json::Value,
) -> (answer: bool)
    ensures
        answer == (json_view(*value) is Null),
;

/// `Value::as_array`: the elements of an array, in order. There are none
/// where the value is no array.
pub assume_specification<'a>[ serde_json::Value::as_array ](
    value: &'a serde_json::Value,
) -> (elements: Option<&'a Vec<serde_json::Value>>)
    ensures
        match json_view(*value) {
            JsonView::Array(items) => elements matches Some(found) && json_views(found@) == items,
            _ => elements is None,
        },
;

/// `Value::as_str`: the text of a JSON string. There is none where the value
/// is no string.
pub assume_specification<'a>[ serde_json::Value::as_str ](
    value: &'a serde_json::Value,
) -> (text: Option<&'a str>)
    ensures
        match json_view(*value) {
            JsonView::Text(chars) => text matches Some(found) && found@ == chars,
            _ => text is None,
        },
;

/// `Value::as_i64`: a JSON number as a signed 64-bit integer. There is none
/// where the value is no number, or a number that is no such integer.
pub assume_specification[ serde_json::Value::as_i64 ](
    value: &serde_json::Value,
) -> (integer: Option<i64>)
    ensures
        integer == match json_view(*value) {
            JsonView::Number(number) => number.integer,
            _ => None,
        },
;

/// `Value::as_f64`, handed out as the bit pattern of the double. There is
/// none where the value is no number, or a number that has no double.
#[verifier::external_body]
pub(crate) fn double_bits(value: &serde_json::Value) -> (bits: Option<u64>)
    ensures
        bits == match json_view(*value) {
            JsonView::Number(number) => number.double,
            _ => None,
        },
{
    match value.as_f64() {
        Some(double) => Some(double.to_bits()),
        None => None,
    }
}

} // verus!
