//! Decoding JSON values into typed records.
//!
//! A type that the service answers with implements [`Decode`]: it says, over
//! the model of a JSON value, which values stand for a record of the type and
//! for which record, and it offers the function that decodes one.

use crate::errors::Error;
use crate::json::{
    double_bits, json_document, json_view, json_views, member, parse_document, JsonView,
};
use vstd::prelude::*;

verus! {

/// A double-precision number, held by its IEEE 754 bit pattern.
#[derive(Clone, Copy, Debug, PartialEq, Eq, Structural)]
pub struct Double {
    pub bits: u64,
}

impl DeepView for Double {
    type V = Double;

    open spec fn deep_view(&self) -> Double {
        *self
    }
}

/// A type whose values are read from JSON.
pub trait Decode: Sized + DeepView {
    /// The record that a JSON value stands for, or `None` where the value
    /// has not the shape of one.
    spec fn spec_decode(json: JsonView) -> Option<<Self as DeepView>::V>;

    /// The record that a member missing from an object stands for, or
    /// `None` where the member is required.
    spec fn spec_absent() -> Option<<Self as DeepView>::V>;

    /// Decodes a JSON value. Fails with [`Error::Parse`] exactly where the
    /// value has not the shape of a record.
    fn decode(value: &serde_json::Value) -> (decoded: Result<Self, Error>)
        ensures
            match decoded {
                Ok(record) => Self::spec_decode(json_view(*value)) == Some(record.deep_view()),
                Err(error) => error == Error::Parse && Self::spec_decode(json_view(*value))
                    is None,
            },
    ;

    /// The record for a member that is missing from an object. Fails with
    /// [`Error::Parse`] exactly where the member is required.
    fn absent() -> (decoded: Result<Self, Error>)
        ensures
            match decoded {
                Ok(record) => Self::spec_absent() == Some(record.deep_view()),
                Err(error) => error == Error::Parse && Self::spec_absent() is None,
            },
    ;
}

impl Decode for String {
    open spec fn spec_decode(json: JsonView) -> Option<Seq<char>> {
        match json {
            JsonView::Text(chars) => Some(chars),
            _ => None,
        }
    }

    open spec fn spec_absent() -> Option<Seq<char>> {
        None
    }

    fn decode(value: &serde_json::Value) -> (decoded: Result<String, Error>) {
        match value.as_str() {
            Some(text) => Ok(text.to_owned()),
            None => Err(Error::Parse),
        }
    }

    fn absent() -> (decoded: Result<String, Error>) {
        Err(Error::Parse)
    }
}

impl Decode for i64 {
    open spec fn spec_decode(json: JsonView) -> Option<i64> {
        match json {
            JsonView::Number(number) => number.integer,
            _ => None,
        }
    }

    open spec fn spec_absent() -> Option<i64> {
        None
    }

    fn decode(value: &serde_json::Value) -> (decoded: Result<i64, Error>) {
        match value.as_i64() {
            Some(integer) => Ok(integer),
            None => Err(Error::Parse),
        }
    }

    fn absent() -> (decoded: Result<i64, Error>) {
        Err(Error::Parse)
    }
}

impl Decode for Double {
    open spec fn spec_decode(json: JsonView) -> Option<Double> {
        match json {
            JsonView::Number(number) => match number.double {
                Some(bits) => Some(Double { bits }),
                None => None,
            },
            _ => None,
        }
    }

    open spec fn spec_absent() -> Option<Double> {
        None
    }

    fn decode(value: &serde_json::Value) -> (decoded: Result<Double, Error>) {
        match double_bits(value) {
            Some(bits) => Ok(Double { bits }),
            None => Err(Error::Parse),
        }
    }

    fn absent() -> (decoded: Result<Double, Error>) {
        Err(Error::Parse)
    }
}

/// An optional member: `null` and a missing member both stand for `None`,
/// anything else must have the shape of a `T`.
impl<T: Decode> Decode for Option<T> {
    open spec fn spec_decode(json: JsonView) -> Option<Option<T::V>> {
        if json is Null {
            Some(None)
        } else {
            match T::spec_decode(json) {
                Some(record) => Some(Some(record)),
                None => None,
            }
        }
    }

    open spec fn spec_absent() -> Option<Option<T::V>> {
        Some(None)
    }

    fn decode(value: &serde_json::Value) -> (decoded: Result<Option<T>, Error>) {
        if value.is_null() {
            Ok(None)
        } else {
            match T::decode(value) {
                Ok(record) => Ok(Some(record)),
                Err(_) => Err(Error::Parse),
            }
        }
    }

    fn absent() -> (decoded: Result<Option<T>, Error>) {
        Ok(None)
    }
}

/// A sequence: a JSON array each of whose elements has the shape of a `T`,
/// in the order of the array.
impl<T: Decode> Decode for Vec<T> {
    open spec fn spec_decode(json: JsonView) -> Option<Seq<T::V>> {
        match json {
            JsonView::Array(items) => if forall|i: int|
                0 <= i < items.len() ==> (#[trigger] T::spec_decode(items[i])) is Some {
                Some(Seq::new(items.len(), |i: int| T::spec_decode(items[i]).unwrap()))
            } else {
                None
            },
            _ => None,
        }
    }

    open spec fn spec_absent() -> Option<Seq<T::V>> {
        None
    }

    fn decode(value: &serde_json::Value) -> (decoded: Result<Vec<T>, Error>) {
        match value.as_array() {
            None => Err(Error::Parse),
            Some(elements) => {
                let ghost items = json_views(elements@);
                let mut records: Vec<T> = Vec::new();
                let mut index: usize = 0;
                while index < elements.len()
                    invariant
                        index <= elements.len(),
                        json_view(*value) == JsonView::Array(items),
                        items == json_views(elements@),
                        records@.len() == index,
                        forall|i: int|
                            0 <= i < index ==> #[trigger] T::spec_decode(items[i]) == Some(
                                records@[i].deep_view(),
                            ),
                    decreases elements.len() - index,
                {
                    match T::decode(&elements[index]) {
                        Ok(record) => {
                            records.push(record);
                        },
                        Err(_) => {
                            assert(T::spec_decode(items[index as int]) is None);
                            return Err(Error::Parse);
                        },
                    }
                    index += 1;
                }
                assert(records.deep_view() =~= Seq::new(
                    items.len(),
                    |i: int| T::spec_decode(items[i]).unwrap(),
                ));
                Ok(records)
            },
        }
    }

    fn absent() -> (decoded: Result<Vec<T>, Error>) {
        Err(Error::Parse)
    }
}

/// The record that the member of an object under a key stands for: the
/// member decoded where the object has it, what a missing member stands for
/// where it has not, and `None` where the value is no object.
pub open spec fn spec_field<T: Decode>(json: JsonView, key: Seq<char>) -> Option<T::V> {
    match json {
        JsonView::Object(members) => if members.contains_key(key) {
            T::spec_decode(members[key])
        } else {
            T::spec_absent()
        },
        _ => None,
    }
}

/// Decodes the member of an object under a key.
pub fn field<T: Decode>(value: &serde_json::Value, key: &str) -> (decoded: Result<T, Error>)
    ensures
        match decoded {
            Ok(record) => spec_field::<T>(json_view(*value), key@) == Some(record.deep_view()),
            Err(error) => error == Error::Parse && spec_field::<T>(json_view(*value), key@)
                is None,
        },
{
    match member(value, key) {
        Some(inner) => T::decode(inner),
        None => if value.is_object() {
            T::absent()
        } else {
            Err(Error::Parse)
        },
    }
}

/// What a text that was read as JSON stands for: the record that its value
/// stands for, and [`Error::Parse`] where the text was rejected or the value
/// has not the shape of a record.
pub open spec fn spec_decode_document<T: Decode>(
    document: Option<JsonView>,
) -> Result<T::V, Error> {
    match document {
        Some(json) => match T::spec_decode(json) {
            Some(record) => Ok(record),
            None => Err(Error::Parse),
        },
        None => Err(Error::Parse),
    }
}

/// What the body of an answer stands for: what `serde_json` reads from it,
/// decoded.
pub open spec fn spec_decode_body<T: Decode>(body: Seq<u8>) -> Result<T::V, Error> {
    spec_decode_document::<T>(json_document(body))
}

/// The model of a decoded answer, or the error that came in its place.
pub open spec fn spec_decoded<T: Decode>(decoded: Result<T, Error>) -> Result<T::V, Error> {
    match decoded {
        Ok(record) => Ok(record.deep_view()),
        Err(error) => Err(error),
    }
}

/// The model of a text that was read as JSON, if it was accepted.
pub open spec fn spec_document(document: Option<serde_json::Value>) -> Option<JsonView> {
    match document {
        Some(value) => Some(json_view(value)),
        None => None,
    }
}

/// Decodes a text that was read as JSON.
pub fn decode_document<T: Decode>(
    document: Option<serde_json::Value>,
) -> (decoded: Result<T, Error>)
    ensures
        spec_decoded(decoded) == spec_decode_document::<T>(spec_document(document)),
{
    match document {
        Some(value) => T::decode(&value),
        None => Err(Error::Parse),
    }
}

/// Decodes the body of an answer: UTF-8 text that holds one JSON value.
pub fn decode_body<T: Decode>(body: &[u8]) -> (decoded: Result<T, Error>)
    ensures
        spec_decoded(decoded) == spec_decode_body::<T>(body@),
{
    decode_document(parse_document(body))
}

} // verus!
