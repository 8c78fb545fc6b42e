//! Reading the JSON that nix prints, through `serde_json`.
//!
//! A `serde_json::Value` is opaque to the verifier. What it holds is named by [`json_view`],
//! and the few accessors used here are stated over that name.

use crate::failure::{Failure, FailureView};
use vstd::prelude::*;
use vstd::string::StringExecFns;

verus! {

/// `serde_json::Value`, of which nothing is known here but what [`json_view`] names.
#[verifier::external_type_specification]
#[verifier::external_body]
pub struct ExValue(serde_json::Value);

/// `serde_json::Error`, of which nothing is known here but what [`json_complaint`] names.
#[verifier::external_type_specification]
#[verifier::external_body]
pub struct ExError(serde_json::Error);

/// A JSON document as a mathematical value.
///
/// Of a number only this is kept: the number itself where it is a non-negative integer that
/// fits in 64 bits, and nothing otherwise.
pub enum Json {
    Null,
    Bool(bool),
    Number(Option<u64>),
    Text(Seq<char>),
    Array(Seq<Json>),
    Object(Map<Seq<char>, Json>),
}

/// What a `serde_json::Value` holds.
pub uninterp spec fn json_view(value: serde_json::Value) -> Json;

/// What `serde_json::from_slice` makes of `bytes`: the document, or the text of its complaint.
pub uninterp spec fn json_read(bytes: Seq<u8>) -> Result<Json, Seq<char>>;

/// What a `serde_json::Error` says when it is displayed.
pub uninterp spec fn json_complaint(error: serde_json::Error) -> Seq<char>;

/// Calls `serde_json::from_slice::<serde_json::Value>`. Trusted: the outcome depends on the
/// bytes alone, and is the one that `json_read` names.
#[verifier::external_body]
fn from_slice(bytes: &[u8]) -> (read: Result<serde_json::Value, serde_json::Error>)
    ensures
        match read {
            Ok(value) => json_read(bytes@) == Ok::<Json, Seq<char>>(json_view(value)),
            Err(error) => json_read(bytes@) == Err::<Json, Seq<char>>(json_complaint(error)),
        },
{
    serde_json::from_slice::<serde_json::Value>(bytes)
}

/// Calls `ToString::to_string` on a `serde_json::Error`, which goes through its `Display`.
/// Trusted: the text is the one that `json_complaint` names.
#[verifier::external_body]
fn complaint(error: &serde_json::Error) -> (text: String)
    ensures
        text@ == json_complaint(*error),
{
    error.to_string()
}

/// Calls `serde_json::Value::get` with a `usize`. Trusted: of an array it yields the element
/// at that position if there is one, of anything else nothing.
#[verifier::external_body]
pub(crate) fn element(value: &serde_json::Value, index: usize) -> (found: Option<
    &serde_json::Value,
>)
    ensures
        match found {
            Some(item) => json_view(*value) matches Json::Array(items) && index < items.len()
                && json_view(*item) == items[index as int],
            None => !(json_view(*value) matches Json::Array(items) && index < items.len()),
        },
{
    value.get(index)
}

/// Calls `serde_json::Value::get` with a `&str`. Trusted: of an object it yields the value
/// stored under that key if there is one, of anything else nothing.
#[verifier::external_body]
pub(crate) fn member<'a>(value: &'a serde_json::Value, key: &str) -> (found: Option<
    &'a serde_json::Value,
>)
    ensures
        match found {
            Some(item) => json_view(*value) matches Json::Object(fields) && fields.contains_key(
                key@,
            ) && json_view(*item) == fields[key@],
            None => !(json_view(*value) matches Json::Object(fields) && fields.contains_key(
                key@,
            )),
        },
{
    value.get(key)
}

/// Calls `serde_json::Value::as_u64`. Trusted: it yields the number where the value is a
/// non-negative integer that fits in 64 bits, and nothing otherwise.
#[verifier::external_body]
pub(crate) fn as_u64(value: &serde_json::Value) -> (number: Option<u64>)
    ensures
        number == (match json_view(*value) {
            Json::Number(n) => n,
            _ => None::<u64>,
        }),
{
    value.as_u64()
}

/// Calls `serde_json::Value::as_str`. Trusted: it yields the text where the value is a
/// string, and nothing otherwise.
#[verifier::external_body]
pub(crate) fn as_str(value: &serde_json::Value) -> (text: Option<&str>)
    ensures
        match text {
            Some(t) => json_view(*value) == Json::Text(t@),
            None => !(json_view(*value) is Text),
        },
{
    value.as_str()
}

/// Calls `serde_json::Value::as_array`. Trusted: it yields the elements, in order, where the
/// value is an array, and nothing otherwise.
#[verifier::external_body]
pub(crate) fn as_array(value: &serde_json::Value) -> (items: Option<&Vec<serde_json::Value>>)
    ensures
        match items {
            Some(found) => json_view(*value) matches Json::Array(elements) && found@.len()
                == elements.len() && forall|i: int|
                0 <= i < found@.len() ==> json_view(#[trigger] found@[i]) == elements[i],
            None => !(json_view(*value) is Array),
        },
{
    value.as_array()
}

/// The first element of an array that has one.
pub open spec fn first_of(document: Json) -> Option<Json> {
    match document {
        Json::Array(paths) => if paths.len() > 0 {
            Some(paths[0])
        } else {
            None
        },
        _ => None,
    }
}

/// What an object stores under `key`, if anything.
pub open spec fn field_of(document: Json, key: Seq<char>) -> Option<Json> {
    match document {
        Json::Object(fields) => if fields.contains_key(key) {
            Some(fields[key])
        } else {
            None
        },
        _ => None,
    }
}

/// What reading the output of a nix command comes to: the document, or the failure to
/// report.
pub open spec fn read_output(bytes: Seq<u8>) -> Result<Json, FailureView> {
    match json_read(bytes) {
        Ok(document) => Ok(document),
        Err(text) => Err(FailureView::bare(text).within("parsing the output of the nix command"@)),
    }
}

/// Reads the JSON document that a nix command printed.
pub fn parse(bytes: &[u8]) -> (read: Result<serde_json::Value, Failure>)
    ensures
        match read {
            Ok(value) => read_output(bytes@) == Ok::<Json, FailureView>(json_view(value)),
            Err(failure) => read_output(bytes@) == Err::<Json, FailureView>(failure@),
        },
{
    match from_slice(bytes) {
        Ok(value) => Ok(value),
        Err(error) => Err(
            Failure::new(complaint(&error)).context(
                String::from_str("parsing the output of the nix command"),
            ),
        ),
    }
}

/// The texts of an array of strings; nothing if `document` is anything else.
pub open spec fn texts_of(document: Json) -> Option<Seq<Seq<char>>> {
    match document {
        Json::Array(items) => if forall|i: int|
            0 <= i < items.len() ==> #[trigger] items[i] is Text {
            Some(Seq::new(items.len(), |i: int| items[i]->Text_0))
        } else {
            None
        },
        _ => None,
    }
}

/// The texts of an array of strings.
pub fn texts(value: &serde_json::Value) -> (found: Option<Vec<String>>)
    ensures
        found.deep_view() == texts_of(json_view(*value)),
{
    match as_array(value) {
        None => None,
        Some(items) => {
            let ghost elements = json_view(*value)->Array_0;
            let mut found: Vec<String> = Vec::new();
            let mut i: usize = 0;
            while i < items.len()
                invariant
                    i <= items.len(),
                    json_view(*value) == Json::Array(elements),
                    items@.len() == elements.len(),
                    forall|j: int|
                        0 <= j < items@.len() ==> json_view(#[trigger] items@[j]) == elements[j],
                    found@.len() == i,
                    forall|j: int| 0 <= j < i ==> elements[j] == Json::Text(#[trigger] found@[j]@),
                decreases items.len() - i,
            {
                match as_str(&items[i]) {
                    None => {
                        assert(!(elements[i as int] is Text));
                        return None;
                    },
                    Some(text) => {
                        found.push(String::from_str(text));
                    },
                }
                i = i + 1;
            }
            assert forall|j: int| 0 <= j < elements.len() implies (
            #[trigger] elements[j]) is Text by {
                assert(elements[j] == Json::Text(found@[j]@));
            }
            assert forall|j: int| 0 <= j < elements.len() implies found.deep_view()[j]
                == elements[j]->Text_0 by {
                assert(elements[j] == Json::Text(found@[j]@));
            }
            assert(found.deep_view() =~= texts_of(json_view(*value))->0);
            Some(found)
        },
    }
}

} // verus!
