//! JSON documents, read through `serde_json`.
//!
//! A document is a `serde_json::Value`, which is opaque here: what it holds
//! is known only through the functions of this module, each of which stands
//! for one function of `serde_json` and is taken on trust.

use vstd::prelude::*;

verus! {

/// `serde_json::Value`, declared so that signatures and fields can name it.
/// Nothing is known here of what a value holds.
#[verifier::external_type_specification]
#[verifier::external_body]
pub struct ExValue(serde_json::Value);

/// The document that `serde_json::from_slice` reads from these bytes, if it
/// reads one.
pub uninterp spec fn json_document(bytes: Seq<u8>) -> Option<serde_json::Value>;

/// Whether `serde_json::Value::is_object` holds of a value.
pub uninterp spec fn json_is_object(value: serde_json::Value) -> bool;

/// Whether `serde_json::Value::is_null` holds of a value.
pub uninterp spec fn json_is_null(value: serde_json::Value) -> bool;

/// What `serde_json::Value::get` finds in a value under a key.
pub uninterp spec fn json_member(value: serde_json::Value, key: Seq<char>) -> Option<
    serde_json::Value,
>;

/// What `serde_json::Value::as_str` finds in a value.
pub uninterp spec fn json_text(value: serde_json::Value) -> Option<Seq<char>>;

/// What `serde_json::Value::as_array` finds in a value.
pub uninterp spec fn json_elements(value: serde_json::Value) -> Option<Seq<serde_json::Value>>;

/// `serde_json::from_slice` at the type `serde_json::Value`: the bytes alone
/// decide whether a document is read and which. An error is `None`.
#[verifier::external_body]
pub(crate) fn parse_document(bytes: &[u8]) -> (document: Option<serde_json::Value>)
    ensures
        document == json_document(bytes@),
{
    serde_json::from_slice::<serde_json::Value>(bytes).ok()
}

/// `serde_json::Value::is_object`: whether the value is an object. The value
/// alone decides.
#[verifier::external_body]
pub(crate) fn is_object(value: &serde_json::Value) -> (object: bool)
    ensures
        object == json_is_object(*value),
{
    value.is_object()
}

/// `serde_json::Value::is_null`: whether the value is `null`. The value alone
/// decides.
#[verifier::external_body]
pub(crate) fn is_null(value: &serde_json::Value) -> (null: bool)
    ensures
        null == json_is_null(*value),
{
    value.is_null()
}

/// `serde_json::Value::get` with a string: a copy of the member of an object
/// under that key; `None` where the value is no object or has no such
/// member. The value and the key alone decide.
#[verifier::external_body]
pub(crate) fn member(value: &serde_json::Value, key: &str) -> (found: Option<serde_json::Value>)
    ensures
        found == json_member(*value, key@),
{
    value.get(key).cloned()
}

/// `serde_json::Value::as_str`: a copy of the text of a string; `None` where
/// the value is no string. The value alone decides.
#[verifier::external_body]
pub(crate) fn text_of(value: &serde_json::Value) -> (text: Option<String>)
    ensures
        crate::query::text_view(text) == json_text(*value),
{
    value.as_str().map(String::from)
}

/// `serde_json::Value::as_array`: a copy of the elements of an array, in
/// their order; `None` where the value is no array. The value alone decides.
#[verifier::external_body]
pub(crate) fn elements_of(value: &serde_json::Value) -> (elements: Option<Vec<serde_json::Value>>)
    ensures
        list_view(elements) == json_elements(*value),
{
    value.as_array().cloned()
}

/// The value of an optional list, as a sequence.
pub open spec fn list_view(list: Option<Vec<serde_json::Value>>) -> Option<
    Seq<serde_json::Value>,
> {
    match list {
        Some(elements) => Some(elements@),
        None => None,
    }
}

/// What a document holds under a key, for a field that is to hold a `T`.
#[derive(Debug, PartialEq, Eq)]
pub enum Member<T> {
    /// The document has no member under the key.
    Absent,
    /// The member is `null`.
    Null,
    /// The member is a `T`.
    Held(T),
    /// The member is something else.
    Other,
}

/// A member that is to hold text, as mathematical values.
pub open spec fn text_member_view(member: Member<String>) -> Member<Seq<char>> {
    match member {
        Member::Absent => Member::Absent,
        Member::Null => Member::Null,
        Member::Held(text) => Member::Held(text@),
        Member::Other => Member::Other,
    }
}

/// A member that is to hold a list, as mathematical values.
pub open spec fn list_member_view(member: Member<Vec<serde_json::Value>>) -> Member<
    Seq<serde_json::Value>,
> {
    match member {
        Member::Absent => Member::Absent,
        Member::Null => Member::Null,
        Member::Held(elements) => Member::Held(elements@),
        Member::Other => Member::Other,
    }
}

/// What a document holds under a key, for a field that is to hold text.
pub open spec fn text_member(document: serde_json::Value, key: Seq<char>) -> Member<Seq<char>> {
    match json_member(document, key) {
        None => Member::Absent,
        Some(value) => if json_is_null(value) {
            Member::Null
        } else {
            match json_text(value) {
                Some(text) => Member::Held(text),
                None => Member::Other,
            }
        },
    }
}

/// What a document holds under a key, for a field that is to hold a list.
pub open spec fn list_member(document: serde_json::Value, key: Seq<char>) -> Member<
    Seq<serde_json::Value>,
> {
    match json_member(document, key) {
        None => Member::Absent,
        Some(value) => if json_is_null(value) {
            Member::Null
        } else {
            match json_elements(value) {
                Some(elements) => Member::Held(elements),
                None => Member::Other,
            }
        },
    }
}

/// Looks up a member that is to hold text.
pub fn find_text(document: &serde_json::Value, key: &str) -> (found: Member<String>)
    ensures
        text_member_view(found) == text_member(*document, key@),
{
    match member(document, key) {
        None => Member::Absent,
        Some(value) => {
            if is_null(&value) {
                Member::Null
            } else {
                match text_of(&value) {
                    Some(text) => Member::Held(text),
                    None => Member::Other,
                }
            }
        },
    }
}

/// Looks up a member that is to hold a list.
pub fn find_list(document: &serde_json::Value, key: &str) -> (found: Member<
    Vec<serde_json::Value>,
>)
    ensures
        list_member_view(found) == list_member(*document, key@),
{
    match member(document, key) {
        None => Member::Absent,
        Some(value) => {
            if is_null(&value) {
                Member::Null
            } else {
                match elements_of(&value) {
                    Some(elements) => Member::Held(elements),
                    None => Member::Other,
                }
            }
        },
    }
}

} // verus!
