//! The part of `serde_json` that the crate relies on: parsing a text into a
//! value, looking a key up in an object, and taking a string out of a value.
//!
//! Nothing here is proved. Each item states, in the terms of [`json_texts`],
//! what the function of `serde_json` that it names does.

use vstd::prelude::*;

verus! {

/// `serde_json::Value`: a parsed JSON value, opaque to the verifier.
#[verifier::external_type_specification]
#[verifier::external_body]
pub struct ExJsonValue(serde_json::Value);

/// The strings that a JSON value holds, each under the sequence of object
/// keys that leads to it from the value. A value that is itself a string
/// holds it under the empty sequence; strings inside arrays are not counted.
pub uninterp spec fn json_texts(value: serde_json::Value) -> Map<Seq<Seq<char>>, Seq<char>>;

/// The strings of the JSON value that a text denotes, keyed as in
/// [`json_texts`], or `None` when the text is not one JSON value.
pub uninterp spec fn json_document(text: Seq<char>) -> Option<Map<Seq<Seq<char>>, Seq<char>>>;

/// Whether `part` holds exactly the strings that `whole` holds under `key`.
pub open spec fn holds_member(
    whole: Map<Seq<Seq<char>>, Seq<char>>,
    key: Seq<char>,
    part: Map<Seq<Seq<char>>, Seq<char>>,
) -> bool {
    forall|path: Seq<Seq<char>>| #[trigger]
        part.contains_key(path) == whole.contains_key(seq![key] + path) && (part.contains_key(
            path,
        ) ==> part[path] == whole[seq![key] + path])
}

/// Whether `whole` holds no string under `key`.
pub open spec fn lacks_member(whole: Map<Seq<Seq<char>>, Seq<char>>, key: Seq<char>) -> bool {
    forall|path: Seq<Seq<char>>| !#[trigger] whole.contains_key(seq![key] + path)
}

/// Calls `serde_json::from_str` for a `Value` and drops the reason of a
/// failure. On success the value holds the strings of the document that the
/// text denotes; the call fails exactly when the text is not one JSON value.
#[verifier::external_body]
pub(crate) fn parse_json(text: &str) -> (r: Option<serde_json::Value>)
    ensures
        match r {
            Some(value) => json_document(text@) == Some(json_texts(value)),
            None => json_document(text@) is None,
        },
{
    serde_json::from_str::<serde_json::Value>(text).ok()
}

/// Calls `Value::get` with a string key, which looks the key up when the
/// value is an object. A member that is found holds exactly the strings that
/// the value holds under the key; when none is found, because the value is
/// no object or has no such key, the value holds no string under the key.
#[verifier::external_body]
pub(crate) fn json_member<'a>(value: &'a serde_json::Value, key: &str) -> (r: Option<&'a serde_json::Value>)
    ensures
        match r {
            Some(member) => holds_member(json_texts(*value), key@, json_texts(*member)),
            None => lacks_member(json_texts(*value), key@),
        },
{
    value.get(key)
}

/// Calls `Value::as_str`, which hands out the string when the value is one.
#[verifier::external_body]
pub(crate) fn json_text<'a>(value: &'a serde_json::Value) -> (r: Option<&'a str>)
    ensures
        match r {
            Some(text) => json_texts(*value).contains_key(Seq::empty()) && json_texts(
                *value,
            )[Seq::empty()] == text@,
            None => !json_texts(*value).contains_key(Seq::empty()),
        },
{
    value.as_str()
}

} // verus!
