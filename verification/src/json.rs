//! JSON, as far as the event stream needs it.
//!
//! Parsing is left to `serde_json`. Nothing here is proved: each item states what the
//! parser does, in terms of the string members of a JSON object.

use vstd::prelude::*;

verus! {

/// `serde_json::Value`, a JSON value: carried through, never looked into.
#[verifier::external_type_specification]
#[verifier::external_body]
pub struct ExValue(serde_json::Value);

/// `serde_json::Error`, the reason why a text is not JSON: carried through, never looked into.
#[verifier::external_type_specification]
#[verifier::external_body]
pub struct ExJsonError(serde_json::Error);

/// What `text` says when read as JSON: `None` where it is not one JSON value; else the
/// string members of the value, by name (none where the value is no object).
pub uninterp spec fn parsed_strings(text: Seq<char>) -> Option<Map<Seq<char>, Seq<char>>>;

/// The members of a JSON object whose values are strings, by name; empty for a value
/// that is no object.
pub uninterp spec fn string_members(value: serde_json::Value) -> Map<Seq<char>, Seq<char>>;

/// The text of a JSON value that is a string; `None` for any other value.
pub uninterp spec fn string_content(value: serde_json::Value) -> Option<Seq<char>>;

/// `serde_json::from_str` for a `Value`: it succeeds or fails by `text` alone, and the
/// value it gives holds the string members that the text spells out.
#[verifier::external_body]
pub(crate) fn parse_value(text: &str) -> (r: Result<serde_json::Value, serde_json::Error>)
    ensures
        match r {
            Ok(value) => parsed_strings(text@) == Some(string_members(value)),
            Err(_) => parsed_strings(text@) is None,
        },
{
    serde_json::from_str::<serde_json::Value>(text)
}

/// `serde_json::Value::get` with a string index: the member `name` of an object, `None`
/// where the value is no object or has no such member. The member is a string exactly
/// where `name` is among the string members, and then it is that string.
#[verifier::external_body]
pub(crate) fn member<'a>(value: &'a serde_json::Value, name: &str) -> (r: Option<&'a serde_json::Value>)
    ensures
        match r {
            Some(found) => match string_content(*found) {
                Some(text) => string_members(*value).contains_pair(name@, text),
                None => !string_members(*value).contains_key(name@),
            },
            None => !string_members(*value).contains_key(name@),
        },
{
    value.get(name)
}

/// `serde_json::Value::as_str`: the text of a value that is a string, `None` for any other.
pub assume_specification<'a>[ serde_json::Value::as_str ](value: &'a serde_json::Value) -> (r:
    Option<&'a str>)
    ensures
        match r {
            Some(text) => string_content(*value) == Some(text@),
            None => string_content(*value) is None,
        },
;

} // verus!
