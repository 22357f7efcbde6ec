//! The few operations on JSON documents that the library needs, each a
//! call into `serde_json` whose outcome is named rather than spelled out.

use vstd::prelude::*;
use vstd::string::*;
use crate::text::optional_text;

verus! {

/// A parsed JSON value, opaque to the proofs.
#[verifier::external_type_specification]
#[verifier::external_body]
pub struct ExValue(serde_json::Value);

/// What `serde_json::from_str` makes of `document`: the value it holds, or
/// the parser's message.
pub uninterp spec fn json_document(document: Seq<char>) -> Result<serde_json::Value, Seq<char>>;

/// What indexing `value` by `key` gives: the member of that name, or the
/// null value where `value` is no object or has no such member.
pub uninterp spec fn json_member(value: serde_json::Value, key: Seq<char>) -> serde_json::Value;

/// The text that `value` holds, if it is a string.
pub uninterp spec fn json_text(value: serde_json::Value) -> Option<Seq<char>>;

/// The elements that `value` holds, if it is an array.
pub uninterp spec fn json_items(value: serde_json::Value) -> Option<Seq<serde_json::Value>>;

/// The view of a parse result.
pub open spec fn parse_view(r: Result<serde_json::Value, String>) -> Result<
    serde_json::Value,
    Seq<char>,
> {
    match r {
        Ok(v) => Ok(v),
        Err(e) => Err(e@),
    }
}

/// Parses a document with `serde_json::from_str`; a failure is given as the
/// parser's message. The contract only names the outcome, which depends on
/// the text alone.
#[verifier::external_body]
pub(crate) fn parse(document: &str) -> (r: Result<serde_json::Value, String>)
    ensures
        parse_view(r) == json_document(document@),
{
    serde_json::from_str::<serde_json::Value>(document).map_err(|e| e.to_string())
}

/// Indexes a value by a key with `Value`'s index operator, which hands out
/// the null value instead of failing. The contract only names the outcome.
#[verifier::external_body]
pub(crate) fn member<'a>(value: &'a serde_json::Value, key: &str) -> (r: &'a serde_json::Value)
    ensures
        *r == json_member(*value, key@),
{
    &value[key]
}

/// Reads a value as text with `Value::as_str`. The contract only names the
/// outcome.
#[verifier::external_body]
pub(crate) fn text(value: &serde_json::Value) -> (r: Option<String>)
    ensures
        optional_text(r) == json_text(*value),
{
    value.as_str().map(|s| s.to_string())
}

/// Reads a value as a list with `Value::as_array`. The contract only names
/// the outcome.
#[verifier::external_body]
pub(crate) fn items(value: &serde_json::Value) -> (r: Option<&Vec<serde_json::Value>>)
    ensures
        match r {
            Some(list) => json_items(*value) == Some(list@),
            None => json_items(*value) is None,
        },
{
    value.as_array()
}

/// The text under `key` in `value`, if there is a string there.
pub open spec fn text_member(value: serde_json::Value, key: Seq<char>) -> Option<Seq<char>> {
    json_text(json_member(value, key))
}

/// Reads the text under `key` in `value`.
pub(crate) fn read_text_member(value: &serde_json::Value, key: &str) -> (r: Option<String>)
    ensures
        optional_text(r) == text_member(*value, key@),
{
    text(member(value, key))
}

} // verus!
