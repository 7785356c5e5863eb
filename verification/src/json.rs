//! JSON through `serde_json`: parsing a text, looking up members of the parsed
//! document, and quoting a text as a JSON string. What `serde_json` computes
//! is believed, not proved; each item below says what is believed.

use vstd::prelude::*;

verus! {

/// `serde_json::Value`, a parsed JSON document. Opaque here: its content is
/// reached through the lookups below.
#[verifier::external_type_specification]
#[verifier::external_body]
pub struct ExValue(serde_json::Value);

/// The document that `serde_json::from_str` reads from a text, or `None`
/// where it rejects the text.
pub uninterp spec fn json_parsed(text: Seq<char>) -> Option<serde_json::Value>;

/// What `Value::pointer` finds in a document at a JSON Pointer, or `None`
/// where the pointer leads nowhere.
pub uninterp spec fn json_member(document: serde_json::Value, pointer: Seq<char>) -> Option<
    serde_json::Value,
>;

/// The text of a value that is a string, as `Value::as_str` gives it; `None`
/// for any other value.
pub uninterp spec fn json_string(value: serde_json::Value) -> Option<Seq<char>>;

/// The number of a value that is an integer from 0 to `u64::MAX`, as
/// `Value::as_u64` gives it; `None` for any other value.
pub uninterp spec fn json_u64(value: serde_json::Value) -> Option<u64>;

/// A text written as a JSON string, quotes and escapes included, as
/// `serde_json::to_string` writes it; `None` where that call fails, which it
/// does for no text.
pub uninterp spec fn json_quoted(text: Seq<char>) -> Option<Seq<char>>;

/// The string that a document holds at a JSON Pointer; `None` where the
/// pointer leads nowhere or to something that is not a string.
pub open spec fn json_string_at(document: serde_json::Value, pointer: Seq<char>) -> Option<
    Seq<char>,
> {
    match json_member(document, pointer) {
        Some(value) => json_string(value),
        None => None,
    }
}

/// The number that a document holds at a JSON Pointer, where it is an integer
/// from 0 to `u64::MAX`; `None` otherwise.
pub open spec fn json_u64_at(document: serde_json::Value, pointer: Seq<char>) -> Option<u64> {
    match json_member(document, pointer) {
        Some(value) => json_u64(value),
        None => None,
    }
}

/// Calls `serde_json::from_str` for a `Value`; a failure comes back as the
/// text that `serde_json` gives it. Whether the call succeeds, and with which
/// document, depends on the text alone, so the contract names it. Nothing is
/// claimed of a failure's text.
#[verifier::external_body]
pub(crate) fn parse_document(text: &str) -> (outcome: Result<serde_json::Value, String>)
    ensures
        outcome.is_ok() == json_parsed(text@).is_some(),
        outcome matches Ok(document) ==> json_parsed(text@) == Some(document),
{
    match serde_json::from_str::<serde_json::Value>(text) {
        Ok(document) => Ok(document),
        Err(failure) => Err(failure.to_string()),
    }
}

/// Calls `Value::pointer`. What it finds depends on the document and the
/// pointer alone, so the contract names it.
#[verifier::external_body]
fn member_at<'a>(document: &'a serde_json::Value, pointer: &str) -> (found: Option<
    &'a serde_json::Value,
>)
    ensures
        found.is_some() == json_member(*document, pointer@).is_some(),
        found matches Some(value) ==> json_member(*document, pointer@) == Some(*value),
{
    document.pointer(pointer)
}

/// Calls `Value::as_str` and hands back a copy of the text. The outcome
/// depends on the value alone, so the contract names it.
#[verifier::external_body]
fn string_of(value: &serde_json::Value) -> (found: Option<String>)
    ensures
        found.is_some() == json_string(*value).is_some(),
        found matches Some(text) ==> json_string(*value) == Some(text@),
{
    match value.as_str() {
        Some(text) => Some(text.to_owned()),
        None => None,
    }
}

/// Calls `Value::as_u64`. The outcome depends on the value alone, so the
/// contract names it.
#[verifier::external_body]
fn u64_of(value: &serde_json::Value) -> (found: Option<u64>)
    ensures
        found == json_u64(*value),
{
    value.as_u64()
}

/// Calls `serde_json::to_string` on a text, which writes it as a JSON string.
/// The call succeeds: for a text, `serde_json` writes into a vector in
/// memory, which takes whatever is written. Its result depends on the text
/// alone, so the contract names it. The failure that the signature of
/// `to_string` allows for would come back as the text `serde_json` gives it.
#[verifier::external_body]
pub(crate) fn quote(text: &str) -> (outcome: Result<String, String>)
    ensures
        outcome is Ok,
        outcome.is_ok() == json_quoted(text@).is_some(),
        outcome matches Ok(quoted) ==> json_quoted(text@) == Some(quoted@),
{
    match serde_json::to_string(text) {
        Ok(quoted) => Ok(quoted),
        Err(failure) => Err(failure.to_string()),
    }
}

/// The string that a document holds at a JSON Pointer.
pub(crate) fn string_at(document: &serde_json::Value, pointer: &str) -> (found: Option<String>)
    ensures
        found.is_some() == json_string_at(*document, pointer@).is_some(),
        found matches Some(text) ==> json_string_at(*document, pointer@) == Some(text@),
{
    match member_at(document, pointer) {
        Some(value) => string_of(value),
        None => None,
    }
}

/// The number that a document holds at a JSON Pointer.
pub(crate) fn u64_at(document: &serde_json::Value, pointer: &str) -> (found: Option<u64>)
    ensures
        found == json_u64_at(*document, pointer@),
{
    match member_at(document, pointer) {
        Some(value) => u64_of(value),
        None => None,
    }
}

} // verus!
