//! What the tool reads out of JSON texts and writes into them, through
//! `serde_json`.

use vstd::prelude::*;

verus! {

/// The string that a JSON text holds at a JSON pointer (RFC 6901): `Some`
/// if the text is well-formed JSON and the value that the pointer addresses
/// in it is a string, `None` in every other case.
pub uninterp spec fn json_string_at(text: Seq<char>, pointer: Seq<char>) -> Option<Seq<char>>;

/// A text as a JSON string literal, quotes and escapes included.
pub uninterp spec fn json_quoted(text: Seq<char>) -> Seq<char>;

/// Parses `text` with `serde_json::from_str` into a `serde_json::Value`,
/// follows `pointer` with `Value::pointer` and reads the value found with
/// `Value::as_str`. A text that does not parse, a pointer that addresses
/// nothing and a value that is not a string all give `None`.
#[verifier::external_body]
pub(crate) fn read_json_string(text: &str, pointer: &str) -> (found: Option<String>)
    ensures
        found is Some == json_string_at(text@, pointer@) is Some,
        found matches Some(s) ==> json_string_at(text@, pointer@) == Some(s@),
{
    let value: serde_json::Value = serde_json::from_str(text).ok()?;
    value.pointer(pointer)?.as_str().map(|s| s.to_string())
}

/// Writes `text` as a JSON string literal with `serde_json::to_string`. On a
/// string that call has nothing to fail on: it writes to memory, and a
/// string brings neither a `Serialize` of its own nor a map.
#[verifier::external_body]
pub(crate) fn quote_json(text: &str) -> (quoted: String)
    ensures
        quoted@ == json_quoted(text@),
{
    serde_json::to_string(text).unwrap_or_default()
}

/// The value that a JSON text holds at a JSON pointer, written as compact
/// JSON: `Some` if the text is well-formed JSON and the pointer addresses a
/// value in it.
pub uninterp spec fn json_value_at(text: Seq<char>, pointer: Seq<char>) -> Option<Seq<char>>;

/// Parses `text` with `serde_json::from_str` into a `serde_json::Value`,
/// follows `pointer` with `Value::pointer` and writes the value found with
/// `serde_json::to_string`.
#[verifier::external_body]
pub(crate) fn read_json_value(text: &str, pointer: &str) -> (found: Option<String>)
    ensures
        found is Some == json_value_at(text@, pointer@) is Some,
        found matches Some(s) ==> json_value_at(text@, pointer@) == Some(s@),
{
    let value: serde_json::Value = serde_json::from_str(text).ok()?;
    serde_json::to_string(value.pointer(pointer)?).ok()
}

} // verus!
