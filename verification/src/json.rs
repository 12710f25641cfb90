//! JSON values that flow through the runtime, and the serde_json calls made
//! on them.

use vstd::prelude::*;
use vstd::utf8::encode_utf8;

verus! {

/// `serde_json::Value` is carried through the runtime unread.
#[verifier::external_type_specification]
#[verifier::external_body]
pub struct ExJsonValue(serde_json::Value);

/// Calls `<serde_json::Value as Clone>::clone`, which derive(Clone) writes
/// as a field-by-field copy; the contract claims the copy is the same value.
pub assume_specification[ <serde_json::Value as Clone>::clone ](value: &serde_json::Value) -> (copy:
    serde_json::Value)
    ensures
        copy == *value,
;

/// What `serde_json::to_string` makes of a JSON value: its compact text, or
/// `None` where serialization fails.
pub uninterp spec fn json_serialization(value: serde_json::Value) -> Option<Seq<char>>;

/// The compact JSON text that `Display` writes for a JSON value.
pub uninterp spec fn json_display(value: serde_json::Value) -> Seq<char>;

/// Calls `serde_json::to_string` on a JSON value and hands a failure back
/// as its message. The contract claims that the outcome is the one named
/// by `json_serialization` for the value, and that the text, like every
/// `String`, has a byte length that fits in `usize`; the failure message is
/// left unsaid.
#[verifier::external_body]
pub(crate) fn value_to_json_text(value: &serde_json::Value) -> (text: Result<String, String>)
    ensures
        match json_serialization(*value) {
            Some(expected) => text matches Ok(t) && t@ == expected,
            None => text is Err,
        },
        text matches Ok(t) ==> encode_utf8(t@).len() <= usize::MAX,
{
    match serde_json::to_string(value) {
        Ok(text) => Ok(text),
        Err(error) => Err(error.to_string()),
    }
}

/// Calls `ToString::to_string` on a JSON value, whose `Display` writes it
/// as compact JSON. The contract claims the text is the one named by
/// `json_display` for the value, with a byte length that fits in `usize`.
#[verifier::external_body]
pub(crate) fn value_display_text(value: &serde_json::Value) -> (text: String)
    ensures
        text@ == json_display(*value),
        encode_utf8(text@).len() <= usize::MAX,
{
    value.to_string()
}

/// What `serde_json::from_str` makes of a text: the parsed JSON value, or
/// `None` where the text is not JSON.
pub uninterp spec fn json_parse(text: Seq<char>) -> Option<serde_json::Value>;

/// Calls `serde_json::from_str` to parse a JSON text, handing a failure
/// back as its message. The contract claims that the outcome is the one
/// named by `json_parse` for the text; the failure message is left unsaid.
#[verifier::external_body]
pub(crate) fn parse_json_text(text: &str) -> (parsed: Result<serde_json::Value, String>)
    ensures
        match json_parse(text@) {
            Some(value) => parsed matches Ok(v) && v == value,
            None => parsed is Err,
        },
{
    match serde_json::from_str(text) {
        Ok(value) => Ok(value),
        Err(error) => Err(error.to_string()),
    }
}

/// Makes the JSON `null` value, `serde_json::Value::Null`. Nothing is
/// claimed of it: the runtime only passes it on.
#[verifier::external_body]
pub(crate) fn json_null() -> (value: serde_json::Value) {
    serde_json::Value::Null
}

} // verus!
