//! The JSON reader and writer that the codec stands on. Everything in this
//! file is believed, not proved: each function hands one call to `serde_json`
//! and says what that call returns.

use vstd::prelude::*;

verus! {

/// A parsed JSON value of `serde_json`. Nothing of its inside is visible here.
#[verifier::external_type_specification]
#[verifier::external_body]
pub struct ExJsonValue(serde_json::Value);

/// The error that `serde_json` reports for text that is no JSON.
#[verifier::external_type_specification]
#[verifier::external_body]
pub struct ExJsonError(serde_json::Error);

/// What `serde_json::from_str` makes of a text: the value, or nothing where
/// the text is not one JSON value.
pub uninterp spec fn json_parse(text: Seq<char>) -> Option<serde_json::Value>;

/// What `Value::get` finds under a key: the member of an object that has the
/// key, nothing for any other value.
pub uninterp spec fn json_member(value: serde_json::Value, key: Seq<char>) -> Option<
    serde_json::Value,
>;

/// What `Value::as_str` returns: the characters of a JSON string.
pub uninterp spec fn json_text(value: serde_json::Value) -> Option<Seq<char>>;

/// What `Value::as_u64` returns: a JSON number that is an integer from 0 to
/// `u64::MAX`.
pub uninterp spec fn json_number(value: serde_json::Value) -> Option<u64>;

/// What `serde_json::to_string` writes for a string: the JSON string literal,
/// quotes and escapes included.
pub uninterp spec fn json_quote(text: Seq<char>) -> Seq<char>;

/// `serde_json::from_str::<Value>`: parses one JSON value. The result is the
/// named parse of the text.
#[verifier::external_body]
pub(crate) fn parse(text: &str) -> (parsed: Result<serde_json::Value, serde_json::Error>)
    ensures
        match parsed {
            Ok(value) => json_parse(text@) == Some(value),
            Err(_) => json_parse(text@).is_none(),
        },
{
    serde_json::from_str::<serde_json::Value>(text)
}

/// `Value::get` with a string key: the member of that name, if the value is
/// an object that has one.
#[verifier::external_body]
pub(crate) fn member<'a>(value: &'a serde_json::Value, key: &str) -> (found: Option<
    &'a serde_json::Value,
>)
    ensures
        match found {
            Some(inner) => json_member(*value, key@) == Some(*inner),
            None => json_member(*value, key@).is_none(),
        },
{
    value.get(key)
}

/// `Value::as_str`: the text of a JSON string, nothing for any other value.
#[verifier::external_body]
pub(crate) fn as_text<'a>(value: &'a serde_json::Value) -> (text: Option<&'a str>)
    ensures
        match text {
            Some(s) => json_text(*value) == Some(s@),
            None => json_text(*value).is_none(),
        },
{
    value.as_str()
}

/// `Value::as_u64`: the number, if the value is an integer that fits `u64`.
#[verifier::external_body]
pub(crate) fn as_number(value: &serde_json::Value) -> (number: Option<u64>)
    ensures
        number == json_number(*value),
{
    value.as_u64()
}

/// `serde_json::to_string` on a string slice: the JSON string literal for it.
/// Writing a string cannot fail, so the text is returned bare.
#[verifier::external_body]
pub(crate) fn quote(text: &str) -> (quoted: String)
    ensures
        quoted@ == json_quote(text@),
{
    serde_json::to_string(text).unwrap_or_default()
}

} // verus!
