//! Outside types that values of this crate carry through unread.
use vstd::prelude::*;

verus! {

/// A JSON document, carried through the library without being inspected.
#[verifier::external_type_specification]
#[verifier::external_body]
pub struct ExJsonValue(serde_json::Value);

/// The error that `serde_json` reports when a document cannot be read or written.
#[verifier::external_type_specification]
#[verifier::external_body]
pub struct ExJsonError(serde_json::Error);

/// The error that the HTTP client reports for a failed exchange.
#[verifier::external_type_specification]
#[verifier::external_body]
pub struct ExHttpError(reqwest::Error);

/// `serde_json::Value::clone`: the copy is the same document.
pub assume_specification[ <serde_json::Value as Clone>::clone ](value: &serde_json::Value) -> (copy:
    serde_json::Value)
    ensures
        copy == *value,
;

/// `serde_json::from_str::<Value>(text)` succeeds: `text` is a JSON document.
pub uninterp spec fn is_json(text: Seq<char>) -> bool;

/// The string that the JSON document `text` holds under the object keys
/// `keys` (outermost first), read as `document[k1][k2].as_str()`.
pub uninterp spec fn json_text_at(text: Seq<char>, keys: Seq<Seq<char>>) -> Option<Seq<char>>;

/// The integer that the JSON document `text` holds under the object keys
/// `keys` (outermost first), read as `document[k1][k2].as_i64()`.
pub uninterp spec fn json_int_at(text: Seq<char>, keys: Seq<Seq<char>>) -> Option<i64>;

/// `serde_json::from_str::<Value>`, asking only whether it succeeds.
#[verifier::external_body]
pub fn parses_as_json(text: &str) -> (ok: bool)
    ensures
        ok == is_json(text@),
{
    serde_json::from_str::<serde_json::Value>(text).is_ok()
}

/// `serde_json::from_str::<Value>(text)` then `[key].as_str()`: the string
/// under one key; none when the text is no document or holds no string there.
#[verifier::external_body]
pub fn json_text_field(text: &str, key: &str) -> (found: Option<String>)
    ensures
        match found {
            Some(s) => json_text_at(text@, seq![key@]) == Some(s@) && is_json(text@),
            None => json_text_at(text@, seq![key@]) is None,
        },
{
    let value = serde_json::from_str::<serde_json::Value>(text).ok()?;
    value[key].as_str().map(|s| s.to_string())
}

/// `serde_json::from_str::<Value>(text)` then `[outer][inner].as_str()`.
#[verifier::external_body]
pub fn json_text_field2(text: &str, outer: &str, inner: &str) -> (found: Option<String>)
    ensures
        match found {
            Some(s) => json_text_at(text@, seq![outer@, inner@]) == Some(s@) && is_json(text@),
            None => json_text_at(text@, seq![outer@, inner@]) is None,
        },
{
    let value = serde_json::from_str::<serde_json::Value>(text).ok()?;
    value[outer][inner].as_str().map(|s| s.to_string())
}

/// `serde_json::from_str::<Value>(text)` then `[outer][inner].as_i64()`.
#[verifier::external_body]
pub fn json_int_field2(text: &str, outer: &str, inner: &str) -> (found: Option<i64>)
    ensures
        found == json_int_at(text@, seq![outer@, inner@]),
        found is Some ==> is_json(text@),
{
    let value = serde_json::from_str::<serde_json::Value>(text).ok()?;
    value[outer][inner].as_i64()
}

} // verus!
