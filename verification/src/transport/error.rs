//! Transport errors: why one byte exchange failed.
use vstd::prelude::*;

use crate::json::{is_json, json_text_at, json_text_field, json_text_field2, parses_as_json};

verus! {

/// Why one exchange failed. It knows nothing of vendors or business meaning.
#[derive(Debug)]
pub enum TransportError {
    /// The HTTP client failed.
    Http(reqwest::Error),
    /// The request could not be built (bad URL or header).
    InvalidRequest(String),
    /// The server answered with a non-2xx status.
    Api { status: u16, message: String },
    /// The body is not valid JSON.
    Serialization(serde_json::Error),
    /// The body stream broke off.
    Stream(String),
    /// No API key.
    MissingApiKey,
}

/// A status in `200..300`.
pub fn is_success_status(status: u16) -> (success: bool)
    ensures
        success == (200 <= status < 300),
{
    200 <= status && status < 300
}

/// The readable message of an error body: `error.message`, `message`, or
/// `error` when it is a string, else the raw body.
pub open spec fn error_message_of(body: Seq<char>) -> Seq<char> {
    if !is_json(body) {
        body
    } else {
        match json_text_at(body, seq!["error"@, "message"@]) {
            Some(m) => m,
            None => match json_text_at(body, seq!["message"@]) {
                Some(m) => m,
                None => match json_text_at(body, seq!["error"@]) {
                    Some(m) => m,
                    None => body,
                },
            },
        }
    }
}

/// Picks a readable message out of an error body, whatever the vendor's
/// envelope: `error.message`, `message`, `error` as a string, or the body.
pub fn extract_error_message(body: &str) -> (message: String)
    ensures
        message@ == error_message_of(body@),
{
    if !parses_as_json(body) {
        return body.to_owned();
    }
    match json_text_field2(body, "error", "message") {
        Some(m) => m,
        None => match json_text_field(body, "message") {
            Some(m) => m,
            None => match json_text_field(body, "error") {
                Some(m) => m,
                None => body.to_owned(),
            },
        },
    }
}

/// The error that a response with a non-success status becomes.
pub fn api_error(status: u16, body: &str) -> (error: TransportError)
    ensures
        error matches TransportError::Api { status: s, message } && s == status && message@
            == error_message_of(body@),
{
    TransportError::Api { status, message: extract_error_message(body) }
}

} // verus!
