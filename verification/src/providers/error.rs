//! Errors of one HTTP exchange, and how an error response becomes one.
use vstd::prelude::*;
use vstd::utf8::encode_utf8;

use crate::json::{is_json, json_int_at, json_int_field2, json_text_at, json_text_field, json_text_field2, parses_as_json};

verus! {

/// Why an exchange with a vendor failed. It carries no business meaning.
#[derive(Debug)]
pub enum ProviderError {
    Request(reqwest::Error),
    Serialization(serde_json::Error),
    InvalidApiKey,
    ApiError { code: u16, message: String },
    MissingApiKey,
    StreamError(String),
}

/// The code of a JSON error envelope: `error.code`, else the byte length of
/// `error.type`, else 0 — cut to 16 bits.
pub open spec fn api_error_code(body: Seq<char>) -> u16 {
    let code: i64 = match json_int_at(body, seq!["error"@, "code"@]) {
        Some(c) => c,
        None => match json_text_at(body, seq!["error"@, "type"@]) {
            Some(t) => (encode_utf8(t).len() as usize) as i64,
            None => 0,
        },
    };
    code as u16
}

/// The message of a JSON error envelope: `error.message`, else `error` when it
/// is a string, else the whole body.
pub open spec fn api_error_message(body: Seq<char>) -> Seq<char> {
    match json_text_at(body, seq!["error"@, "message"@]) {
        Some(m) => m,
        None => match json_text_at(body, seq!["error"@]) {
            Some(m) => m,
            None => body,
        },
    }
}

/// Reading an error envelope: an integer `error.code` is the code (cut to
/// 16 bits), whatever `error.type` says; only without one does the byte
/// length of a string `error.type` stand in, and 0 without either. A string
/// `error.message` is the message; without it a string `error`; else the
/// whole body.
pub proof fn lemma_error_envelope(body: Seq<char>)
    ensures
        json_int_at(body, seq!["error"@, "code"@]) matches Some(c) ==> api_error_code(body)
            == c as u16,
        json_int_at(body, seq!["error"@, "code"@]) is None ==> api_error_code(body) == match json_text_at(
            body,
            seq!["error"@, "type"@],
        ) {
            Some(t) => ((encode_utf8(t).len() as usize) as i64) as u16,
            None => 0u16,
        },
        json_text_at(body, seq!["error"@, "message"@]) matches Some(m) ==> api_error_message(body)
            == m,
        json_text_at(body, seq!["error"@, "message"@]) is None ==> api_error_message(body)
            == match json_text_at(body, seq!["error"@]) {
            Some(m) => m,
            None => body,
        },
{
}

/// The error for a response with a non-success `status`: code and message
/// from the body when it is JSON, else the status and the raw body.
pub fn parse_api_error(body: &str, status: u16) -> (error: ProviderError)
    ensures
        error matches ProviderError::ApiError { code, message } && (if is_json(body@) {
            code == api_error_code(body@) && message@ == api_error_message(body@)
        } else {
            code == status && message@ == body@
        }),
{
    if parses_as_json(body) {
        let code: i64 = match json_int_field2(body, "error", "code") {
            Some(c) => c,
            None => match json_text_field2(body, "error", "type") {
                Some(t) => t.as_str().len() as i64,
                None => 0,
            },
        };
        let message = match json_text_field2(body, "error", "message") {
            Some(m) => m,
            None => match json_text_field(body, "error") {
                Some(m) => m,
                None => body.to_owned(),
            },
        };
        return ProviderError::ApiError { code: code as u16, message };
    }
    ProviderError::ApiError { code: status, message: body.to_owned() }
}

} // verus!
