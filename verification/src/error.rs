//! The SDK's error model.

use vstd::prelude::*;
use crate::json::{JsonValue, spec_extract_error_message, spec_get, spec_get_str};
use crate::provider::concat;

verus! {

/// Unified error of the SDK.
///
/// Failures reported by outside libraries (URL parsing, header values, JSON,
/// I/O) are carried as their messages.
#[derive(Debug)]
pub enum Error {
    /// The API answered with a non-2xx status.
    ApiStatus {
        message: String,
        status: u16,
        request_id: Option<String>,
        body: Option<JsonValue>,
    },
    /// The request timed out.
    Timeout,
    /// Network or connection failure.
    Connection(String),
    /// Invalid configuration or argument.
    Config(String),
    /// URL parsing or joining failed.
    Url(String),
    /// A header value holds bytes that HTTP does not allow.
    HeaderValue(String),
    /// A header of the compact client holds bytes that HTTP does not allow.
    InvalidHeader(String),
    /// JSON encoding or decoding failed.
    Json(String),
    /// File I/O failed.
    Io(String),
    /// SSE decoding failed or the stream carried an error event.
    Stream(String),
    /// A webhook's signature headers are missing or do not match.
    WebhookVerification(String),
    /// A required environment variable is not set.
    MissingEnv(String),
    /// The operation is not available in this build.
    Unsupported(String),
    /// The compact client's HTTP call failed without a response.
    Http(String),
}

/// Result type of the SDK.
pub type Result<T> = core::result::Result<T, Error>;

/// The text of an HTTP status: its code followed by the reason phrase that
/// the `http` crate knows for it.
pub uninterp spec fn status_text(code: u16) -> Seq<char>;

/// `http::StatusCode`'s `Display` output for `code` ("404 Not Found").
#[verifier::external_body]
fn status_code_text(code: u16) -> (text: String)
    requires
        100 <= code <= 999,
    ensures
        text@ == status_text(code),
{
    match http::StatusCode::from_u16(code) {
        Ok(s) => s.to_string(),
        Err(_) => String::new(),
    }
}

/// The message of an `ApiStatus` error: the body's error message when it has
/// one, otherwise a fallback naming the status.
pub open spec fn spec_api_status_message(code: u16, body: Option<JsonValue>) -> Seq<char> {
    match body {
        Some(b) => match spec_extract_error_message(b) {
            Some(m) => m,
            None => "OpenAI API returned status "@ + status_text(code),
        },
        None => "OpenAI API returned status "@ + status_text(code),
    }
}

/// The display text of an error. The variants that only the compact client
/// raises (webhook verification, a missing environment variable, an
/// unsupported operation, a failed HTTP call) show their message as it is.
pub open spec fn error_text(e: Error) -> Seq<char> {
    match e {
        Error::ApiStatus { message, .. } => message@,
        Error::Timeout => "request timed out"@,
        Error::Connection(m) => "connection error: "@ + m@,
        Error::Config(m) => "configuration error: "@ + m@,
        Error::Url(m) => "invalid URL: "@ + m@,
        Error::HeaderValue(m) => "invalid header value: "@ + m@,
        Error::InvalidHeader(m) => "invalid header: "@ + m@,
        Error::Json(m) => "invalid JSON: "@ + m@,
        Error::Io(m) => "I/O error: "@ + m@,
        Error::Stream(m) => "SSE stream error: "@ + m@,
        Error::WebhookVerification(m) => m@,
        Error::MissingEnv(m) => m@,
        Error::Unsupported(m) => m@,
        Error::Http(m) => m@,
    }
}

impl Error {
    /// The error's display text.
    pub fn describe(&self) -> (s: String)
        ensures
            s@ == error_text(*self),
    {
        match self {
            Error::ApiStatus { message, .. } => message.clone(),
            Error::Timeout => "request timed out".to_string(),
            Error::Connection(m) => concat("connection error: ", m.as_str()),
            Error::Config(m) => concat("configuration error: ", m.as_str()),
            Error::Url(m) => concat("invalid URL: ", m.as_str()),
            Error::HeaderValue(m) => concat("invalid header value: ", m.as_str()),
            Error::InvalidHeader(m) => concat("invalid header: ", m.as_str()),
            Error::Json(m) => concat("invalid JSON: ", m.as_str()),
            Error::Io(m) => concat("I/O error: ", m.as_str()),
            Error::Stream(m) => concat("SSE stream error: ", m.as_str()),
            Error::WebhookVerification(m) => m.clone(),
            Error::MissingEnv(m) => m.clone(),
            Error::Unsupported(m) => m.clone(),
            Error::Http(m) => m.clone(),
        }
    }

    /// Builds an `ApiStatus` error from a status code, the `x-request-id`
    /// header and the (optional) JSON body of the response.
    pub fn api_status(status: u16, request_id: Option<String>, body: Option<JsonValue>) -> (err:
        Error)
        requires
            100 <= status <= 999,
        ensures
            err matches Error::ApiStatus { message, status: s, request_id: r, body: b } && {
                &&& message@ == spec_api_status_message(status, body)
                &&& s == status
                &&& r == request_id
                &&& b == body
            },
    {
        let extracted = match &body {
            Some(b) => crate::json::extract_error_message(b),
            None => None,
        };
        let message = match extracted {
            Some(m) => m,
            None => {
                let mut m = "OpenAI API returned status ".to_string();
                let text = status_code_text(status);
                m.append(text.as_str());
                m
            },
        };
        Error::ApiStatus { message, status, request_id, body }
    }
}

/// The message of an API error: `error.message` of the body when it is a
/// string, else the body's own `message` when it is a string, else
/// `OpenAI API returned status` and the status.
pub proof fn law_api_error_message(code: u16, body: JsonValue, m: Seq<char>)
    ensures
        spec_get(body, "error"@) is Some && spec_get_str(spec_get(body, "error"@)->0, "message"@) == Some(m)
            ==> spec_api_status_message(code, Some(body)) == m,
        !(spec_get(body, "error"@) is Some && spec_get_str(spec_get(body, "error"@)->0, "message"@) is Some)
            && spec_get_str(body, "message"@) == Some(m) ==> spec_api_status_message(code, Some(body)) == m,
        !(spec_get(body, "error"@) is Some && spec_get_str(spec_get(body, "error"@)->0, "message"@) is Some)
            && spec_get_str(body, "message"@) is None ==> spec_api_status_message(code, Some(body))
            == "OpenAI API returned status "@ + status_text(code),
        spec_api_status_message(code, None) == "OpenAI API returned status "@ + status_text(code),
{
}

} // verus!
