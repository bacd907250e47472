//! Helpers shared by provider adapters: header merging, the user agent,
//! API-key selection, JSON-schema checks and error construction.

use vstd::prelude::*;
use crate::json::JsonValue;
use crate::provider::{AiError, concat};
use crate::strmap::{StringMap, merge_maps};
use crate::text::u64_to_decimal;

verus! {

/// Merges header maps: every header of `override_headers` replaces the one of
/// the same name in `base`; the other headers of `base` stay.
pub fn merge_headers(base: StringMap, override_headers: Option<StringMap>) -> (headers: StringMap)
    ensures
        headers@ == match override_headers {
            Some(o) => base@.union_prefer_right(o@),
            None => base@,
        },
{
    merge_maps(base, override_headers)
}

/// The user agent of provider requests: `ai-rust-provider/` and the version
/// of this package.
pub open spec fn spec_user_agent() -> Seq<char> {
    "ai-rust-provider/0.1.0"@
}

/// The user agent of provider requests.
pub fn user_agent() -> (s: String)
    ensures
        s@ == spec_user_agent(),
{
    "ai-rust-provider/0.1.0".to_string()
}

/// Whether `s` holds only whitespace.
pub open spec fn is_blank(s: Seq<char>) -> bool {
    forall|i: int| 0 <= i < s.len() ==> crate::sse_frame::is_whitespace(#[trigger] s[i])
}

/// The key that `load_api_key` chooses: the explicit one if given, else the
/// one from the environment.
pub open spec fn chosen_key(explicit: Option<String>, from_env: Option<String>) -> Option<String> {
    match explicit {
        Some(k) => Some(k),
        None => from_env,
    }
}

/// The message of a missing API key.
pub open spec fn missing_key_message(env_var: Seq<char>, provider_name: Seq<char>) -> Seq<char> {
    provider_name + " API key is missing; set "@ + env_var
}

/// Chooses the API key: the explicit one, else the value of the environment
/// variable `env_var` (read by the caller and passed as `from_env`). A key
/// that is missing or blank is an authentication error.
pub fn load_api_key(
    explicit: Option<String>,
    from_env: Option<String>,
    env_var: &str,
    provider_name: &str,
) -> (r: Result<String, AiError>)
    ensures
        match chosen_key(explicit, from_env) {
            Some(k) if !is_blank(k@) => r matches Ok(key) && key == k,
            _ => r matches Err(AiError::Authentication(m)) && m@ == missing_key_message(
                env_var@,
                provider_name@,
            ),
        },
{
    let chosen = match explicit {
        Some(k) => Some(k),
        None => from_env,
    };
    match chosen {
        Some(key) => {
            if !is_blank_str(key.as_str()) {
                return Ok(key);
            }
        },
        None => {},
    }
    let mut m = provider_name.to_string();
    m.append(" API key is missing; set ");
    m.append(env_var);
    Err(AiError::Authentication(m))
}

/// Whether `s` holds only whitespace.
pub fn is_blank_str(s: &str) -> (r: bool)
    ensures
        r == is_blank(s@),
{
    let chars = crate::text::chars_of(s);
    let mut i: usize = 0;
    while i < chars.len()
        invariant
            i <= chars@.len(),
            chars@ == s@,
            forall|j: int| 0 <= j < i ==> crate::sse_frame::is_whitespace(#[trigger] s@[j]),
        decreases chars@.len() - i,
    {
        if !crate::sse_frame::is_whitespace_exec(chars[i]) {
            return false;
        }
        i = i + 1;
    }
    true
}

/// Whether `schema` may serve as a JSON schema: an object or a boolean.
pub open spec fn is_valid_schema(schema: JsonValue) -> bool {
    schema is Object || schema is Bool
}

/// The message of an invalid JSON schema.
pub open spec fn invalid_schema_message() -> Seq<char> {
    "JSON schema must be an object or boolean"@
}

/// Checks that `schema` is an object or a boolean.
pub fn validate_json_schema(schema: &JsonValue) -> (r: Result<(), AiError>)
    ensures
        is_valid_schema(*schema) ==> r is Ok,
        !is_valid_schema(*schema) ==> (r matches Err(AiError::InvalidArgument(m)) && m@
            == invalid_schema_message()),
{
    match schema {
        JsonValue::Object(_) | JsonValue::Bool(_) => Ok(()),
        _ => Err(AiError::InvalidArgument("JSON schema must be an object or boolean".to_string())),
    }
}

/// The error for a response with a failing HTTP status.
pub fn failed_response_error(status: u16, body: String) -> (e: AiError)
    ensures
        e matches AiError::ApiCall { message, status: s, response_body } && {
            &&& message@ == "provider API returned HTTP "@ + crate::text::decimal(status as nat)
            &&& s == Some(status)
            &&& response_body == Some(body)
        },
{
    let code = u64_to_decimal(status as u64);
    AiError::ApiCall {
        message: concat("provider API returned HTTP ", code.as_str()),
        status: Some(status),
        response_body: Some(body),
    }
}

} // verus!
