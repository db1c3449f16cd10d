//! The pass-through proxy's own rules: where a request goes upstream, and
//! what a reply that cannot be read is answered with.
use vstd::prelude::*;
use vstd::string::StringExecFns;

use crate::protocol::anthropic::error::{Error, ErrorKind};
use crate::text::{has_prefix, str_eq, strip_prefix_or_keep, without_prefix};

verus! {

/// The path below the upstream API's base URL for a request to `path`
/// under the proxy's `base_path`: what follows the base path, without a
/// leading `/`.
pub open spec fn upstream_path(path: Seq<char>, base_path: Seq<char>) -> Seq<char> {
    without_prefix(without_prefix(path, base_path), "/"@)
}

/// The upstream path for a request that the proxy's router matched under
/// `base_path` (so `path` begins with it).
pub fn upstream_relative_path(path: &str, base_path: &str) -> (r: String)
    requires
        has_prefix(path@, base_path@),
    ensures
        r@ == upstream_path(path@, base_path@),
{
    proof {
        reveal_strlit("/");
    }
    let rest = strip_prefix_or_keep(path, base_path);
    strip_prefix_or_keep(rest.as_str(), "/")
}

/// The answer to a request the proxy cannot serve: status 500 and an
/// `api_error` with `message`.
pub fn internal_server_error(message: String) -> (r: (u16, Error))
    ensures
        r.0 == 500,
        r.1.is_made(ErrorKind::Api, message@),
{
    (500, Error::api_error(message))
}

/// The answer to a request the proxy refuses: status 400 and an
/// `invalid_request_error` with `message`.
pub fn bad_request_error(message: String) -> (r: (u16, Error))
    ensures
        r.0 == 400,
        r.1.is_made(ErrorKind::InvalidRequest, message@),
{
    (400, Error::invalid_request_error(message))
}

/// Whether a status is a server error (500 to 599).
pub open spec fn server_error(status: u16) -> bool {
    500 <= status < 600
}

/// What a reply whose body is not an Anthropic response is answered with:
/// a server error passes through as it came (`None`); any other status is
/// answered with 500 and an `api_error`.
pub fn unparsable_reply_error(status: u16) -> (r: Option<(u16, Error)>)
    ensures
        match r {
            None => server_error(status),
            Some((code, e)) => !server_error(status) && code == 500 && e.is_made(
                ErrorKind::Api,
                "Could not parse response from Anthropic API"@,
            ),
        },
{
    if 500 <= status && status < 600 {
        None
    } else {
        Some((500, Error::api_error(String::from_str("Could not parse response from Anthropic API"))))
    }
}

/// The largest request body the proxy reads, in bytes (32 MiB, as the
/// upstream API allows).
pub const BODY_LIMIT_BYTES: usize = 33554432;

/// Whether a request's `Content-Type` is one the proxy reads: exactly
/// `application/json`.
pub fn is_json_content_type(value: Option<&str>) -> (r: bool)
    ensures
        r == (value matches Some(v) && v@ == "application/json"@),
{
    match value {
        Some(v) => str_eq(v, "application/json"),
        None => false,
    }
}

/// The answer to a request that is not sent as JSON: status 400 and an
/// `invalid_request_error` that names the expected `Content-Type`.
pub fn unsupported_content_type() -> (r: (u16, Error))
    ensures
        r.0 == 400,
        r.1.is_made(
            ErrorKind::InvalidRequest,
            "Unsupported Content-Type, expected: 'Content-Type: application/json'"@,
        ),
{
    bad_request_error(String::from_str("Unsupported Content-Type, expected: 'Content-Type: application/json'"))
}

/// The answer to a request that cannot reach the upstream API: status 500
/// and an `api_error`.
pub fn upstream_unreachable() -> (r: (u16, Error))
    ensures
        r.0 == 500,
        r.1.is_made(ErrorKind::Api, "Could not connect to Anthropic API"@),
{
    internal_server_error(String::from_str("Could not connect to Anthropic API"))
}

} // verus!
