//! What the library decides about an incoming request before it reads it:
//! whether its body is accepted, and the client's own provider key.
use vstd::prelude::*;
use vstd::string::StringExecFns;

use crate::text::{concat2, push_char, str_eq};

verus! {

/// The header that carries a client's own provider API key, as `http`
/// keeps header names: in lower case.
pub const PROVIDER_API_KEY_HEADER: &'static str = "x-provider-api-key";

/// The largest request body read, in bytes (32 MiB, as Anthropic allows).
pub const BODY_LIMIT_BYTES: usize = 33554432;

/// Why a request body was not accepted.
#[derive(Debug)]
pub enum PayloadFailure {
    /// The `Content-Type` header is missing or not exactly `application/json`.
    UnsupportedContentType,
    /// The body is longer than `BODY_LIMIT_BYTES`.
    TooLarge,
    /// The body could not be read; the reason as the reader gave it.
    Unreadable(String),
    /// The body is not the expected JSON; the reason as the parser gave it.
    Unparsable(String),
}

/// The message a refused body is answered with.
pub open spec fn failure_message(f: PayloadFailure) -> Seq<char> {
    match f {
        PayloadFailure::UnsupportedContentType => "Unsupported Content-Type, expected: 'Content-Type: application/json'"@,
        PayloadFailure::TooLarge => "Request body is too large, limit is 33554432 bytes"@,
        PayloadFailure::Unreadable(e) => "Failed to read request body: "@ + e@,
        PayloadFailure::Unparsable(e) => "Failed to parse request body: "@ + e@,
    }
}

/// The HTTP status a refused body is answered with by the endpoints that
/// take a payload: 415, 413, or 400 for a body that could not be read or
/// parsed. (The Anthropic pass-through answers every one with 400.)
pub open spec fn failure_status(f: PayloadFailure) -> u16 {
    match f {
        PayloadFailure::UnsupportedContentType => 415,
        PayloadFailure::TooLarge => 413,
        PayloadFailure::Unreadable(_) => 400,
        PayloadFailure::Unparsable(_) => 400,
    }
}

impl PayloadFailure {
    /// The message the failure is answered with.
    pub fn message(&self) -> (r: String)
        ensures
            r@ == failure_message(*self),
    {
        proof {
            reveal_strlit("Unsupported Content-Type, expected: 'Content-Type: application/json'");
            reveal_strlit("Request body is too large, limit is 33554432 bytes");
            reveal_strlit("Failed to read request body: ");
            reveal_strlit("Failed to parse request body: ");
        }
        match self {
            PayloadFailure::UnsupportedContentType => String::from_str(
                "Unsupported Content-Type, expected: 'Content-Type: application/json'",
            ),
            PayloadFailure::TooLarge => String::from_str("Request body is too large, limit is 33554432 bytes"),
            PayloadFailure::Unreadable(e) => concat2("Failed to read request body: ", e.as_str()),
            PayloadFailure::Unparsable(e) => concat2("Failed to parse request body: ", e.as_str()),
        }
    }

    /// The status the failure is answered with.
    pub fn status(&self) -> (r: u16)
        ensures
            r == failure_status(*self),
    {
        match self {
            PayloadFailure::UnsupportedContentType => 415,
            PayloadFailure::TooLarge => 413,
            PayloadFailure::Unreadable(_) => 400,
            PayloadFailure::Unparsable(_) => 400,
        }
    }
}

/// The bytes of `application/json`.
pub open spec fn json_media_type() -> Seq<u8> {
    seq![97u8, 112, 112, 108, 105, 99, 97, 116, 105, 111, 110, 47, 106, 115, 111, 110]
}

/// Whether a request's `Content-Type` value is exactly `application/json`.
pub fn is_json_content_type(value: Option<&Vec<u8>>) -> (r: bool)
    ensures
        r == (value matches Some(v) && v@ == json_media_type()),
{
    match value {
        None => false,
        Some(v) => {
            let want: Vec<u8> = vec![97u8, 112, 112, 108, 105, 99, 97, 116, 105, 111, 110, 47, 106, 115, 111, 110];
            if v.len() != want.len() {
                return false;
            }
            let mut k: usize = 0;
            while k < v.len()
                invariant
                    value == Some(v),
                    v@.len() == want@.len(),
                    want@ == json_media_type(),
                    0 <= k <= v@.len(),
                    forall|j: int| 0 <= j < k ==> v@[j] == want@[j],
                decreases v.len() - k,
            {
                if v[k] != want[k] {
                    assert(v@[k as int] != json_media_type()[k as int]);
                    return false;
                }
                k = k + 1;
            }
            assert(v@ =~= want@);
            true
        },
    }
}

/// A byte that `HeaderValue::to_str` accepts: visible ASCII or a tab.
pub open spec fn visible_ascii(b: u8) -> bool {
    (b >= 32 && b < 127) || b == 9
}

/// The text of a header value where it is all visible ASCII (what
/// `HeaderValue::to_str` accepts), one character per byte.
pub open spec fn header_text(v: Seq<u8>) -> Option<Seq<char>> {
    if forall|i: int| 0 <= i < v.len() ==> visible_ascii(#[trigger] v[i]) {
        Some(Seq::new(v.len(), |i: int| v[i] as char))
    } else {
        None
    }
}

/// The value of the first header named `name`, which `HeaderMap::get` gives.
pub open spec fn first_header(hs: Seq<(String, Vec<u8>)>, name: Seq<char>) -> Option<Seq<u8>>
    decreases hs.len(),
{
    if hs.len() == 0 {
        None
    } else if hs[0].0@ == name {
        Some(hs[0].1@)
    } else {
        first_header(hs.drop_first(), name)
    }
}

/// The client's own provider key: the value of its `X-Provider-API-Key`
/// header where it is visible ASCII.
pub open spec fn client_api_key(hs: Seq<(String, Vec<u8>)>) -> Option<Seq<char>> {
    match first_header(hs, "x-provider-api-key"@) {
        Some(v) => header_text(v),
        None => None,
    }
}

/// The text of a header value, where it is visible ASCII.
pub fn header_value_text(v: &Vec<u8>) -> (r: Option<String>)
    ensures
        r.deep_view() == header_text(v@),
{
    let mut out = String::new();
    let mut k: usize = 0;
    while k < v.len()
        invariant
            0 <= k <= v@.len(),
            forall|j: int| 0 <= j < k ==> visible_ascii(#[trigger] v@[j]),
            out@ == Seq::new(k as nat, |i: int| v@[i] as char),
        decreases v.len() - k,
    {
        let b = v[k];
        if !((b >= 32 && b < 127) || b == 9) {
            assert(!visible_ascii(v@[k as int]));
            return None;
        }
        push_char(&mut out, b as char);
        assert(out@ =~= Seq::new((k + 1) as nat, |i: int| v@[i] as char));
        k = k + 1;
    }
    Some(out)
}

/// The client's own provider key from the request's headers.
pub fn provider_api_key(headers: &Vec<(String, Vec<u8>)>) -> (r: Option<String>)
    ensures
        r.deep_view() == client_api_key(headers@),
{
    proof {
        reveal_strlit("x-provider-api-key");
    }
    let mut k: usize = 0;
    assert(headers@.skip(0) =~= headers@);
    while k < headers.len()
        invariant
            0 <= k <= headers.len(),
            first_header(headers@, "x-provider-api-key"@) == first_header(headers@.skip(k as int), "x-provider-api-key"@),
        decreases headers.len() - k,
    {
        assert(headers@.skip(k as int)[0] == headers@[k as int]);
        assert(headers@.skip(k as int).drop_first() =~= headers@.skip(k + 1));
        if str_eq(headers[k].0.as_str(), PROVIDER_API_KEY_HEADER) {
            return header_value_text(&headers[k].1);
        }
        k = k + 1;
    }
    None
}

} // verus!
