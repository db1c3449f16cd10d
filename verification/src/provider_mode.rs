//! How a request reaches a provider: passed through with the client's own
//! Anthropic credentials, or routed with a key from the client or from the
//! configuration.
use vstd::prelude::*;
use vstd::string::StringExecFns;

use crate::error::{ErrorModel, LlmError};
use crate::text::str_eq;

verus! {

/// A way of reaching a provider that its configuration allows.
#[derive(Debug, Clone)]
pub enum SupportedProviderMode {
    /// Pass the request through with the client's Anthropic credentials.
    AnthropicProxy,
    /// Route with the key the client sends in the header of this name
    /// (lower case, as `http` keeps header names).
    RouterWithClientKey(String),
    /// Route with this key from the configuration.
    RouterWithOwnKey(String),
}

/// The way chosen for one request.
#[derive(Debug)]
pub enum ProviderMode {
    Proxy,
    /// Route with the value of the client's key header, as it came.
    RouterWithClientApiKey(Vec<u8>),
    /// Route with the configured key.
    RouterWithOwnedApiKey(String),
}

/// Whether one of the allowed ways is the pass-through.
pub open spec fn supports_proxy(s: Seq<SupportedProviderMode>) -> bool {
    exists|i: int| 0 <= i < s.len() && s[i] is AnthropicProxy
}

/// The value of the first header named `name`, which `HeaderMap::get` gives.
pub open spec fn header_value(hs: Seq<(String, Vec<u8>)>, name: Seq<char>) -> Option<Seq<u8>>
    decreases hs.len(),
{
    if hs.len() == 0 {
        None
    } else if hs[0].0@ == name {
        Some(hs[0].1@)
    } else {
        header_value(hs.drop_first(), name)
    }
}

/// The value of the first client-key header, in the order of the allowed
/// ways, that the request carries.
pub open spec fn client_key(s: Seq<SupportedProviderMode>, hs: Seq<(String, Vec<u8>)>) -> Option<Seq<u8>>
    decreases s.len(),
{
    if s.len() == 0 {
        None
    } else {
        match s[0] {
            SupportedProviderMode::RouterWithClientKey(name) => match header_value(hs, name@) {
                Some(v) => Some(v),
                None => client_key(s.drop_first(), hs),
            },
            _ => client_key(s.drop_first(), hs),
        }
    }
}

/// The first configured key among the allowed ways.
pub open spec fn own_key(s: Seq<SupportedProviderMode>) -> Option<Seq<char>>
    decreases s.len(),
{
    if s.len() == 0 {
        None
    } else {
        match s[0] {
            SupportedProviderMode::RouterWithOwnKey(k) => Some(k@),
            _ => own_key(s.drop_first()),
        }
    }
}

/// A character that `http::HeaderValue::from_str` accepts: a tab, or any
/// character but the ASCII controls and DEL (a character beyond ASCII is
/// written as bytes from 128 up, all accepted).
pub open spec fn header_value_char(c: char) -> bool {
    (c as u32 >= 32 && c as u32 != 127) || c == '\t'
}

/// A text that `http::HeaderValue::from_str` accepts.
pub open spec fn header_value_text(s: Seq<char>) -> bool {
    forall|i: int| 0 <= i < s.len() ==> header_value_char(#[trigger] s[i])
}

/// The way chosen, as a model: the mode, or the error with its message.
pub enum ModeChoice {
    Proxy,
    ClientKey(Seq<u8>),
    OwnKey(Seq<char>),
    Refused(ErrorModel),
}

/// The way chosen for a request: the pass-through where the client brings
/// Anthropic credentials (refused where the provider does not allow it);
/// else the client's key header where one is allowed and present; else the
/// configured key; else no way at all.
pub open spec fn choose_mode(
    has_anthropic_authorization: bool,
    hs: Seq<(String, Vec<u8>)>,
    s: Seq<SupportedProviderMode>,
) -> ModeChoice {
    if has_anthropic_authorization {
        if supports_proxy(s) {
            ModeChoice::Proxy
        } else {
            ModeChoice::Refused(
                ErrorModel::InvalidRequest("Provider does not support Anthropic token forwarding"@),
            )
        }
    } else {
        match client_key(s, hs) {
            Some(v) => ModeChoice::ClientKey(v),
            None => match own_key(s) {
                Some(k) => ModeChoice::OwnKey(k),
                None => ModeChoice::Refused(
                    ErrorModel::AuthenticationFailed("No API key was provided nor configured."@),
                ),
            },
        }
    }
}

/// The model of a chosen way.
pub open spec fn mode_choice(r: Result<ProviderMode, LlmError>) -> ModeChoice {
    match r {
        Ok(ProviderMode::Proxy) => ModeChoice::Proxy,
        Ok(ProviderMode::RouterWithClientApiKey(v)) => ModeChoice::ClientKey(v@),
        Ok(ProviderMode::RouterWithOwnedApiKey(k)) => ModeChoice::OwnKey(k@),
        Err(e) => ModeChoice::Refused(e@),
    }
}

/// The first header named `name`.
fn find_header(headers: &Vec<(String, Vec<u8>)>, name: &str) -> (r: Option<Vec<u8>>)
    ensures
        match r {
            Some(v) => header_value(headers@, name@) == Some(v@),
            None => header_value(headers@, name@) is None,
        },
{
    let mut k: usize = 0;
    assert(headers@.skip(0) =~= headers@);
    while k < headers.len()
        invariant
            0 <= k <= headers.len(),
            header_value(headers@, name@) == header_value(headers@.skip(k as int), name@),
        decreases headers.len() - k,
    {
        assert(headers@.skip(k as int)[0] == headers@[k as int]);
        if str_eq(headers[k].0.as_str(), name) {
            let v = headers[k].1.clone();
            assert(v@ =~= headers@[k as int].1@);
            return Some(v);
        }
        assert(headers@.skip(k as int).drop_first() =~= headers@.skip(k + 1));
        k = k + 1;
    }
    None
}

impl ProviderMode {
    /// The way to reach the provider for a request that does or does not
    /// carry Anthropic credentials and has `headers`, given the ways the
    /// provider allows, in order.
    ///
    /// Where the configured key is the way chosen, it must be a valid header
    /// value; the key turns into one here.
    pub fn determine(
        has_anthropic_authorization: bool,
        headers: &Vec<(String, Vec<u8>)>,
        supported: &Vec<SupportedProviderMode>,
    ) -> (r: Result<ProviderMode, LlmError>)
        requires
            choose_mode(has_anthropic_authorization, headers@, supported@) matches ModeChoice::OwnKey(k)
                ==> header_value_text(k),
        ensures
            mode_choice(r) == choose_mode(has_anthropic_authorization, headers@, supported@),
    {
        if has_anthropic_authorization {
            let mut k: usize = 0;
            while k < supported.len()
                invariant
                    0 <= k <= supported.len(),
                    forall|j: int| 0 <= j < k ==> !(supported@[j] is AnthropicProxy),
                    has_anthropic_authorization,
                decreases supported.len() - k,
            {
                if let SupportedProviderMode::AnthropicProxy = &supported[k] {
                    assert(supported@[k as int] is AnthropicProxy);
                    return Ok(ProviderMode::Proxy);
                }
                k = k + 1;
            }
            proof {
                reveal_strlit("Provider does not support Anthropic token forwarding");
            }
            return Err(
                LlmError::InvalidRequest(
                    String::from_str("Provider does not support Anthropic token forwarding"),
                ),
            );
        }
        let mut k: usize = 0;
        assert(supported@.skip(0) =~= supported@);
        while k < supported.len()
            invariant
                0 <= k <= supported.len(),
                client_key(supported@, headers@) == client_key(supported@.skip(k as int), headers@),
                !has_anthropic_authorization,
            decreases supported.len() - k,
        {
            assert(supported@.skip(k as int)[0] == supported@[k as int]);
            assert(supported@.skip(k as int).drop_first() =~= supported@.skip(k + 1));
            if let SupportedProviderMode::RouterWithClientKey(name) = &supported[k] {
                if let Some(v) = find_header(headers, name.as_str()) {
                    return Ok(ProviderMode::RouterWithClientApiKey(v));
                }
            }
            k = k + 1;
        }
        let mut k: usize = 0;
        assert(supported@.skip(0) =~= supported@);
        while k < supported.len()
            invariant
                0 <= k <= supported.len(),
                own_key(supported@) == own_key(supported@.skip(k as int)),
                client_key(supported@, headers@) is None,
                !has_anthropic_authorization,
            decreases supported.len() - k,
        {
            assert(supported@.skip(k as int)[0] == supported@[k as int]);
            assert(supported@.skip(k as int).drop_first() =~= supported@.skip(k + 1));
            if let SupportedProviderMode::RouterWithOwnKey(key) = &supported[k] {
                let key = key.clone();
                return Ok(ProviderMode::RouterWithOwnedApiKey(key));
            }
            k = k + 1;
        }
        proof {
            reveal_strlit("No API key was provided nor configured.");
        }
        Err(LlmError::AuthenticationFailed(String::from_str("No API key was provided nor configured.")))
    }
}

} // verus!
