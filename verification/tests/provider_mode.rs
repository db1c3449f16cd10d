use llm::error::LlmError;
use llm::provider_mode::{ProviderMode, SupportedProviderMode};

fn key_header(v: &str) -> Vec<(String, Vec<u8>)> {
    vec![("x-client-key".to_string(), v.as_bytes().to_vec())]
}

#[test]
fn anthropic_credentials_pass_through_where_allowed() {
    let supported = vec![SupportedProviderMode::RouterWithOwnKey("own".to_string()), SupportedProviderMode::AnthropicProxy];
    assert!(matches!(ProviderMode::determine(true, &key_header("k"), &supported), Ok(ProviderMode::Proxy)));
}

#[test]
fn anthropic_credentials_are_refused_where_not_allowed() {
    let supported = vec![SupportedProviderMode::RouterWithOwnKey("own".to_string())];
    let r = ProviderMode::determine(true, &vec![], &supported);
    assert!(matches!(r, Err(LlmError::InvalidRequest(m)) if m == "Provider does not support Anthropic token forwarding"));
}

#[test]
fn client_key_comes_before_configured_key() {
    let supported = vec![
        SupportedProviderMode::RouterWithOwnKey("own".to_string()),
        SupportedProviderMode::RouterWithClientKey("x-client-key".to_string()),
    ];
    let r = ProviderMode::determine(false, &key_header("client"), &supported);
    assert!(matches!(r, Ok(ProviderMode::RouterWithClientApiKey(v)) if v == b"client".to_vec()));
    let r = ProviderMode::determine(false, &vec![], &supported);
    assert!(matches!(r, Ok(ProviderMode::RouterWithOwnedApiKey(k)) if k == "own"));
}

#[test]
fn no_key_at_all_is_an_authentication_failure() {
    let supported = vec![SupportedProviderMode::RouterWithClientKey("x-client-key".to_string())];
    let r = ProviderMode::determine(false, &vec![], &supported);
    assert!(matches!(r, Err(LlmError::AuthenticationFailed(m)) if m == "No API key was provided nor configured."));
}
