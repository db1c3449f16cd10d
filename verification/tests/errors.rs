use llm::error::LlmError;
use llm::protocol::anthropic::error::Error;
use llm::request::{is_json_content_type, provider_api_key, PayloadFailure, BODY_LIMIT_BYTES};

#[test]
fn failure_statuses_map_to_errors() {
    let t = || "body".to_string();
    assert!(matches!(LlmError::from_status(401, t()), LlmError::AuthenticationFailed(m) if m == "body"));
    assert!(matches!(LlmError::from_status(403, t()), LlmError::InsufficientQuota(m) if m == "body"));
    assert!(matches!(LlmError::from_status(404, t()), LlmError::ModelNotFound(m) if m == "body"));
    assert!(matches!(LlmError::from_status(429, t()), LlmError::RateLimitExceeded { message } if message == "body"));
    assert!(matches!(LlmError::from_status(400, t()), LlmError::InvalidRequest(m) if m == "body"));
    assert!(matches!(LlmError::from_status(500, t()), LlmError::InternalError(Some(m)) if m == "body"));
    assert!(matches!(LlmError::from_status(502, t()),
        LlmError::ProviderApiError { status: 502, message } if message == "body"));
    assert!(matches!(LlmError::from_status(418, t()),
        LlmError::ProviderApiError { status: 418, message } if message == "body"));
}

#[test]
fn bedrock_service_errors_map_to_errors() {
    let e = |code: Option<&str>| LlmError::from_bedrock_service_error(code, Some("why"));
    assert!(matches!(e(Some("AccessDeniedException")), LlmError::AuthenticationFailed(m) if m == "why"));
    assert!(matches!(e(Some("ResourceNotFoundException")), LlmError::ModelNotFound(m) if m == "why"));
    assert!(matches!(e(Some("ThrottlingException")), LlmError::RateLimitExceeded { message } if message == "why"));
    assert!(matches!(e(Some("ValidationException")), LlmError::InvalidRequest(m) if m == "why"));
    assert!(matches!(e(Some("ModelTimeoutException")), LlmError::ProviderApiError { status: 504, .. }));
    assert!(matches!(e(Some("ServiceUnavailableException")), LlmError::ProviderApiError { status: 503, .. }));
    assert!(matches!(e(Some("InternalServerException")), LlmError::InternalError(Some(m)) if m == "why"));
    assert!(matches!(e(Some("SomethingElse")), LlmError::ProviderApiError { status: 500, .. }));
    assert!(matches!(e(None), LlmError::ProviderApiError { status: 500, .. }));
    assert!(matches!(LlmError::from_bedrock_service_error(Some("ValidationException"), None),
        LlmError::InvalidRequest(m) if m == "Unknown error"));
}

#[test]
fn protocol_error_constructors_set_their_type() {
    let cases: Vec<(Error, &str)> = vec![
        (Error::invalid_request_error("m".to_string()), "invalid_request_error"),
        (Error::authentication_error("m".to_string()), "authentication_error"),
        (Error::billing_error("m".to_string()), "billing_error"),
        (Error::permission_error("m".to_string()), "permission_error"),
        (Error::not_found_error("m".to_string()), "not_found_error"),
        (Error::rate_limit_error("m".to_string()), "rate_limit_error"),
        (Error::timeout_error("m".to_string()), "timeout_error"),
        (Error::api_error("m".to_string()), "api_error"),
        (Error::overloaded_error("m".to_string()), "overloaded_error"),
    ];
    for (error, kind) in cases {
        assert_eq!(error.error_type(), kind);
        assert_eq!(error.message, "m");
        assert!(error.unknown_fields.is_empty());
    }
}

#[test]
fn refused_payloads_have_status_and_message() {
    assert_eq!(PayloadFailure::UnsupportedContentType.status(), 415);
    assert_eq!(
        PayloadFailure::UnsupportedContentType.message(),
        "Unsupported Content-Type, expected: 'Content-Type: application/json'"
    );
    assert_eq!(PayloadFailure::TooLarge.status(), 413);
    assert_eq!(
        PayloadFailure::TooLarge.message(),
        format!("Request body is too large, limit is {} bytes", BODY_LIMIT_BYTES)
    );
    assert_eq!(BODY_LIMIT_BYTES, 32 << 20);
    let unreadable = PayloadFailure::Unreadable("eof".to_string());
    assert_eq!(unreadable.status(), 400);
    assert_eq!(unreadable.message(), "Failed to read request body: eof");
    let unparsable = PayloadFailure::Unparsable("bad".to_string());
    assert_eq!(unparsable.status(), 400);
    assert_eq!(unparsable.message(), "Failed to parse request body: bad");
}

#[test]
fn only_exact_json_content_type_is_accepted() {
    assert!(is_json_content_type(Some(&b"application/json".to_vec())));
    assert!(!is_json_content_type(Some(&b"application/json; charset=utf-8".to_vec())));
    assert!(!is_json_content_type(Some(&b"text/plain".to_vec())));
    assert!(!is_json_content_type(None));
}

#[test]
fn provider_key_comes_from_its_header() {
    let headers = vec![
        ("content-type".to_string(), b"application/json".to_vec()),
        ("x-provider-api-key".to_string(), b"sk-123".to_vec()),
        ("x-provider-api-key".to_string(), b"sk-456".to_vec()),
    ];
    assert_eq!(provider_api_key(&headers).as_deref(), Some("sk-123"));
    let bad = vec![("x-provider-api-key".to_string(), vec![0x73, 0xff, 0x6b])];
    assert_eq!(provider_api_key(&bad), None);
    assert_eq!(provider_api_key(&vec![]), None);
}
