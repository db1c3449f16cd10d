use llm::protocol::anthropic::error::ERROR_TYPE_API;
use llm::proxy::anthropic::{bad_request_error, internal_server_error, unparsable_reply_error, upstream_relative_path};
use llm::request::PayloadFailure;
use llm::proxy::headers::{is_hop_by_hop, is_withheld, proxied_headers, proxied_headers_with_content};

fn headers(names: &[&str]) -> Vec<(String, u32)> {
    names.iter().enumerate().map(|(i, n)| (n.to_string(), i as u32)).collect()
}

#[test]
fn strict_filter_drops_hop_by_hop_content_and_accept_headers() {
    let hs = headers(&[
        "authorization",
        "accept",
        "content-type",
        "content-length",
        "connection",
        "host",
        "x-request-id",
        "sec-websocket-key",
        "anthropic-version",
    ]);
    let kept = proxied_headers(hs);
    assert_eq!(
        kept,
        vec![
            ("authorization".to_string(), 0),
            ("x-request-id".to_string(), 6),
            ("anthropic-version".to_string(), 8)
        ]
    );
}

#[test]
fn lenient_filter_keeps_content_and_accept_headers() {
    let hs = headers(&["accept", "content-type", "keep-alive", "te", "origin", "x-api-key"]);
    let kept = proxied_headers_with_content(hs);
    assert_eq!(
        kept,
        vec![("accept".to_string(), 0), ("content-type".to_string(), 1), ("x-api-key".to_string(), 5)]
    );
}

#[test]
fn header_filters_compose() {
    let hs = headers(&["accept", "upgrade", "x-a", "content-length", "x-b", "proxy-authorization"]);
    let strict = proxied_headers(hs.clone());
    assert_eq!(proxied_headers(strict.clone()), strict);
    assert_eq!(proxied_headers(proxied_headers_with_content(hs)), strict);
}

#[test]
fn header_name_classes() {
    for name in [
        "connection",
        "keep-alive",
        "proxy-authenticate",
        "proxy-authorization",
        "te",
        "trailer",
        "transfer-encoding",
        "upgrade",
        "origin",
        "host",
        "sec-websocket-version",
        "sec-websocket-key",
        "sec-websocket-accept",
        "sec-websocket-protocol",
        "sec-websocket-extensions",
    ] {
        assert!(is_hop_by_hop(name), "{name}");
        assert!(is_withheld(name), "{name}");
    }
    for name in ["accept", "accept-charset", "accept-encoding", "accept-ranges", "content-length", "content-type"] {
        assert!(!is_hop_by_hop(name), "{name}");
        assert!(is_withheld(name), "{name}");
    }
    assert!(!is_withheld("authorization"));
    assert!(!is_withheld("Connection"));
}

#[test]
fn upstream_path_is_relative_to_base() {
    assert_eq!(upstream_relative_path("/proxy/anthropic/v1/models", "/proxy/anthropic"), "v1/models");
    assert_eq!(upstream_relative_path("/base", "/base"), "");
    assert_eq!(upstream_relative_path("/basev1", "/base"), "v1");
}

#[test]
fn unreadable_replies() {
    assert!(unparsable_reply_error(502).is_none());
    assert!(unparsable_reply_error(500).is_none());
    let (status, error) = unparsable_reply_error(200).unwrap();
    assert_eq!(status, 500);
    assert_eq!(error.error_type, ERROR_TYPE_API);
    assert_eq!(error.message, "Could not parse response from Anthropic API");
    assert!(unparsable_reply_error(404).is_some());
}

#[test]
fn proxy_error_answers() {
    let (status, error) = bad_request_error(PayloadFailure::UnsupportedContentType.message());
    assert_eq!(status, 400);
    assert_eq!(error.error_type, "invalid_request_error");
    assert_eq!(error.message, "Unsupported Content-Type, expected: 'Content-Type: application/json'");
    let (status, error) = internal_server_error("Could not connect to Anthropic API".to_string());
    assert_eq!(status, 500);
    assert_eq!(error.error_type, "api_error");
    assert_eq!(error.message, "Could not connect to Anthropic API");
}
