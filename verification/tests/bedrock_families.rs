use llm::provider::bedrock::families::ModelFamily;

#[test]
fn anthropic_model_detection() {
    assert_eq!(
        ModelFamily::from_model_id("anthropic.opus-3-20240229-v1:0").unwrap(),
        ModelFamily::Anthropic
    );
    assert_eq!(
        ModelFamily::from_model_id("anthropic.sonnet-3-20240229-v1:0").unwrap(),
        ModelFamily::Anthropic
    );
    assert_eq!(
        ModelFamily::from_model_id("anthropic.haiku-3-20240307-v1:0").unwrap(),
        ModelFamily::Anthropic
    );
    assert_eq!(
        ModelFamily::from_model_id("anthropic.instant-v1").unwrap(),
        ModelFamily::Anthropic
    );
}

#[test]
fn amazon_model_detection() {
    assert_eq!(
        ModelFamily::from_model_id("amazon.titan-text-express-v1").unwrap(),
        ModelFamily::Amazon
    );
    assert_eq!(
        ModelFamily::from_model_id("amazon.titan-text-lite-v1").unwrap(),
        ModelFamily::Amazon
    );
    assert_eq!(
        ModelFamily::from_model_id("amazon.titan-embed-text-v1").unwrap(),
        ModelFamily::Amazon
    );
}

#[test]
fn meta_model_detection() {
    assert_eq!(
        ModelFamily::from_model_id("meta.llama3-70b-instruct-v1:0").unwrap(),
        ModelFamily::Meta
    );
    assert_eq!(
        ModelFamily::from_model_id("meta.llama2-70b-chat-v1").unwrap(),
        ModelFamily::Meta
    );
    assert_eq!(
        ModelFamily::from_model_id("meta.llama3-8b-instruct-v1:0").unwrap(),
        ModelFamily::Meta
    );
}

#[test]
fn mistral_model_detection() {
    assert_eq!(
        ModelFamily::from_model_id("mistral.mistral-7b-instruct-v0:2").unwrap(),
        ModelFamily::Mistral
    );
    assert_eq!(
        ModelFamily::from_model_id("mistral.mixtral-8x7b-instruct-v0:1").unwrap(),
        ModelFamily::Mistral
    );
}

#[test]
fn cohere_model_detection() {
    assert_eq!(
        ModelFamily::from_model_id("cohere.command-text-v14").unwrap(),
        ModelFamily::Cohere
    );
    assert_eq!(
        ModelFamily::from_model_id("cohere.command-light-text-v14").unwrap(),
        ModelFamily::Cohere
    );
    assert_eq!(
        ModelFamily::from_model_id("cohere.embed-english-v3").unwrap(),
        ModelFamily::Cohere
    );
}

#[test]
fn ai21_model_detection() {
    assert_eq!(ModelFamily::from_model_id("ai21.j2-ultra-v1").unwrap(), ModelFamily::AI21);
    assert_eq!(ModelFamily::from_model_id("ai21.j2-mid-v1").unwrap(), ModelFamily::AI21);
    assert_eq!(
        ModelFamily::from_model_id("ai21.jamba-instruct-v1:0").unwrap(),
        ModelFamily::AI21
    );
}

#[test]
fn stability_model_detection() {
    assert_eq!(
        ModelFamily::from_model_id("stability.stable-diffusion-xl-v1").unwrap(),
        ModelFamily::Stability
    );
}

#[test]
fn unknown_vendor() {
    let result = ModelFamily::from_model_id("unknown.model-v1");
    assert!(result.is_err());
    assert!(result.unwrap_err().to_string().contains("Unknown model family"));
}

#[test]
fn invalid_format() {
    let result = ModelFamily::from_model_id("no-dot-in-model-id");
    assert!(result.is_err());
    let error_msg = result.unwrap_err().to_string();
    println!("Actual error message: {}", error_msg);
    assert!(error_msg.contains("Invalid model ID format"));
}

#[test]
fn streaming_support() {
    assert!(ModelFamily::Anthropic.supports_streaming());
    assert!(ModelFamily::Amazon.supports_streaming());
    assert!(ModelFamily::Meta.supports_streaming());
    assert!(ModelFamily::Mistral.supports_streaming());
    assert!(ModelFamily::Cohere.supports_streaming());
    assert!(!ModelFamily::AI21.supports_streaming());
    assert!(!ModelFamily::Stability.supports_streaming());
}

#[test]
fn vendor_prefix() {
    assert_eq!(ModelFamily::Anthropic.vendor_prefix(), "anthropic");
    assert_eq!(ModelFamily::Amazon.vendor_prefix(), "amazon");
    assert_eq!(ModelFamily::Meta.vendor_prefix(), "meta");
    assert_eq!(ModelFamily::Mistral.vendor_prefix(), "mistral");
    assert_eq!(ModelFamily::Cohere.vendor_prefix(), "cohere");
    assert_eq!(ModelFamily::AI21.vendor_prefix(), "ai21");
    assert_eq!(ModelFamily::Stability.vendor_prefix(), "stability");
}

#[test]
fn display() {
    assert_eq!(ModelFamily::Anthropic.to_string(), "anthropic");
    assert_eq!(ModelFamily::Amazon.to_string(), "amazon");
    assert_eq!(ModelFamily::Meta.to_string(), "meta");
}

#[test]
fn unknown_vendor_error_names_the_vendor() {
    let err = ModelFamily::from_model_id("acme.widget.v2").unwrap_err();
    assert_eq!(
        err.to_string(),
        "Unknown model family for vendor: 'acme'. Supported vendors: anthropic, amazon, meta, mistral, cohere, ai21, stability"
    );
    let err = ModelFamily::from_model_id("plain").unwrap_err();
    assert_eq!(err.to_string(), "Invalid model ID format: 'plain' (missing vendor prefix)");
}

#[test]
fn vendor_prefix_reads_back_as_its_family() {
    for f in [
        ModelFamily::Anthropic,
        ModelFamily::Amazon,
        ModelFamily::Meta,
        ModelFamily::Mistral,
        ModelFamily::Cohere,
        ModelFamily::AI21,
        ModelFamily::Stability,
    ] {
        let id = format!("{}.model", f.vendor_prefix());
        assert_eq!(ModelFamily::from_model_id(&id).unwrap(), f);
    }
    assert_eq!(ModelFamily::AI21.description(), "AI21 Labs Jurassic and Jamba models");
}
