use llm::error::LlmError;
use llm::messages::openai::{Model, ObjectType};
use llm::provider::models::{
    bedrock_profile_owner, discovered_model, endpoint_url, google_generate_url, google_model_id,
    google_models_url, google_stream_url, list_models, resolve_request_model,
};

#[test]
fn matching_filter_keeps_the_requested_model() {
    let r = resolve_request_model("m-1".to_string(), Some(true), Some("target".to_string()));
    assert_eq!(r.unwrap(), "m-1");
}

#[test]
fn configured_alias_resolves_to_its_target() {
    let r = resolve_request_model("alias".to_string(), Some(false), Some("target".to_string()));
    assert_eq!(r.unwrap(), "target");
    let r = resolve_request_model("alias".to_string(), None, Some("target".to_string()));
    assert_eq!(r.unwrap(), "target");
}

#[test]
fn without_filter_any_model_passes() {
    let r = resolve_request_model("anything".to_string(), None, None);
    assert_eq!(r.unwrap(), "anything");
}

#[test]
fn unknown_model_under_a_filter_is_refused() {
    let r = resolve_request_model("nope".to_string(), Some(false), None);
    assert!(matches!(r, Err(LlmError::ModelNotFound(m)) if m == "Model 'nope' is not configured"));
}

fn model(id: &str) -> Model {
    Model { id: id.to_string(), object: ObjectType::Model, created: 7, owned_by: "me".to_string() }
}

#[test]
fn listing_puts_configured_models_after_discovered_ones_with_prefix() {
    let discovered = vec![discovered_model("gemini-pro".to_string(), "google".to_string())];
    let out = list_models("google", discovered, vec![model("fast"), model("slow")]);
    let ids: Vec<&str> = out.iter().map(|m| m.id.as_str()).collect();
    assert_eq!(ids, vec!["gemini-pro", "google/fast", "google/slow"]);
    assert_eq!(out[0].created, 0);
    assert_eq!(out[0].owned_by, "google");
    assert_eq!(out[0].object, ObjectType::Model);
    assert_eq!(out[1].created, 7);
    assert_eq!(out[1].owned_by, "me");
}

#[test]
fn google_names_lose_their_prefix() {
    assert_eq!(google_model_id("models/gemini-pro"), "gemini-pro");
    assert_eq!(google_model_id("gemini-pro"), "gemini-pro");
    assert_eq!(google_model_id("models/"), "");
}

#[test]
fn bedrock_profile_owner_from_arn() {
    assert_eq!(
        bedrock_profile_owner(Some("arn:aws:bedrock:us-east-1::foundation-model/anthropic.sonnet-v2:0"), "bedrock"),
        "anthropic"
    );
    assert_eq!(bedrock_profile_owner(Some("meta.llama3"), "bedrock"), "meta");
    assert_eq!(bedrock_profile_owner(Some("a/b/noperiod"), "bedrock"), "noperiod");
    assert_eq!(bedrock_profile_owner(None, "bedrock"), "bedrock");
}

#[test]
fn provider_urls() {
    assert_eq!(
        google_generate_url("https://g/v1beta", "gemini-pro", "KEY"),
        "https://g/v1beta/models/gemini-pro:generateContent?key=KEY"
    );
    assert_eq!(
        google_stream_url("https://g/v1beta", "gemini-pro", "KEY"),
        "https://g/v1beta/models/gemini-pro:streamGenerateContent?alt=sse&key=KEY"
    );
    assert_eq!(google_models_url("https://g/v1beta", "KEY"), "https://g/v1beta/models?key=KEY");
    assert_eq!(endpoint_url("https://api/v1", "/messages"), "https://api/v1/messages");
}
