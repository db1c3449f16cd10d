use llm::messages::openai::JsonSchema;
use llm::messages::unified::{UnifiedContentContainer, UnifiedMessage, UnifiedRequest, UnifiedRole};
use llm::provider::google::input::{strip_unsupported_schema_fields, GoogleGenerateRequest};

fn prop<'a>(schema: &'a JsonSchema, name: &str) -> &'a JsonSchema {
    &schema
        .properties
        .as_ref()
        .unwrap()
        .iter()
        .find(|(k, _)| k == name)
        .unwrap()
        .1
}

#[test]
fn test_strip_unsupported_schema_fields() {
    let schema = JsonSchema {
        schema_type: Some("object".to_string()),
        schema: Some("http://json-schema.org/draft-07/schema#".to_string()),
        additional_properties: Some(false),
        properties: Some(vec![
            (
                "array_field".to_string(),
                JsonSchema {
                    schema_type: Some("array".to_string()),
                    items: Some(Box::new(JsonSchema {
                        schema_type: Some("object".to_string()),
                        additional_properties: Some(true),
                        ..Default::default()
                    })),
                    ..Default::default()
                },
            ),
            (
                "field1".to_string(),
                JsonSchema {
                    schema_type: Some("string".to_string()),
                    ..Default::default()
                },
            ),
            (
                "nested".to_string(),
                JsonSchema {
                    schema_type: Some("object".to_string()),
                    additional_properties: Some(false),
                    properties: Some(vec![(
                        "subfield".to_string(),
                        JsonSchema {
                            schema_type: Some("number".to_string()),
                            ..Default::default()
                        },
                    )]),
                    ..Default::default()
                },
            ),
        ]),
        ..Default::default()
    };

    let cleaned = strip_unsupported_schema_fields(schema);

    assert!(cleaned.schema.is_none());
    assert!(cleaned.additional_properties.is_none());
    let nested = prop(&cleaned, "nested");
    assert!(nested.additional_properties.is_none());
    let array_field = prop(&cleaned, "array_field");
    let items = array_field.items.as_ref().unwrap();
    assert!(items.additional_properties.is_none());
    assert_eq!(cleaned.schema_type, Some("object".to_string()));
    assert_eq!(prop(&cleaned, "field1").schema_type, Some("string".to_string()));
}

#[test]
fn strip_drops_unsupported_string_formats_only() {
    let schema = JsonSchema {
        schema_type: Some("object".to_string()),
        properties: Some(vec![
            (
                "when".to_string(),
                JsonSchema {
                    schema_type: Some("string".to_string()),
                    format: Some("date-time".to_string()),
                    ..Default::default()
                },
            ),
            (
                "mail".to_string(),
                JsonSchema {
                    schema_type: Some("string".to_string()),
                    format: Some("email".to_string()),
                    ..Default::default()
                },
            ),
            (
                "count".to_string(),
                JsonSchema {
                    schema_type: Some("integer".to_string()),
                    format: Some("int32".to_string()),
                    ..Default::default()
                },
            ),
        ]),
        ..Default::default()
    };
    let cleaned = strip_unsupported_schema_fields(schema);
    assert_eq!(prop(&cleaned, "when").format, Some("date-time".to_string()));
    assert_eq!(prop(&cleaned, "mail").format, None);
    assert_eq!(prop(&cleaned, "count").format, Some("int32".to_string()));
    let names: Vec<&str> = cleaned.properties.as_ref().unwrap().iter().map(|(k, _)| k.as_str()).collect();
    assert_eq!(names, vec!["when", "mail", "count"]);
}

fn unified_request(top_k: Option<u32>) -> UnifiedRequest {
    UnifiedRequest {
        model: "gemini-pro".to_string(),
        messages: vec![UnifiedMessage {
            role: UnifiedRole::User,
            content: UnifiedContentContainer::Text("hi".to_string()),
            tool_calls: None,
            tool_call_id: None,
        }],
        system: None,
        max_tokens: Some(256),
        temperature: None,
        top_p: None,
        top_k,
        frequency_penalty: None,
        presence_penalty: None,
        stop_sequences: None,
        stream: None,
        tools: None,
        tool_choice: None,
        parallel_tool_calls: None,
        metadata: None,
    }
}

#[test]
fn generate_request_passes_top_k_on() {
    let r = GoogleGenerateRequest::from_unified(unified_request(Some(40)));
    let config = r.generation_config.unwrap();
    assert_eq!(config.top_k, Some(40));
    assert_eq!(config.max_output_tokens, Some(256));
    assert_eq!(config.candidate_count, Some(1));
    let r = GoogleGenerateRequest::from_unified(unified_request(None));
    assert_eq!(r.generation_config.unwrap().top_k, None);
}

#[test]
fn strip_cleans_every_level() {
    let leaf = JsonSchema {
        schema_type: Some("string".to_string()),
        format: Some("uri".to_string()),
        default: Some(llm::json::parse_json(r#""x""#).unwrap()),
        additional_properties: Some(true),
        ..JsonSchema::default()
    };
    let list = JsonSchema {
        schema_type: Some("array".to_string()),
        items: Some(Box::new(leaf)),
        schema: Some("http://json-schema.org/draft-07/schema#".to_string()),
        ..JsonSchema::default()
    };
    let kept = JsonSchema {
        schema_type: Some("string".to_string()),
        format: Some("date-time".to_string()),
        ..JsonSchema::default()
    };
    let top = JsonSchema {
        schema_type: Some("object".to_string()),
        description: Some("top".to_string()),
        properties: Some(vec![("links".to_string(), list), ("at".to_string(), kept)]),
        required: Some(vec!["links".to_string()]),
        additional_properties: Some(false),
        ..JsonSchema::default()
    };
    let out = strip_unsupported_schema_fields(top);
    assert_eq!(out.description.as_deref(), Some("top"));
    assert_eq!(out.required, Some(vec!["links".to_string()]));
    assert!(out.additional_properties.is_none());
    let names: Vec<&str> = out.properties.as_ref().unwrap().iter().map(|(k, _)| k.as_str()).collect();
    assert_eq!(names, vec!["links", "at"]);
    let list = prop(&out, "links");
    assert!(list.schema.is_none());
    let leaf = list.items.as_ref().unwrap();
    assert!(leaf.format.is_none());
    assert!(leaf.default.is_none());
    assert!(leaf.additional_properties.is_none());
    assert_eq!(prop(&out, "at").format.as_deref(), Some("date-time"));
}
