use llm::json::{clone_json, parse_json, JsonValue};
use llm::messages::unified::{
    UnifiedArguments, UnifiedContentContainer, UnifiedMessage, UnifiedRole, UnifiedToolResultContent,
};
use llm::provider::bedrock::input::{
    convert_unified_messages_to_bedrock, ConversationRole,
    arguments_to_document, build_tool_use_content_block, normalize_tool_input_document,
    tool_result_text,
};
use llm::provider::bedrock::output::ContentBlock;

fn json(text: &str) -> JsonValue {
    parse_json(text).unwrap()
}

#[test]
fn tool_use_arguments_parse_as_object() {
    let doc = normalize_tool_input_document(json(r#"{ "command": "ls" }"#));

    let block = build_tool_use_content_block("tool-1".to_string(), "Bash".to_string(), doc).expect("content block");

    let ContentBlock::ToolUse { input, .. } = block else {
        panic!("expected tool use block");
    };

    assert!(matches!(input, JsonValue::Object(_)));
}

#[test]
fn tool_use_arguments_fallback_to_string() {
    let (doc, _) = arguments_to_document(UnifiedArguments::String("not json".to_string()));
    let block = build_tool_use_content_block("tool-1".to_string(), "Bash".to_string(), doc).expect("content block");

    let ContentBlock::ToolUse { input, .. } = block else {
        panic!("expected tool use block");
    };

    assert!(matches!(input, JsonValue::Str(_)));
}

#[test]
fn tool_input_normalization_cases() {
    assert_eq!(normalize_tool_input_document(JsonValue::Null), json("{}"));
    assert_eq!(normalize_tool_input_document(JsonValue::Bool(true)), JsonValue::Str("true".to_string()));
    assert_eq!(
        normalize_tool_input_document(JsonValue::Number("42".to_string())),
        JsonValue::Str("42".to_string())
    );
    assert_eq!(
        normalize_tool_input_document(JsonValue::Str(r#"{"a":1}"#.to_string())),
        json(r#"{"a":1}"#)
    );
    assert_eq!(
        normalize_tool_input_document(JsonValue::Str("[1,2]".to_string())),
        JsonValue::Str("[1,2]".to_string())
    );
    assert_eq!(normalize_tool_input_document(json("[1, 2]")), JsonValue::Str("[1,2]".to_string()));
}

#[test]
fn arguments_report_text_that_is_not_json() {
    let (doc, fallback) = arguments_to_document(UnifiedArguments::String(r#"{"x": true}"#.to_string()));
    assert!(!fallback);
    assert_eq!(doc, json(r#"{"x": true}"#));
    let (doc, fallback) = arguments_to_document(UnifiedArguments::String("oops".to_string()));
    assert!(fallback);
    assert_eq!(doc, JsonValue::Str("oops".to_string()));
}

#[test]
fn tool_result_texts_join_with_newlines() {
    assert_eq!(tool_result_text(UnifiedToolResultContent::Text("one".to_string())), "one");
    assert_eq!(
        tool_result_text(UnifiedToolResultContent::Multiple(vec!["a".to_string(), "b".to_string()])),
        "a\nb"
    );
}

#[test]
fn normalized_tool_inputs_stay_normalized() {
    for input in [json(r#"{"a": [1, 2]}"#), JsonValue::Str("plain".to_string()), JsonValue::Null] {
        let once = normalize_tool_input_document(input);
        assert!(matches!(once, JsonValue::Object(_) | JsonValue::Str(_)));
        let twice = normalize_tool_input_document(clone_json(&once));
        assert_eq!(twice, once);
    }
}

#[test]
fn bedrock_conversation_alternates_roles() {
    let msg = |role, text: &str| UnifiedMessage {
        role,
        content: UnifiedContentContainer::Text(text.to_string()),
        tool_calls: None,
        tool_call_id: None,
    };
    let (system, messages) = convert_unified_messages_to_bedrock(vec![
        msg(UnifiedRole::System, "be nice"),
        msg(UnifiedRole::User, "one"),
        msg(UnifiedRole::User, "two"),
        msg(UnifiedRole::Assistant, ""),
        msg(UnifiedRole::Assistant, "three"),
        msg(UnifiedRole::User, "four"),
    ]);
    assert_eq!(system.map(|s| s.len()), Some(1));
    let roles: Vec<ConversationRole> = messages.iter().map(|m| m.role).collect();
    assert_eq!(roles, vec![ConversationRole::User, ConversationRole::Assistant, ConversationRole::User]);
    assert_eq!(messages[0].content.len(), 2);
    assert!(messages.iter().all(|m| !m.content.is_empty()));
}
