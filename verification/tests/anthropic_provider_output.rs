use llm::json::{parse_json, to_json_text};
use llm::messages::openai::{ChatCompletionResponse, ChatRole, FinishReason as OpenAiFinish};
use llm::messages::unified::{UnifiedContent, UnifiedContentContainer, UnifiedFinishReason, UnifiedResponse};
use llm::provider::anthropic::output::{
    AnthropicContent, AnthropicResponse, AnthropicUsage, ContentType, ResponseType, StopReason,
};

fn content(t: ContentType, text: Option<&str>, id: Option<&str>, name: Option<&str>, input: Option<&str>) -> AnthropicContent {
    AnthropicContent {
        content_type: t,
        text: text.map(str::to_string),
        id: id.map(str::to_string),
        name: name.map(str::to_string),
        input: input.map(|s| parse_json(s).unwrap()),
    }
}

fn response(content: Vec<AnthropicContent>, stop: Option<StopReason>) -> AnthropicResponse {
    AnthropicResponse {
        id: "msg_01".to_string(),
        response_type: ResponseType::Message,
        role: ChatRole::Assistant,
        content,
        model: "sonnet".to_string(),
        stop_reason: stop,
        stop_sequence: None,
        usage: AnthropicUsage { input_tokens: 10, output_tokens: 5 },
    }
}

#[test]
fn unified_response_names_unsupported_blocks() {
    let r = UnifiedResponse::from_provider_response(response(
        vec![
            content(ContentType::Text, Some("Hello"), None, None, None),
            content(ContentType::Other("server_tool_use".to_string()), None, None, None, None),
            content(ContentType::ToolUse, None, Some("toolu_1"), Some("f"), None),
        ],
        Some(StopReason::MaxTokens),
    ));
    assert_eq!(r.model, "anthropic-model");
    assert_eq!(r.usage.total_tokens, 15);
    assert_eq!(r.choices.len(), 1);
    assert_eq!(r.choices[0].finish_reason, Some(UnifiedFinishReason::Length));
    let UnifiedContentContainer::Blocks(blocks) = &r.choices[0].message.content else {
        panic!("expected blocks");
    };
    assert!(matches!(&blocks[0], UnifiedContent::Text { text } if text == "Hello"));
    assert!(matches!(&blocks[1], UnifiedContent::Text { text }
        if text == "[Unsupported content type: Other(\"server_tool_use\")]"));
    assert!(matches!(&blocks[2], UnifiedContent::ToolUse { id, name, input }
        if id == "toolu_1" && name == "f" && to_json_text(input) == "null"));
}

#[test]
fn chat_response_gives_tool_uses_fresh_ids() {
    let r = ChatCompletionResponse::from_provider_response(response(
        vec![
            content(ContentType::Text, Some("Let me check."), None, None, None),
            content(ContentType::ToolUse, None, None, Some("lookup"), Some(r#"{"q": 1}"#)),
            content(ContentType::ToolUse, None, Some("toolu_known"), Some("other"), None),
        ],
        Some(StopReason::ToolUse),
    ));
    assert_eq!(r.choices.len(), 1);
    let message = &r.choices[0].message;
    assert_eq!(message.content.as_deref(), Some("Let me check."));
    let calls = message.tool_calls.as_ref().unwrap();
    assert_eq!(calls.len(), 2);
    assert!(calls[0].id.starts_with("toolu_"));
    assert_eq!(calls[0].id.len(), "toolu_".len() + 36);
    assert_eq!(calls[0].function.name, "lookup");
    assert_eq!(calls[0].function.arguments, r#"{"q":1}"#);
    assert_eq!(calls[1].id, "toolu_known");
    assert!(matches!(r.choices[0].finish_reason, OpenAiFinish::ToolCalls));
    assert_eq!(r.usage.total_tokens, 15);
}

#[test]
fn stop_reasons_become_finish_reasons() {
    assert!(matches!(OpenAiFinish::from_stop_reason(StopReason::EndTurn), OpenAiFinish::Stop));
    assert!(matches!(OpenAiFinish::from_stop_reason(StopReason::MaxTokens), OpenAiFinish::Length));
    assert!(matches!(OpenAiFinish::from_stop_reason(StopReason::Refusal), OpenAiFinish::ContentFilter));
    assert!(matches!(OpenAiFinish::from_stop_reason(StopReason::PauseTurn), OpenAiFinish::Other(s) if s == "pause"));
    assert!(matches!(OpenAiFinish::from_stop_reason(StopReason::Other("x".to_string())), OpenAiFinish::Other(s) if s == "x"));
    assert_eq!(UnifiedFinishReason::ToolCalls.to_string(), "tool_calls");
    assert_eq!(UnifiedFinishReason::ContentFilter.to_string(), "content_filter");
}
