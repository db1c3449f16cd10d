use llm::json::{parse_json, JsonValue};
use llm::messages::unified::{
    UnifiedContent, UnifiedContentContainer, UnifiedMessage, UnifiedRequest, UnifiedRole,
};
use llm::provider::anthropic::input::{
    AnthropicContentBlock, AnthropicMessageContent, AnthropicRequest, AnthropicRole,
};

fn json(text: &str) -> JsonValue {
    parse_json(text).unwrap()
}

fn request(model: &str, messages: Vec<UnifiedMessage>, max_tokens: u32) -> UnifiedRequest {
    UnifiedRequest {
        model: model.to_string(),
        messages,
        system: None,
        max_tokens: Some(max_tokens),
        temperature: None,
        top_p: None,
        top_k: None,
        frequency_penalty: None,
        presence_penalty: None,
        stop_sequences: None,
        stream: None,
        tools: None,
        tool_choice: None,
        parallel_tool_calls: None,
        metadata: None,
    }
}

fn text_message(role: UnifiedRole, text: &str, tool_call_id: Option<&str>) -> UnifiedMessage {
    UnifiedMessage {
        role,
        content: UnifiedContentContainer::Text(text.to_string()),
        tool_calls: None,
        tool_call_id: tool_call_id.map(|s| s.to_string()),
    }
}

#[test]
fn converts_tool_role_message_into_tool_result_block() {
    let messages = vec![
        text_message(UnifiedRole::User, "List files in crates/config", None),
        UnifiedMessage {
            role: UnifiedRole::Assistant,
            content: UnifiedContentContainer::Blocks(vec![
                UnifiedContent::Text { text: "Let me inspect the repository.".to_string() },
                UnifiedContent::ToolUse {
                    id: "toolu_list_files".to_string(),
                    name: "list_files".to_string(),
                    input: json(r#"{ "path": "crates/config" }"#),
                },
            ]),
            tool_calls: None,
            tool_call_id: None,
        },
        text_message(UnifiedRole::Tool, "[\"Cargo.toml\", \"src/lib.rs\"]", Some("toolu_list_files")),
    ];

    let anthropic_request = AnthropicRequest::from_unified(request("anthropic/haiku-3-5-latest", messages, 200));

    assert_eq!(anthropic_request.model, "anthropic/haiku-3-5-latest");
    assert_eq!(anthropic_request.max_tokens, 200);
    assert!(anthropic_request.system.is_none());
    assert!(anthropic_request.tools.is_none());
    assert!(anthropic_request.tool_choice.is_none());
    assert_eq!(anthropic_request.messages.len(), 3);

    let first = &anthropic_request.messages[0];
    assert_eq!(first.role, AnthropicRole::User);
    assert!(matches!(&first.content, AnthropicMessageContent::Text(t) if t == "List files in crates/config"));

    let second = &anthropic_request.messages[1];
    assert_eq!(second.role, AnthropicRole::Assistant);
    let AnthropicMessageContent::Blocks(blocks) = &second.content else {
        panic!("expected blocks");
    };
    assert_eq!(blocks.len(), 2);
    assert!(matches!(&blocks[0], AnthropicContentBlock::Text { text } if text == "Let me inspect the repository."));
    assert!(matches!(&blocks[1], AnthropicContentBlock::ToolUse { id, name, input }
        if id == "toolu_list_files" && name == "list_files" && *input == json(r#"{"path": "crates/config"}"#)));

    let third = &anthropic_request.messages[2];
    assert_eq!(third.role, AnthropicRole::User);
    let AnthropicMessageContent::Blocks(blocks) = &third.content else {
        panic!("expected blocks");
    };
    assert_eq!(blocks.len(), 1);
    assert!(matches!(&blocks[0], AnthropicContentBlock::ToolResult { tool_use_id, content, is_error }
        if tool_use_id == "toolu_list_files"
            && content.as_deref() == Some("[\"Cargo.toml\", \"src/lib.rs\"]")
            && is_error.is_none()));
}

#[test]
fn converts_multiple_tool_messages_into_results() {
    let messages = vec![
        text_message(UnifiedRole::User, "Help me with file operations", None),
        UnifiedMessage {
            role: UnifiedRole::Assistant,
            content: UnifiedContentContainer::Blocks(vec![
                UnifiedContent::Text { text: "I'll help you with file operations.".to_string() },
                UnifiedContent::ToolUse {
                    id: "call_file_read_001".to_string(),
                    name: "Read".to_string(),
                    input: json(r#"{ "file_path": "./config.toml" }"#),
                },
                UnifiedContent::ToolUse {
                    id: "call_file_write_002".to_string(),
                    name: "Write".to_string(),
                    input: json(r#"{ "file_path": "./output.txt", "content": "Hello World" }"#),
                },
            ]),
            tool_calls: None,
            tool_call_id: None,
        },
        text_message(UnifiedRole::Tool, "# Configuration\nport = 8080", Some("call_file_read_001")),
        text_message(UnifiedRole::Tool, "File written successfully", Some("call_file_write_002")),
        text_message(UnifiedRole::User, "Great!", None),
    ];

    let anthropic_request =
        AnthropicRequest::from_unified(request("anthropic/sonnet-3-5-20241022", messages, 512));

    let merged_message = anthropic_request
        .messages
        .iter()
        .find(|message| {
            matches!(&message.content, AnthropicMessageContent::Blocks(blocks)
            if blocks.iter().any(|block| matches!(block, AnthropicContentBlock::ToolResult { .. })))
        })
        .expect("expected merged tool result message");

    let blocks = match &merged_message.content {
        AnthropicMessageContent::Blocks(blocks) => blocks,
        _ => return,
    };

    assert!(blocks.iter().any(|block| matches!(
        block,
        AnthropicContentBlock::ToolResult { tool_use_id, .. } if tool_use_id == "call_file_write_002"
    )));
}

#[test]
fn consecutive_tool_replies_merge_into_one_user_message() {
    let messages = vec![
        text_message(UnifiedRole::Tool, "first", Some("a")),
        text_message(UnifiedRole::Tool, "second", Some("b")),
        text_message(UnifiedRole::User, "Great!", None),
    ];
    let r = AnthropicRequest::from_unified(request("m", messages, 16));
    assert_eq!(r.messages.len(), 2);
    let AnthropicMessageContent::Blocks(blocks) = &r.messages[0].content else {
        panic!("expected blocks");
    };
    assert_eq!(blocks.len(), 2);
    assert!(matches!(&blocks[0], AnthropicContentBlock::ToolResult { tool_use_id, content, .. }
        if tool_use_id == "a" && content.as_deref() == Some("first")));
    assert!(matches!(&blocks[1], AnthropicContentBlock::ToolResult { tool_use_id, content, .. }
        if tool_use_id == "b" && content.as_deref() == Some("second")));
    assert!(matches!(&r.messages[1].content, AnthropicMessageContent::Text(t) if t == "Great!"));
}
