use llm::json::{JsonValue, parse_json, to_json_text};
use llm::messages::anthropic::{
    AnthropicChatResponse, AnthropicContent, AnthropicMessage, AnthropicRole, AnthropicStopReason,
    AnthropicStreamEvent, AnthropicToolResultContent, AnthropicUsage, AnthropicContentDelta,
    AnthropicStreamMessageStart,
};
use llm::messages::to_anthropic::parse_argument_string;
use llm::messages::unified::{
    UnifiedArguments, UnifiedChoice, UnifiedChunk, UnifiedContent, UnifiedContentContainer,
    UnifiedFinishReason, UnifiedFunctionCall, UnifiedMessage, UnifiedResponse, UnifiedRole,
    UnifiedStopReason, UnifiedStreamingToolCall, UnifiedToolCall, UnifiedToolResultContent,
    UnifiedUsage,
};

fn json(text: &str) -> JsonValue {
    parse_json(text).unwrap()
}

#[test]
fn parse_argument_string_handles_invalid_json() {
    let raw = r#"{"command": "echo "hello""}"#;
    let value = parse_argument_string(raw);
    assert!(matches!(value, JsonValue::Str(s) if s == raw));
}

#[test]
fn parse_argument_string_handles_empty_string() {
    let value = parse_argument_string("");
    assert!(value.is_object());
    assert_eq!(value, json("{}"));
}

fn tool_use(block: &AnthropicContent) -> (&str, &str, &JsonValue) {
    match block {
        AnthropicContent::ToolUse { id, name, input } => (id, name, input),
        other => panic!("expected tool use, got {other:?}"),
    }
}

fn text_of(block: &AnthropicContent) -> &str {
    match block {
        AnthropicContent::Text { text } => text,
        other => panic!("expected text, got {other:?}"),
    }
}

#[test]
fn convert_tool_calls_from_unified_to_anthropic() {
    let unified_resp = UnifiedResponse {
        id: "test-response".to_string(),
        created: 1234567890,
        model: "test-model".to_string(),
        choices: vec![UnifiedChoice {
            index: 0,
            message: UnifiedMessage {
                role: UnifiedRole::Assistant,
                content: UnifiedContentContainer::Text("I'll help you with that.".to_string()),
                tool_calls: Some(vec![
                    UnifiedToolCall {
                        id: "call_123".to_string(),
                        function: UnifiedFunctionCall {
                            name: "get_weather".to_string(),
                            arguments: UnifiedArguments::String(r#"{"location": "San Francisco"}"#.to_string()),
                        },
                    },
                    UnifiedToolCall {
                        id: "call_456".to_string(),
                        function: UnifiedFunctionCall {
                            name: "search".to_string(),
                            arguments: UnifiedArguments::Value(json(r#"{"query": "restaurants nearby"}"#)),
                        },
                    },
                ]),
                tool_call_id: None,
            },
            finish_reason: Some(UnifiedFinishReason::ToolCalls),
        }],
        usage: UnifiedUsage { prompt_tokens: 10, completion_tokens: 20, total_tokens: 30 },
        stop_reason: Some(UnifiedStopReason::ToolUse),
        stop_sequence: None,
    };
    let resp = AnthropicChatResponse::from_unified(unified_resp);
    assert_eq!(resp.id, "test-response");
    assert_eq!(resp.response_type, "message");
    assert_eq!(resp.role, AnthropicRole::Assistant);
    assert_eq!(resp.content.len(), 3);
    assert_eq!(text_of(&resp.content[0]), "I'll help you with that.");
    let (id, name, input) = tool_use(&resp.content[1]);
    assert_eq!((id, name), ("call_123", "get_weather"));
    assert_eq!(to_json_text(input), r#"{"location":"San Francisco"}"#);
    let (id, name, input) = tool_use(&resp.content[2]);
    assert_eq!((id, name), ("call_456", "search"));
    assert_eq!(to_json_text(input), r#"{"query":"restaurants nearby"}"#);
    assert_eq!(resp.model, "test-model");
    assert_eq!(resp.stop_reason, Some(AnthropicStopReason::ToolUse));
    assert_eq!(resp.stop_sequence, None);
    assert_eq!(resp.usage, AnthropicUsage { input_tokens: 10, output_tokens: 20 });
}

#[test]
fn convert_response_without_tool_calls() {
    let unified_resp = UnifiedResponse {
        id: "test-response".to_string(),
        created: 1234567890,
        model: "test-model".to_string(),
        choices: vec![UnifiedChoice {
            index: 0,
            message: UnifiedMessage {
                role: UnifiedRole::Assistant,
                content: UnifiedContentContainer::Text("Here's a simple response.".to_string()),
                tool_calls: None,
                tool_call_id: None,
            },
            finish_reason: Some(UnifiedFinishReason::Stop),
        }],
        usage: UnifiedUsage { prompt_tokens: 5, completion_tokens: 10, total_tokens: 15 },
        stop_reason: Some(UnifiedStopReason::EndTurn),
        stop_sequence: None,
    };
    let resp = AnthropicChatResponse::from_unified(unified_resp);
    assert_eq!(resp.id, "test-response");
    assert_eq!(resp.content.len(), 1);
    assert_eq!(text_of(&resp.content[0]), "Here's a simple response.");
    assert_eq!(resp.stop_reason, Some(AnthropicStopReason::EndTurn));
    assert_eq!(resp.usage, AnthropicUsage { input_tokens: 5, output_tokens: 10 });
}

#[test]
fn convert_empty_text_with_tool_calls() {
    let unified_resp = UnifiedResponse {
        id: "test-response".to_string(),
        created: 1234567890,
        model: "test-model".to_string(),
        choices: vec![UnifiedChoice {
            index: 0,
            message: UnifiedMessage {
                role: UnifiedRole::Assistant,
                content: UnifiedContentContainer::Text("".to_string()),
                tool_calls: Some(vec![UnifiedToolCall {
                    id: "call_789".to_string(),
                    function: UnifiedFunctionCall {
                        name: "calculate".to_string(),
                        arguments: UnifiedArguments::String(r#"{"expression": "2+2"}"#.to_string()),
                    },
                }]),
                tool_call_id: None,
            },
            finish_reason: Some(UnifiedFinishReason::ToolCalls),
        }],
        usage: UnifiedUsage { prompt_tokens: 8, completion_tokens: 12, total_tokens: 20 },
        stop_reason: Some(UnifiedStopReason::ToolUse),
        stop_sequence: None,
    };
    let resp = AnthropicChatResponse::from_unified(unified_resp);
    assert_eq!(resp.content.len(), 1);
    let (id, name, input) = tool_use(&resp.content[0]);
    assert_eq!((id, name), ("call_789", "calculate"));
    assert_eq!(to_json_text(input), r#"{"expression":"2+2"}"#);
    assert_eq!(resp.stop_reason, Some(AnthropicStopReason::ToolUse));
    assert_eq!(resp.usage, AnthropicUsage { input_tokens: 8, output_tokens: 12 });
}

#[test]
fn no_duplicate_tool_calls_when_both_content_and_tool_calls_present() {
    let unified_message = UnifiedMessage {
        role: UnifiedRole::Assistant,
        content: UnifiedContentContainer::Blocks(vec![
            UnifiedContent::Text { text: "I'll calculate that for you.".to_string() },
            UnifiedContent::ToolUse {
                id: "tool_123".to_string(),
                name: "calculator".to_string(),
                input: json(r#"{"expression": "2+2"}"#),
            },
        ]),
        tool_calls: Some(vec![UnifiedToolCall {
            id: "tool_123".to_string(),
            function: UnifiedFunctionCall {
                name: "calculator".to_string(),
                arguments: UnifiedArguments::Value(json(r#"{"expression": "2+2"}"#)),
            },
        }]),
        tool_call_id: None,
    };
    let anthropic_message = AnthropicMessage::from_unified(unified_message);
    let tool_use_blocks: Vec<_> = anthropic_message
        .content
        .iter()
        .filter_map(|block| match block {
            AnthropicContent::ToolUse { id, name, .. } => Some((id, name)),
            _ => None,
        })
        .collect();
    assert_eq!(tool_use_blocks.len(), 1, "Should only have one tool_use block, not duplicates");
    assert_eq!(tool_use_blocks[0].0, "tool_123");
    assert_eq!(tool_use_blocks[0].1, "calculator");
    assert_eq!(anthropic_message.role, AnthropicRole::Assistant);
    assert_eq!(anthropic_message.content.len(), 2);
    assert_eq!(text_of(&anthropic_message.content[0]), "I'll calculate that for you.");
    assert_eq!(to_json_text(tool_use(&anthropic_message.content[1]).2), r#"{"expression":"2+2"}"#);
}

#[test]
fn tool_result_items_become_unified_content() {
    let one = UnifiedContent::from_anthropic(AnthropicContent::ToolResult {
        tool_use_id: "t1".to_string(),
        content: vec![AnthropicToolResultContent::Error { error: "boom".to_string() }],
    });
    assert!(matches!(
        one,
        UnifiedContent::ToolResult { content: UnifiedToolResultContent::Text(ref t), is_error: None, .. } if t == "boom"
    ));
    let two = UnifiedContent::from_anthropic(AnthropicContent::ToolResult {
        tool_use_id: "t2".to_string(),
        content: vec![
            AnthropicToolResultContent::Text { text: "a".to_string() },
            AnthropicToolResultContent::Error { error: "b".to_string() },
        ],
    });
    match two {
        UnifiedContent::ToolResult { content: UnifiedToolResultContent::Multiple(ts), .. } => {
            assert_eq!(ts, vec!["a".to_string(), "b".to_string()])
        }
        other => panic!("unexpected {other:?}"),
    }
}

#[test]
fn assistant_message_lists_tool_uses_as_calls() {
    let msg = AnthropicMessage {
        role: AnthropicRole::Assistant,
        content: vec![
            AnthropicContent::Text { text: "checking".to_string() },
            AnthropicContent::ToolUse {
                id: "tu_1".to_string(),
                name: "lookup".to_string(),
                input: json(r#"{"q":1}"#),
            },
        ],
    };
    let unified = UnifiedMessage::from_anthropic(msg);
    assert_eq!(unified.role, UnifiedRole::Assistant);
    let calls = unified.tool_calls.as_ref().unwrap();
    assert_eq!(calls.len(), 1);
    assert_eq!(calls[0].id, "tu_1");
    assert_eq!(calls[0].function.name, "lookup");
    let computed = unified.compute_tool_calls().unwrap();
    assert_eq!(computed.len(), 1);
    assert_eq!(computed[0].id, "tu_1");

    let user = UnifiedMessage::from_anthropic(AnthropicMessage {
        role: AnthropicRole::User,
        content: vec![AnthropicContent::ToolUse {
            id: "x".to_string(),
            name: "y".to_string(),
            input: json("{}"),
        }],
    });
    assert!(user.tool_calls.is_none());
}

#[test]
fn response_from_anthropic_drops_tool_results_and_sums_usage() {
    let resp = AnthropicChatResponse {
        id: "msg_1".to_string(),
        response_type: "message".to_string(),
        role: AnthropicRole::Assistant,
        content: vec![
            AnthropicContent::Text { text: "hi".to_string() },
            AnthropicContent::ToolResult { tool_use_id: "z".to_string(), content: vec![] },
            AnthropicContent::ToolUse { id: "t".to_string(), name: "f".to_string(), input: json("{}") },
        ],
        model: "m".to_string(),
        stop_reason: Some(AnthropicStopReason::StopSequence),
        stop_sequence: Some("END".to_string()),
        usage: AnthropicUsage { input_tokens: 7, output_tokens: 5 },
    };
    let u = UnifiedResponse::from_anthropic(resp);
    assert_eq!(u.created, 0);
    assert_eq!(u.usage, UnifiedUsage { prompt_tokens: 7, completion_tokens: 5, total_tokens: 12 });
    assert_eq!(u.stop_reason, Some(UnifiedStopReason::StopSequence));
    assert_eq!(u.choices.len(), 1);
    assert_eq!(u.choices[0].finish_reason, Some(UnifiedFinishReason::Stop));
    match &u.choices[0].message.content {
        UnifiedContentContainer::Blocks(bs) => assert_eq!(bs.len(), 2),
        _ => panic!("expected blocks"),
    }
    assert_eq!(u.choices[0].message.tool_calls.as_ref().unwrap().len(), 1);
}

#[test]
fn stream_events_become_chunks() {
    let start = UnifiedChunk::from_anthropic(AnthropicStreamEvent::MessageStart {
        message: AnthropicStreamMessageStart {
            id: "msg_9".to_string(),
            message_type: "message".to_string(),
            role: AnthropicRole::Assistant,
            content: vec![],
            model: "m1".to_string(),
            usage: AnthropicUsage { input_tokens: 3, output_tokens: 0 },
        },
    });
    assert_eq!(start.id, "msg_9");
    assert_eq!(start.choices[0].delta.role, Some(UnifiedRole::Assistant));
    assert_eq!(start.usage.unwrap().total_tokens, 3);

    let block = UnifiedChunk::from_anthropic(AnthropicStreamEvent::ContentBlockStart {
        index: 2,
        content_block: AnthropicContent::ToolUse {
            id: "tu".to_string(),
            name: "calc".to_string(),
            input: json(r#"{"a": 1}"#),
        },
    });
    match &block.choices[0].delta.tool_calls.as_ref().unwrap()[0] {
        UnifiedStreamingToolCall::Start { index, id, function } => {
            assert_eq!(*index, 2);
            assert_eq!(id, "tu");
            assert_eq!(function.name, "calc");
            assert_eq!(function.arguments, r#"{"a":1}"#);
        }
        other => panic!("unexpected {other:?}"),
    }

    let delta = UnifiedChunk::from_anthropic(AnthropicStreamEvent::ContentBlockDelta {
        index: 4,
        delta: AnthropicContentDelta::InputJsonDelta { partial_json: "{\"x".to_string() },
    });
    match &delta.choices[0].delta.tool_calls.as_ref().unwrap()[0] {
        UnifiedStreamingToolCall::Delta { index, function } => {
            assert_eq!(*index, 4);
            assert_eq!(function.arguments, "{\"x");
        }
        other => panic!("unexpected {other:?}"),
    }

    let ping = UnifiedChunk::from_anthropic(AnthropicStreamEvent::Ping);
    assert!(ping.choices.is_empty());

    let back = AnthropicStreamEvent::from_unified_chunk(delta);
    assert!(matches!(back, AnthropicStreamEvent::ContentBlockDelta { index: 4, .. }));
}
