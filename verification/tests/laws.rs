use llm::json::{parse_json, JsonValue};
use llm::messages::anthropic::{
    AnthropicChatRequest, AnthropicChatResponse, AnthropicContent, AnthropicImageSource,
    AnthropicMessage, AnthropicMetadata, AnthropicRole, AnthropicStopReason, AnthropicTool,
    AnthropicToolChoice, AnthropicToolResultContent, AnthropicUsage,
};
use llm::messages::openai::{
    ChatChoiceDelta, ChatCompletionChunk, ChatMessageDelta, FunctionDelta, FunctionStart, StreamingToolCall,
    ChatChoice, ChatCompletionRequest, ChatCompletionResponse, ChatMessage, ChatRole, FinishReason,
    FunctionCall, FunctionDefinition, JsonSchema, ObjectType, Tool, ToolCall, ToolCallType, ToolChoice,
    ToolChoiceFunction, Usage,
};
use llm::messages::unified::{Real32, UnifiedChunk, UnifiedRequest, UnifiedResponse};
use llm::provider::anthropic::output::{
    AnthropicBlockDelta, AnthropicContentBlock, AnthropicMessageStart, AnthropicStreamEvent,
    AnthropicStreamProcessor, AnthropicUsage as StreamUsage,
};
use llm::provider::google::input::strip_unsupported_schema_fields;

fn json(text: &str) -> JsonValue {
    parse_json(text).unwrap()
}

fn same<T: std::fmt::Debug>(a: &T, b: &T) -> bool {
    format!("{a:?}") == format!("{b:?}")
}

fn schema() -> JsonSchema {
    let mut s = JsonSchema::default();
    s.schema_type = Some("object".to_string());
    s.description = Some("arguments".to_string());
    s.required = Some(vec!["city".to_string()]);
    s
}

fn anthropic_request() -> AnthropicChatRequest {
    AnthropicChatRequest {
        model: "anthropic/sonnet".to_string(),
        messages: vec![
            AnthropicMessage {
                role: AnthropicRole::User,
                content: vec![
                    AnthropicContent::Text { text: "What is in this picture?".to_string() },
                    AnthropicContent::Image {
                        source: AnthropicImageSource {
                            source_type: "base64".to_string(),
                            media_type: "image/png".to_string(),
                            data: "iVBORw0KGgo=".to_string(),
                        },
                    },
                ],
            },
            AnthropicMessage {
                role: AnthropicRole::Assistant,
                content: vec![AnthropicContent::ToolUse {
                    id: "toolu_1".to_string(),
                    name: "weather".to_string(),
                    input: json(r#"{"city": "Paris"}"#),
                }],
            },
            AnthropicMessage {
                role: AnthropicRole::User,
                content: vec![AnthropicContent::ToolResult {
                    tool_use_id: "toolu_1".to_string(),
                    content: vec![
                        AnthropicToolResultContent::Text { text: "sunny".to_string() },
                        AnthropicToolResultContent::Text { text: "21C".to_string() },
                    ],
                }],
            },
        ],
        max_tokens: 1024,
        system: Some("Be brief.".to_string()),
        temperature: Some(Real32 { bits: 0x3f000000 }),
        top_p: None,
        top_k: Some(40),
        stop_sequences: Some(vec!["STOP".to_string()]),
        stream: Some(false),
        metadata: Some(AnthropicMetadata { user_id: Some("u-1".to_string()) }),
        tools: Some(vec![AnthropicTool {
            name: "weather".to_string(),
            description: "Current weather".to_string(),
            input_schema: schema(),
        }]),
        tool_choice: Some(AnthropicToolChoice::Any),
    }
}

#[test]
fn anthropic_request_round_trip() {
    let back = AnthropicChatRequest::from_unified(UnifiedRequest::from_anthropic(anthropic_request()));
    assert!(same(&back, &anthropic_request()), "{back:?}");
}

fn openai_request() -> ChatCompletionRequest {
    ChatCompletionRequest {
        model: "gpt-4o".to_string(),
        messages: vec![
            ChatMessage { role: ChatRole::System, content: Some("You help.".to_string()), tool_calls: None, tool_call_id: None },
            ChatMessage { role: ChatRole::User, content: Some("Weather?".to_string()), tool_calls: None, tool_call_id: None },
            ChatMessage {
                role: ChatRole::Assistant,
                content: None,
                tool_calls: Some(vec![ToolCall {
                    id: "call_1".to_string(),
                    tool_type: ToolCallType::Function,
                    function: FunctionCall { name: "weather".to_string(), arguments: r#"{"city":"Paris"}"#.to_string() },
                }]),
                tool_call_id: None,
            },
            ChatMessage { role: ChatRole::Tool, content: Some("sunny".to_string()), tool_calls: None, tool_call_id: Some("call_1".to_string()) },
        ],
        temperature: Some(Real32 { bits: 0x3f800000 }),
        max_tokens: Some(100),
        top_p: None,
        frequency_penalty: None,
        presence_penalty: Some(Real32 { bits: 0 }),
        stop: None,
        stream: Some(true),
        tools: Some(vec![Tool {
            tool_type: ToolCallType::Function,
            function: FunctionDefinition { name: "weather".to_string(), description: "Current weather".to_string(), parameters: schema() },
        }]),
        tool_choice: Some(ToolChoice::Specific {
            tool_type: ToolCallType::Function,
            function: ToolChoiceFunction { name: "weather".to_string() },
        }),
        parallel_tool_calls: Some(false),
    }
}

#[test]
fn openai_request_round_trip() {
    let back = ChatCompletionRequest::from_unified(UnifiedRequest::from_openai(openai_request()));
    assert!(same(&back, &openai_request()), "{back:?}");
}

fn openai_response() -> ChatCompletionResponse {
    ChatCompletionResponse {
        id: "chatcmpl-1".to_string(),
        object: ObjectType::ChatCompletion,
        created: 1700000000,
        model: "gpt-4o".to_string(),
        choices: vec![
            ChatChoice {
                index: 0,
                message: ChatMessage { role: ChatRole::Assistant, content: Some("Hello".to_string()), tool_calls: None, tool_call_id: None },
                finish_reason: FinishReason::Stop,
            },
            ChatChoice {
                index: 1,
                message: ChatMessage {
                    role: ChatRole::Assistant,
                    content: None,
                    tool_calls: Some(vec![ToolCall {
                        id: "call_2".to_string(),
                        tool_type: ToolCallType::Function,
                        function: FunctionCall { name: "f".to_string(), arguments: "{}".to_string() },
                    }]),
                    tool_call_id: None,
                },
                finish_reason: FinishReason::ToolCalls,
            },
        ],
        usage: Usage { prompt_tokens: 5, completion_tokens: 7, total_tokens: 12 },
    }
}

#[test]
fn openai_response_round_trip() {
    let back = ChatCompletionResponse::from_unified(UnifiedResponse::from_openai(openai_response()));
    assert!(same(&back, &openai_response()), "{back:?}");
}

fn anthropic_response() -> AnthropicChatResponse {
    AnthropicChatResponse {
        id: "msg_1".to_string(),
        response_type: "message".to_string(),
        role: AnthropicRole::Assistant,
        content: vec![
            AnthropicContent::Text { text: "Here it is".to_string() },
            AnthropicContent::Image {
                source: AnthropicImageSource {
                    source_type: "base64".to_string(),
                    media_type: "image/gif".to_string(),
                    data: "R0lGOD".to_string(),
                },
            },
        ],
        model: "anthropic/sonnet".to_string(),
        stop_reason: Some(AnthropicStopReason::MaxTokens),
        stop_sequence: None,
        usage: AnthropicUsage { input_tokens: 11, output_tokens: 22 },
    }
}

#[test]
fn anthropic_response_round_trip() {
    let back = AnthropicChatResponse::from_unified(UnifiedResponse::from_anthropic(anthropic_response()));
    assert!(same(&back, &anthropic_response()), "{back:?}");
}

fn anthropic_tool_response() -> AnthropicChatResponse {
    let mut r = anthropic_response();
    r.content = vec![
        AnthropicContent::Text { text: "Checking.".to_string() },
        AnthropicContent::ToolUse { id: "toolu_1".to_string(), name: "weather".to_string(), input: json(r#"{"city": "Paris"}"#) },
        AnthropicContent::ToolUse { id: "toolu_2".to_string(), name: "time".to_string(), input: json("{}") },
    ];
    r.stop_reason = Some(AnthropicStopReason::ToolUse);
    r
}

#[test]
fn anthropic_response_with_tool_use_round_trip() {
    let back = AnthropicChatResponse::from_unified(UnifiedResponse::from_anthropic(anthropic_tool_response()));
    assert_eq!(back.content.len(), 3);
    assert!(same(&back, &anthropic_tool_response()), "{back:?}");
}

#[test]
fn strip_schema_is_idempotent() {
    let mut inner = JsonSchema::default();
    inner.schema_type = Some("string".to_string());
    inner.format = Some("uri".to_string());
    inner.default = Some(json(r#""x""#));
    let mut s = schema();
    s.additional_properties = Some(false);
    s.schema = Some("http://json-schema.org/draft-07/schema#".to_string());
    s.properties = Some(vec![("link".to_string(), inner)]);
    let once = strip_unsupported_schema_fields(s);
    let text = format!("{once:?}");
    let twice = strip_unsupported_schema_fields(once);
    assert_eq!(format!("{twice:?}"), text);
    assert!(twice.additional_properties.is_none());
    assert!(twice.schema.is_none());
    let (_, link) = &twice.properties.as_ref().unwrap()[0];
    assert!(link.format.is_none());
    assert!(link.default.is_none());
}

#[test]
fn stream_deltas_arrive_in_order() {
    let mut p = AnthropicStreamProcessor::new("anthropic".to_string());
    let start = p.process_event(AnthropicStreamEvent::MessageStart {
        message: AnthropicMessageStart {
            id: "msg_1".to_string(),
            model: "sonnet".to_string(),
            role: "assistant".to_string(),
            content: vec![],
            stop_reason: None,
            stop_sequence: None,
            usage: StreamUsage { input_tokens: 3, output_tokens: 0 },
        },
    });
    let start = start.unwrap();
    assert_eq!(start.model, "anthropic/sonnet");
    assert_eq!(start.id, "msg_1");
    let tool = p
        .process_event(AnthropicStreamEvent::ContentBlockStart {
            index: 1,
            content_block: AnthropicContentBlock::ToolUse { id: "toolu_9".to_string(), name: "f".to_string() },
        })
        .unwrap();
    assert_eq!(tool.choices.len(), 1);
    let mut pieces = Vec::new();
    for piece in ["{\"a\"", ": 1", "}"] {
        let chunk = p
            .process_event(AnthropicStreamEvent::ContentBlockDelta {
                index: 1,
                delta: AnthropicBlockDelta::InputJsonDelta { partial_json: piece.to_string() },
            })
            .unwrap();
        let calls = chunk.choices[0].delta.tool_calls.as_ref().unwrap();
        match &calls[0] {
            llm::messages::unified::UnifiedStreamingToolCall::Delta { function, .. } => {
                pieces.push(function.arguments.clone())
            }
            other => panic!("unexpected {other:?}"),
        }
    }
    assert_eq!(pieces.concat(), "{\"a\": 1}");
    let ignored = p.process_event(AnthropicStreamEvent::ContentBlockDelta {
        index: 7,
        delta: AnthropicBlockDelta::InputJsonDelta { partial_json: "x".to_string() },
    });
    assert!(ignored.is_none());
    let text = p
        .process_event(AnthropicStreamEvent::ContentBlockDelta {
            index: 0,
            delta: AnthropicBlockDelta::TextDelta { text: "Hi".to_string() },
        })
        .unwrap();
    assert_eq!(text.choices[0].delta.content.as_deref(), Some("Hi"));
}

fn openai_chunk() -> ChatCompletionChunk {
    ChatCompletionChunk {
        id: "chatcmpl-2".to_string(),
        object: ObjectType::ChatCompletionChunk,
        created: 1700000001,
        model: "gpt-4o".to_string(),
        system_fingerprint: None,
        choices: vec![ChatChoiceDelta {
            index: 0,
            logprobs: None,
            delta: ChatMessageDelta {
                role: Some(ChatRole::Assistant),
                content: Some("partial".to_string()),
                function_call: None,
                tool_calls: Some(vec![
                    StreamingToolCall::Start {
                        index: 0,
                        id: "call_9".to_string(),
                        tool_type: ToolCallType::Function,
                        function: FunctionStart { name: "f".to_string(), arguments: "".to_string() },
                    },
                    StreamingToolCall::Delta { index: 0, function: FunctionDelta { arguments: "{}".to_string() } },
                ]),
            },
            finish_reason: Some(FinishReason::Length),
        }],
        usage: Some(Usage { prompt_tokens: 1, completion_tokens: 2, total_tokens: 3 }),
    }
}

#[test]
fn openai_chunk_round_trip() {
    let back = ChatCompletionChunk::from_unified(UnifiedChunk::from_openai(openai_chunk()));
    assert!(same(&back, &openai_chunk()), "{back:?}");
}

#[test]
fn anthropic_response_lists_tool_uses_as_calls() {
    let u = UnifiedResponse::from_anthropic(anthropic_tool_response());
    assert_eq!(u.choices.len(), 1);
    assert_eq!(u.created, 0);
    let calls = u.choices[0].message.tool_calls.as_ref().unwrap();
    assert_eq!(calls.len(), 2);
    assert_eq!(calls[0].id, "toolu_1");
    assert_eq!(calls[1].id, "toolu_2");
    let plain = UnifiedResponse::from_anthropic(anthropic_response());
    assert!(plain.choices[0].message.tool_calls.is_none());
}
