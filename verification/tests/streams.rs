use llm::messages::unified::{UnifiedChunk, UnifiedStreamingToolCall};
use llm::provider::anthropic::output::{
    AnthropicBlockDelta, AnthropicContentBlock, AnthropicMessageStart, AnthropicStreamEvent,
    AnthropicStreamProcessor, AnthropicUsage,
};
use llm::provider::bedrock::output::{BlockDelta, ConverseStream, ConverseStreamEvent};

fn message_start(id: &str, model: &str) -> AnthropicStreamEvent {
    AnthropicStreamEvent::MessageStart {
        message: AnthropicMessageStart {
            id: id.to_string(),
            model: model.to_string(),
            role: "assistant".to_string(),
            content: vec![],
            stop_reason: None,
            stop_sequence: None,
            usage: AnthropicUsage { input_tokens: 1, output_tokens: 0 },
        },
    }
}

fn tool_start(index: u32, id: &str, name: &str) -> AnthropicStreamEvent {
    AnthropicStreamEvent::ContentBlockStart {
        index,
        content_block: AnthropicContentBlock::ToolUse { id: id.to_string(), name: name.to_string() },
    }
}

fn json_delta(index: u32, partial: &str) -> AnthropicStreamEvent {
    AnthropicStreamEvent::ContentBlockDelta {
        index,
        delta: AnthropicBlockDelta::InputJsonDelta { partial_json: partial.to_string() },
    }
}

fn call_of(chunk: &UnifiedChunk) -> &UnifiedStreamingToolCall {
    &chunk.choices[0].delta.tool_calls.as_ref().unwrap()[0]
}

fn start_index(chunk: &UnifiedChunk) -> usize {
    match call_of(chunk) {
        UnifiedStreamingToolCall::Start { index, .. } => *index,
        other => panic!("expected a start, got {other:?}"),
    }
}

#[test]
fn stream_tool_calls_get_distinct_indices() {
    let mut p = AnthropicStreamProcessor::new("anthropic".to_string());
    p.process_event(message_start("msg_1", "sonnet")).unwrap();
    let first = p.process_event(tool_start(1, "toolu_1", "a")).unwrap();
    let second = p.process_event(tool_start(2, "toolu_2", "b")).unwrap();
    let i1 = start_index(&first);
    let i2 = start_index(&second);
    assert_eq!(i1, 0);
    assert_eq!(i2, 1);
    let delta = p.process_event(json_delta(2, "{}")).unwrap();
    match call_of(&delta) {
        UnifiedStreamingToolCall::Delta { index, function } => {
            assert_eq!(*index, i2);
            assert_eq!(function.arguments, "{}");
        }
        other => panic!("expected a delta, got {other:?}"),
    }
    let delta = p.process_event(json_delta(1, "{\"x\":1}")).unwrap();
    match call_of(&delta) {
        UnifiedStreamingToolCall::Delta { index, .. } => assert_eq!(*index, i1),
        other => panic!("expected a delta, got {other:?}"),
    }
}

#[test]
fn stream_tool_call_restarted_keeps_its_index() {
    let mut p = AnthropicStreamProcessor::new_at("anthropic".to_string(), 7);
    p.process_event(tool_start(4, "toolu_1", "a")).unwrap();
    p.process_event(tool_start(9, "toolu_2", "b")).unwrap();
    let again = p.process_event(tool_start(4, "toolu_3", "c")).unwrap();
    assert_eq!(start_index(&again), 0);
}

#[test]
fn stream_processor_new_at_stamps_every_chunk() {
    let mut p = AnthropicStreamProcessor::new_at("anthropic".to_string(), 1700000123);
    let text = p
        .process_event(AnthropicStreamEvent::ContentBlockDelta {
            index: 0,
            delta: AnthropicBlockDelta::TextDelta { text: "early".to_string() },
        })
        .unwrap();
    assert_eq!(text.id, "");
    assert_eq!(text.model, "");
    assert_eq!(text.created, 1700000123);
    let start = p.process_event(message_start("msg_7", "haiku")).unwrap();
    assert_eq!(start.id, "msg_7");
    assert_eq!(start.model, "anthropic/haiku");
    assert_eq!(start.created, 1700000123);
    assert_eq!(start.choices.len(), 1);
    assert_eq!(start.choices[0].index, 0);
    assert!(p.process_event(json_delta(3, "{}")).is_none());
}

#[test]
fn converse_stream_chunks_share_id_and_time() {
    let stream = ConverseStream { id: "bedrock-1234".to_string(), created: 42 };
    let a = stream.chunk(ConverseStreamEvent::MessageStart).unwrap();
    let b = stream
        .chunk(ConverseStreamEvent::ContentBlockDelta { delta: Some(BlockDelta::Text("hi".to_string())) })
        .unwrap();
    assert_eq!(a.id, "bedrock-1234");
    assert_eq!(b.id, "bedrock-1234");
    assert_eq!(a.created, 42);
    assert_eq!(b.created, 42);
    assert_eq!(a.model, b.model);
    assert!(stream.chunk(ConverseStreamEvent::ContentBlockStop).is_none());
}

#[test]
fn converse_stream_new_draws_a_bedrock_id() {
    let stream = ConverseStream::new();
    assert!(stream.id.starts_with("bedrock-"));
    assert_eq!(stream.id.len(), 44);
    let a = stream.chunk(ConverseStreamEvent::MessageStart).unwrap();
    let b = stream.chunk(ConverseStreamEvent::MessageStart).unwrap();
    assert_eq!(a.id, stream.id);
    assert_eq!(b.id, stream.id);
}
