//! Decoding of Anthropic responses: complete messages and streamed events.
use vstd::prelude::*;
use vstd::string::StringExecFns;

use std::collections::HashMap;

use crate::json::{Json, JsonValue, serde_json_text, to_json_text};
use crate::messages::from_openai::chunk_from_openai;
use crate::messages::openai::{
    ChatChoice, ChatChoiceModel, ChatCompletionResponse, ChatMessage, ChatMessageModel,
    ChatResponseModel, FunctionCall, ToolCall, ToolCallInfo, ChatChoiceDelta, ChatChoiceDeltaModel, ChatChunkModel, ChatCompletionChunk, ChatDeltaModel,
    ChatMessageDelta, ChatRole, ChatRoleModel, FinishReason, FinishReasonModel, ObjectType,
    StreamingCallModel, StreamingToolCall, ToolCallType, FunctionStart, FunctionDelta, Usage,
};
use crate::messages::unified::{
    ChoiceModel, ChunkModel, ContainerModel, ContentModel, MessageModel, ResponseModel,
    UnifiedChoice, UnifiedChunk, UnifiedContent, UnifiedContentContainer, UnifiedFinishReason,
    UnifiedMessage, UnifiedResponse, UnifiedRole, UnifiedUsage,
};
use crate::sys::{str_debug, str_debug_text, unix_time_secs, uuid_v4_text};
use crate::seqs::{filter_map, join, join_strings, lemma_filter_map_step};
use crate::text::{concat2, concat3, str_eq};

verus! {

broadcast use vstd::std_specs::vec::group_vec_axioms, vstd::std_specs::hash::group_hash_axioms;

/// The `type` of a response content block.
#[derive(Debug)]
pub enum ContentType {
    Text,
    ToolUse,
    ToolResult,
    Image,
    Other(String),
}

pub enum ContentTypeModel {
    Text,
    ToolUse,
    ToolResult,
    Image,
    Other(Seq<char>),
}

impl DeepView for ContentType {
    type V = ContentTypeModel;

    open spec fn deep_view(&self) -> ContentTypeModel {
        match self {
            ContentType::Text => ContentTypeModel::Text,
            ContentType::ToolUse => ContentTypeModel::ToolUse,
            ContentType::ToolResult => ContentTypeModel::ToolResult,
            ContentType::Image => ContentTypeModel::Image,
            ContentType::Other(s) => ContentTypeModel::Other(s@),
        }
    }
}

/// Why a response stopped; reasons the library does not know are kept.
#[derive(Debug)]
pub enum StopReason {
    EndTurn,
    MaxTokens,
    StopSequence,
    ToolUse,
    PauseTurn,
    Refusal,
    Other(String),
}

pub enum StopReasonModel {
    EndTurn,
    MaxTokens,
    StopSequence,
    ToolUse,
    PauseTurn,
    Refusal,
    Other(Seq<char>),
}

impl DeepView for StopReason {
    type V = StopReasonModel;

    open spec fn deep_view(&self) -> StopReasonModel {
        match self {
            StopReason::EndTurn => StopReasonModel::EndTurn,
            StopReason::MaxTokens => StopReasonModel::MaxTokens,
            StopReason::StopSequence => StopReasonModel::StopSequence,
            StopReason::ToolUse => StopReasonModel::ToolUse,
            StopReason::PauseTurn => StopReasonModel::PauseTurn,
            StopReason::Refusal => StopReasonModel::Refusal,
            StopReason::Other(s) => StopReasonModel::Other(s@),
        }
    }
}

/// The `type` of a response.
#[derive(Debug)]
pub enum ResponseType {
    Message,
    Other(String),
}

/// Token counts; a missing input count reads as 0.
#[derive(Debug, Clone, Copy, PartialEq, Eq, Structural)]
pub struct AnthropicUsage {
    pub input_tokens: i32,
    pub output_tokens: i32,
}

/// A response content block, every field but the type optional.
#[derive(Debug)]
pub struct AnthropicContent {
    pub content_type: ContentType,
    pub text: Option<String>,
    pub id: Option<String>,
    pub name: Option<String>,
    pub input: Option<JsonValue>,
}

pub struct ContentModelP {
    pub content_type: ContentTypeModel,
    pub text: Option<Seq<char>>,
    pub id: Option<Seq<char>>,
    pub name: Option<Seq<char>>,
    pub input: Option<Json>,
}

impl DeepView for AnthropicContent {
    type V = ContentModelP;

    open spec fn deep_view(&self) -> ContentModelP {
        ContentModelP {
            content_type: self.content_type.deep_view(),
            text: self.text.deep_view(),
            id: self.id.deep_view(),
            name: self.name.deep_view(),
            input: self.input.deep_view(),
        }
    }
}

/// A complete Messages API response as the provider decodes it.
#[derive(Debug)]
pub struct AnthropicResponse {
    pub id: String,
    pub response_type: ResponseType,
    pub role: ChatRole,
    pub content: Vec<AnthropicContent>,
    pub model: String,
    pub stop_reason: Option<StopReason>,
    pub stop_sequence: Option<String>,
    pub usage: AnthropicUsage,
}

pub struct ProviderResponseModel {
    pub id: Seq<char>,
    pub role: ChatRoleModel,
    pub content: Seq<ContentModelP>,
    pub stop_reason: Option<StopReasonModel>,
    pub usage: AnthropicUsage,
}

impl DeepView for AnthropicResponse {
    type V = ProviderResponseModel;

    open spec fn deep_view(&self) -> ProviderResponseModel {
        ProviderResponseModel {
            id: self.id@,
            role: self.role.deep_view(),
            content: self.content.deep_view(),
            stop_reason: self.stop_reason.deep_view(),
            usage: self.usage,
        }
    }
}

/// Whether the two counts add up within `i32`.
pub open spec fn usage_sum_fits(u: AnthropicUsage) -> bool {
    i32::MIN <= u.input_tokens + u.output_tokens <= i32::MAX
}

/// Usage as OpenAI counts it: each count and their `i32` sum, cast to `u32`.
pub open spec fn usage_counts(u: AnthropicUsage) -> Usage {
    Usage {
        prompt_tokens: u.input_tokens as u32,
        completion_tokens: u.output_tokens as u32,
        total_tokens: ((u.input_tokens + u.output_tokens) as i32) as u32,
    }
}

fn usage_of(u: AnthropicUsage) -> (r: Usage)
    requires
        usage_sum_fits(u),
    ensures
        r == usage_counts(u),
{
    let total = u.input_tokens + u.output_tokens;
    Usage { prompt_tokens: u.input_tokens as u32, completion_tokens: u.output_tokens as u32, total_tokens: total as u32 }
}

/// A stop reason as an OpenAI finish reason: a pause is `pause`, a refusal a
/// content filter; unknown reasons are kept.
pub open spec fn finish_of_stop(r: StopReasonModel) -> FinishReasonModel {
    match r {
        StopReasonModel::EndTurn => FinishReasonModel::Stop,
        StopReasonModel::MaxTokens => FinishReasonModel::Length,
        StopReasonModel::StopSequence => FinishReasonModel::Stop,
        StopReasonModel::ToolUse => FinishReasonModel::ToolCalls,
        StopReasonModel::PauseTurn => FinishReasonModel::Other("pause"@),
        StopReasonModel::Refusal => FinishReasonModel::ContentFilter,
        StopReasonModel::Other(s) => FinishReasonModel::Other(s),
    }
}

impl FinishReason {
    pub fn from_stop_reason(r: StopReason) -> (f: FinishReason)
        ensures
            f.deep_view() == finish_of_stop(r.deep_view()),
    {
        match r {
            StopReason::EndTurn => FinishReason::Stop,
            StopReason::MaxTokens => FinishReason::Length,
            StopReason::StopSequence => FinishReason::Stop,
            StopReason::ToolUse => FinishReason::ToolCalls,
            StopReason::PauseTurn => FinishReason::Other(String::from_str("pause")),
            StopReason::Refusal => FinishReason::ContentFilter,
            StopReason::Other(s) => FinishReason::Other(s),
        }
    }
}

/// The `Debug` text of a content type the unified form does not carry.
pub open spec fn content_type_debug(t: ContentTypeModel) -> Seq<char> {
    match t {
        ContentTypeModel::Text => "Text"@,
        ContentTypeModel::ToolUse => "ToolUse"@,
        ContentTypeModel::ToolResult => "ToolResult"@,
        ContentTypeModel::Image => "Image"@,
        ContentTypeModel::Other(s) => "Other("@ + str_debug_text(s) + ")"@,
    }
}

pub open spec fn text_or_empty(o: Option<Seq<char>>) -> Seq<char> {
    match o {
        Some(s) => s,
        None => Seq::empty(),
    }
}

/// A response block in unified form: text and tool use keep their fields
/// (missing ones empty, a missing input null); other types become a text
/// naming the type.
pub open spec fn unified_block(c: ContentModelP) -> ContentModel {
    match c.content_type {
        ContentTypeModel::Text => ContentModel::Text { text: text_or_empty(c.text) },
        ContentTypeModel::ToolUse => ContentModel::ToolUse {
            id: text_or_empty(c.id),
            name: text_or_empty(c.name),
            input: match c.input {
                Some(v) => v,
                None => Json::Null,
            },
        },
        _ => ContentModel::Text {
            text: "[Unsupported content type: "@ + content_type_debug(c.content_type) + "]"@,
        },
    }
}

pub open spec fn unified_finish_of_stop(r: StopReasonModel) -> UnifiedFinishReason {
    match r {
        StopReasonModel::MaxTokens => UnifiedFinishReason::Length,
        StopReasonModel::ToolUse => UnifiedFinishReason::ToolCalls,
        StopReasonModel::Refusal => UnifiedFinishReason::ContentFilter,
        _ => UnifiedFinishReason::Stop,
    }
}

/// A provider response in unified form, with the model `anthropic-model`
/// and creation time 0; tool calls are left to be computed from the blocks.
pub open spec fn unified_of_response(r: ProviderResponseModel) -> ResponseModel {
    let u = usage_counts(r.usage);
    ResponseModel {
        id: r.id,
        model: "anthropic-model"@,
        choices: seq![
            ChoiceModel {
                index: 0,
                message: MessageModel {
                    role: UnifiedRole::Assistant,
                    content: ContainerModel::Blocks(
                        r.content.map_values(|c: ContentModelP| unified_block(c)),
                    ),
                    tool_calls: None,
                    tool_call_id: None,
                },
                finish_reason: match r.stop_reason {
                    Some(s) => Some(unified_finish_of_stop(s)),
                    None => None,
                },
            },
        ],
        usage: UnifiedUsage {
            prompt_tokens: u.prompt_tokens,
            completion_tokens: u.completion_tokens,
            total_tokens: u.total_tokens,
        },
        created: 0,
        stop_reason: None,
        stop_sequence: None,
    }
}

fn content_type_text(t: &ContentType) -> (r: String)
    ensures
        r@ == content_type_debug(t.deep_view()),
{
    match t {
        ContentType::Text => String::from_str("Text"),
        ContentType::ToolUse => String::from_str("ToolUse"),
        ContentType::ToolResult => String::from_str("ToolResult"),
        ContentType::Image => String::from_str("Image"),
        ContentType::Other(s) => concat3("Other(", str_debug(s.as_str()).as_str(), ")"),
    }
}

fn string_or_empty(o: Option<String>) -> (r: String)
    ensures
        r@ == text_or_empty(o.deep_view()),
{
    match o {
        Some(s) => s,
        None => String::new(),
    }
}

fn unified_block_of(c: AnthropicContent) -> (r: UnifiedContent)
    ensures
        r.deep_view() == unified_block(c.deep_view()),
{
    match c.content_type {
        ContentType::Text => UnifiedContent::Text { text: string_or_empty(c.text) },
        ContentType::ToolUse => UnifiedContent::ToolUse {
            id: string_or_empty(c.id),
            name: string_or_empty(c.name),
            input: match c.input {
                Some(v) => v,
                None => JsonValue::Null,
            },
        },
        other => {
            let t = content_type_text(&other);
            UnifiedContent::Text { text: concat3("[Unsupported content type: ", t.as_str(), "]") }
        },
    }
}

impl UnifiedResponse {
    /// The unified form of a provider-decoded response.
    pub fn from_provider_response(response: AnthropicResponse) -> (r: UnifiedResponse)
        requires
            usage_sum_fits(response.usage),
        ensures
            r.deep_view() == unified_of_response(response.deep_view()),
    {
        let ghost q = response.deep_view();
        let ghost c0 = response.content;
        let mut blocks: Vec<UnifiedContent> = Vec::new();
        for c in it: response.content.into_iter()
            invariant
                it.seq() == c0@,
                blocks@.len() == it.index(),
                forall|j: int| 0 <= j < it.index() ==> blocks@[j].deep_view() == unified_block(c0@[j].deep_view()),
        {
            blocks.push(unified_block_of(c));
        }
        assert(blocks.deep_view() =~= q.content.map_values(|c: ContentModelP| unified_block(c)));
        let finish_reason = match response.stop_reason {
            Some(StopReason::MaxTokens) => Some(UnifiedFinishReason::Length),
            Some(StopReason::ToolUse) => Some(UnifiedFinishReason::ToolCalls),
            Some(StopReason::Refusal) => Some(UnifiedFinishReason::ContentFilter),
            Some(_) => Some(UnifiedFinishReason::Stop),
            None => None,
        };
        let u = usage_of(response.usage);
        let message = UnifiedMessage {
            role: UnifiedRole::Assistant,
            content: UnifiedContentContainer::Blocks(blocks),
            tool_calls: None,
            tool_call_id: None,
        };
        let mut choices: Vec<UnifiedChoice> = Vec::new();
        choices.push(UnifiedChoice { index: 0, message, finish_reason });
        let r = UnifiedResponse {
            id: response.id,
            model: String::from_str("anthropic-model"),
            choices,
            usage: UnifiedUsage {
                prompt_tokens: u.prompt_tokens,
                completion_tokens: u.completion_tokens,
                total_tokens: u.total_tokens,
            },
            created: 0,
            stop_reason: None,
            stop_sequence: None,
        };
        assert(r.deep_view().choices =~= unified_of_response(q).choices);
        r
    }
}

/// The `message` of a `message_start` event.
#[derive(Debug)]
pub struct AnthropicMessageStart {
    pub id: String,
    pub model: String,
    pub role: String,
    pub content: Vec<JsonValue>,
    pub stop_reason: Option<String>,
    pub stop_sequence: Option<String>,
    pub usage: AnthropicUsage,
}

/// The block a `content_block_start` event opens.
#[derive(Debug)]
pub enum AnthropicContentBlock {
    Text { text: String },
    ToolUse { id: String, name: String },
}

/// New content of a block.
#[derive(Debug)]
pub enum AnthropicBlockDelta {
    TextDelta { text: String },
    InputJsonDelta { partial_json: String },
}

/// The top-level changes a `message_delta` event carries.
#[derive(Debug)]
pub struct AnthropicMessageDeltaData {
    pub stop_reason: Option<String>,
    pub stop_sequence: Option<String>,
}

/// An error reported inside the stream.
#[derive(Debug)]
pub struct AnthropicStreamError {
    pub error_type: String,
    pub message: String,
}

/// A streamed event as the provider decodes it.
#[derive(Debug)]
pub enum AnthropicStreamEvent {
    MessageStart { message: AnthropicMessageStart },
    ContentBlockStart { index: u32, content_block: AnthropicContentBlock },
    ContentBlockDelta { index: u32, delta: AnthropicBlockDelta },
    ContentBlockStop { index: u32 },
    MessageDelta { delta: AnthropicMessageDeltaData, usage: AnthropicUsage },
    MessageStop,
    Ping,
    Error { error: AnthropicStreamError },
}

pub enum EventModel {
    MessageStart { id: Seq<char>, model: Seq<char>, usage: AnthropicUsage },
    TextBlockStart { index: u32 },
    ToolBlockStart { index: u32, id: Seq<char>, name: Seq<char> },
    TextDelta { index: u32, text: Seq<char> },
    JsonDelta { index: u32, partial_json: Seq<char> },
    MessageDelta { stop_reason: Option<Seq<char>>, usage: AnthropicUsage },
    /// Block stop, message stop, ping and error events.
    Ignored,
}

impl DeepView for AnthropicStreamEvent {
    type V = EventModel;

    open spec fn deep_view(&self) -> EventModel {
        match self {
            AnthropicStreamEvent::MessageStart { message } => EventModel::MessageStart {
                id: message.id@,
                model: message.model@,
                usage: message.usage,
            },
            AnthropicStreamEvent::ContentBlockStart { index, content_block } => match content_block {
                AnthropicContentBlock::Text { .. } => EventModel::TextBlockStart { index: *index },
                AnthropicContentBlock::ToolUse { id, name } => EventModel::ToolBlockStart {
                    index: *index,
                    id: id@,
                    name: name@,
                },
            },
            AnthropicStreamEvent::ContentBlockDelta { index, delta } => match delta {
                AnthropicBlockDelta::TextDelta { text } => EventModel::TextDelta {
                    index: *index,
                    text: text@,
                },
                AnthropicBlockDelta::InputJsonDelta { partial_json } => EventModel::JsonDelta {
                    index: *index,
                    partial_json: partial_json@,
                },
            },
            AnthropicStreamEvent::MessageDelta { delta, usage } => EventModel::MessageDelta {
                stop_reason: delta.stop_reason.deep_view(),
                usage: *usage,
            },
            _ => EventModel::Ignored,
        }
    }
}

/// A tool call being assembled from a stream.
#[derive(Debug)]
struct ToolCallBuilder {
    id: Option<String>,
    name: Option<String>,
    arguments: String,
    /// The call's index among the stream's tool calls.
    position: usize,
}

/// What a tool call being assembled holds so far.
pub struct BuilderModel {
    pub id: Option<Seq<char>>,
    pub name: Option<Seq<char>>,
    pub arguments: Seq<char>,
    /// The call's index among the stream's tool calls, which its chunks carry.
    pub position: usize,
}

/// Turns Anthropic stream events into unified chunks, remembering the
/// message id, the model, the text so far and the tool calls being assembled.
pub struct AnthropicStreamProcessor {
    provider_name: String,
    message_id: Option<String>,
    model: Option<String>,
    current_text: String,
    usage: Option<AnthropicUsage>,
    created: u64,
    current_tool_calls: HashMap<u32, ToolCallBuilder>,
}

/// The state of a stream processor.
pub struct ProcessorState {
    pub provider_name: Seq<char>,
    pub message_id: Option<Seq<char>>,
    pub model: Option<Seq<char>>,
    pub current_text: Seq<char>,
    pub usage: Option<AnthropicUsage>,
    pub created: u64,
    pub tool_calls: Map<u32, BuilderModel>,
}

spec fn builder_view(b: ToolCallBuilder) -> BuilderModel {
    BuilderModel { id: b.id.deep_view(), name: b.name.deep_view(), arguments: b.arguments@, position: b.position }
}

impl View for AnthropicStreamProcessor {
    type V = ProcessorState;

    closed spec fn view(&self) -> ProcessorState {
        ProcessorState {
            provider_name: self.provider_name@,
            message_id: self.message_id.deep_view(),
            model: self.model.deep_view(),
            current_text: self.current_text@,
            usage: self.usage,
            created: self.created,
            tool_calls: self.current_tool_calls@.map_values(|b: ToolCallBuilder| builder_view(b)),
        }
    }
}

/// The unified chunk for one choice delta in the processor's current state:
/// the OpenAI chunk the provider builds, in unified form.
pub open spec fn processor_chunk(
    s: ProcessorState,
    delta: ChatDeltaModel,
    finish: Option<FinishReasonModel>,
    usage: Option<Usage>,
) -> ChunkModel {
    chunk_from_openai(
        ChatChunkModel {
            id: text_or_empty(s.message_id),
            object: ObjectType::ChatCompletionChunk,
            created: s.created,
            model: text_or_empty(s.model),
            system_fingerprint: None,
            choices: seq![
                ChatChoiceDeltaModel { index: 0, logprobs: None, delta, finish_reason: finish },
            ],
            usage,
        },
    )
}

pub open spec fn plain_delta(
    role: Option<ChatRoleModel>,
    content: Option<Seq<char>>,
    tool_calls: Option<Seq<StreamingCallModel>>,
) -> ChatDeltaModel {
    ChatDeltaModel { role, content, function_call: None, tool_calls }
}

/// The finish reason a `message_delta` stop reason names.
pub open spec fn finish_of_stop_text(r: Seq<char>) -> FinishReasonModel {
    if r == "end_turn"@ {
        FinishReasonModel::Stop
    } else if r == "max_tokens"@ {
        FinishReasonModel::Length
    } else if r == "stop_sequence"@ {
        FinishReasonModel::Stop
    } else if r == "tool_use"@ {
        FinishReasonModel::ToolCalls
    } else {
        FinishReasonModel::Other(r)
    }
}

/// Whether the processor can take an event: the usage it carries adds up
/// within `i32`.
pub open spec fn event_fits(e: EventModel) -> bool {
    match e {
        EventModel::MessageDelta { usage, .. } => usage_sum_fits(usage),
        _ => true,
    }
}

/// The state of a new processor: no message, text, usage or tool call yet.
pub open spec fn initial_state(provider_name: Seq<char>, created: u64) -> ProcessorState {
    ProcessorState {
        provider_name,
        message_id: None,
        model: None,
        current_text: Seq::empty(),
        usage: None,
        created,
        tool_calls: Map::empty(),
    }
}

/// The index among the stream's tool calls of a call started at block
/// `index`: the one it already has when the block was started before, else
/// the number of calls started so far.
pub open spec fn start_position(s: ProcessorState, index: u32) -> usize {
    if s.tool_calls.contains_key(index) {
        s.tool_calls[index].position
    } else {
        s.tool_calls.len() as usize
    }
}

/// One step of the stream processor: its next state and the chunk it emits.
///
/// A message start records the id, `provider/model` and the usage and emits
/// the assistant role; a tool block start records the call and emits its
/// start at the call's index among the stream's tool calls; a text delta extends the text and emits it; a
/// JSON delta extends a known call's arguments and emits them at that
/// call's index, and is
/// dropped for an unknown block; a message delta records the usage and
/// emits the finish reason with the counts. Everything else emits nothing.
pub open spec fn process_step(s: ProcessorState, e: EventModel) -> (ProcessorState, Option<ChunkModel>) {
    match e {
        EventModel::MessageStart { id, model, usage } => {
            let s2 = ProcessorState {
                message_id: Some(id),
                model: Some(s.provider_name + "/"@ + model),
                usage: Some(usage),
                ..s
            };
            (
                s2,
                Some(
                    processor_chunk(s2, plain_delta(Some(ChatRoleModel::Assistant), None, None), None, None),
                ),
            )
        },
        EventModel::ToolBlockStart { index, id, name } => {
            let pos = start_position(s, index);
            let s2 = ProcessorState {
                tool_calls: s.tool_calls.insert(
                    index,
                    BuilderModel { id: Some(id), name: Some(name), arguments: Seq::empty(), position: pos },
                ),
                ..s
            };
            (
                s2,
                Some(
                    processor_chunk(
                        s2,
                        plain_delta(
                            None,
                            None,
                            Some(
                                seq![
                                    StreamingCallModel::Start { index: pos, id, name, arguments: Seq::empty() },
                                ],
                            ),
                        ),
                        None,
                        None,
                    ),
                ),
            )
        },
        EventModel::TextDelta { text, .. } => {
            let s2 = ProcessorState { current_text: s.current_text + text, ..s };
            (s2, Some(processor_chunk(s2, plain_delta(None, Some(text), None), None, None)))
        },
        EventModel::JsonDelta { index, partial_json } => {
            if s.tool_calls.contains_key(index) {
                let b = s.tool_calls[index];
                let s2 = ProcessorState {
                    tool_calls: s.tool_calls.insert(
                        index,
                        BuilderModel { arguments: b.arguments + partial_json, ..b },
                    ),
                    ..s
                };
                (
                    s2,
                    Some(
                        processor_chunk(
                            s2,
                            plain_delta(
                                None,
                                None,
                                Some(seq![StreamingCallModel::Delta { index: b.position, arguments: partial_json }]),
                            ),
                            None,
                            None,
                        ),
                    ),
                )
            } else {
                (s, None)
            }
        },
        EventModel::MessageDelta { stop_reason, usage } => {
            let s2 = ProcessorState { usage: Some(usage), ..s };
            (
                s2,
                Some(
                    processor_chunk(
                        s2,
                        plain_delta(None, None, None),
                        match stop_reason {
                            Some(r) => Some(finish_of_stop_text(r)),
                            None => None,
                        },
                        Some(usage_counts(usage)),
                    ),
                ),
            )
        },
        _ => (s, None),
    }
}

fn opt_text(o: &Option<String>) -> (r: String)
    ensures
        r@ == text_or_empty(o.deep_view()),
{
    match o {
        Some(s) => s.clone(),
        None => String::new(),
    }
}

impl AnthropicStreamProcessor {
    /// A processor for a stream from the named provider, stamped with the
    /// current time.
    pub fn new(provider_name: String) -> (r: AnthropicStreamProcessor)
        ensures
            r@ == initial_state(provider_name@, r@.created),
    {
        AnthropicStreamProcessor::new_at(provider_name, unix_time_secs())
    }

    /// A processor for a stream from the named provider whose chunks are
    /// stamped with `created`.
    pub fn new_at(provider_name: String, created: u64) -> (r: AnthropicStreamProcessor)
        ensures
            r@ == initial_state(provider_name@, created),
    {
        let r = AnthropicStreamProcessor {
            provider_name,
            message_id: None,
            model: None,
            current_text: String::new(),
            usage: None,
            created,
            current_tool_calls: HashMap::new(),
        };
        assert(r@.tool_calls =~= Map::<u32, BuilderModel>::empty());
        r
    }

    fn chunk(&self, delta: ChatMessageDelta, finish_reason: Option<FinishReason>, usage: Option<Usage>) -> (r:
        UnifiedChunk)
        ensures
            r.deep_view() == processor_chunk(self@, delta.deep_view(), finish_reason.deep_view(), usage),
    {
        let mut choices: Vec<ChatChoiceDelta> = Vec::new();
        choices.push(ChatChoiceDelta { index: 0, logprobs: None, delta, finish_reason });
        let chunk = ChatCompletionChunk {
            id: opt_text(&self.message_id),
            object: ObjectType::ChatCompletionChunk,
            created: self.created,
            model: opt_text(&self.model),
            system_fingerprint: None,
            choices,
            usage,
        };
        assert(chunk.deep_view().choices =~= seq![
            ChatChoiceDeltaModel {
                index: 0,
                logprobs: None,
                delta: delta.deep_view(),
                finish_reason: finish_reason.deep_view(),
            },
        ]);
        UnifiedChunk::from_openai(chunk)
    }

    /// Takes one stream event: updates the state and gives the unified chunk
    /// to emit, if any (see `process_step`).
    pub fn process_event(&mut self, event: AnthropicStreamEvent) -> (r: Option<UnifiedChunk>)
        requires
            event_fits(event.deep_view()),
        ensures
            final(self)@ == process_step(old(self)@, event.deep_view()).0,
            r.deep_view() == process_step(old(self)@, event.deep_view()).1,
    {
        let ghost s0 = self@;
        proof {
            reveal_strlit("/");
        }
        match event {
            AnthropicStreamEvent::MessageStart { message } => {
                self.message_id = Some(message.id);
                self.model = Some(concat3(self.provider_name.as_str(), "/", message.model.as_str()));
                self.usage = Some(message.usage);
                let delta = ChatMessageDelta {
                    role: Some(ChatRole::Assistant),
                    content: None,
                    function_call: None,
                    tool_calls: None,
                };
                Some(self.chunk(delta, None, None))
            },
            AnthropicStreamEvent::ContentBlockStart { index, content_block } => match content_block {
                AnthropicContentBlock::ToolUse { id, name } => {
                    proof {
                        assert(self.current_tool_calls@.dom() =~= s0.tool_calls.dom());
                    }
                    let position = match self.current_tool_calls.get(&index) {
                        Some(b) => b.position,
                        None => self.current_tool_calls.len(),
                    };
                    assert(position == start_position(s0, index));
                    let builder = ToolCallBuilder {
                        id: Some(id.clone()),
                        name: Some(name.clone()),
                        arguments: String::new(),
                        position,
                    };
                    self.current_tool_calls.insert(index, builder);
                    proof {
                        assert(self@.tool_calls =~= s0.tool_calls.insert(
                            index,
                            BuilderModel { id: Some(id@), name: Some(name@), arguments: Seq::empty(), position },
                        ));
                    }
                    let mut calls: Vec<StreamingToolCall> = Vec::new();
                    calls.push(
                        StreamingToolCall::Start {
                            index: position,
                            id,
                            tool_type: ToolCallType::Function,
                            function: FunctionStart { name, arguments: String::new() },
                        },
                    );
                    let delta = ChatMessageDelta {
                        role: None,
                        content: None,
                        function_call: None,
                        tool_calls: Some(calls),
                    };
                    assert(delta.deep_view().tool_calls->0 =~= seq![
                        StreamingCallModel::Start { index: position, id: id@, name: name@, arguments: Seq::empty() },
                    ]);
                    Some(self.chunk(delta, None, None))
                },
                AnthropicContentBlock::Text { .. } => None,
            },
            AnthropicStreamEvent::ContentBlockDelta { index, delta } => match delta {
                AnthropicBlockDelta::TextDelta { text } => {
                    self.current_text.append(text.as_str());
                    let delta = ChatMessageDelta {
                        role: None,
                        content: Some(text),
                        function_call: None,
                        tool_calls: None,
                    };
                    Some(self.chunk(delta, None, None))
                },
                AnthropicBlockDelta::InputJsonDelta { partial_json } => {
                    match self.current_tool_calls.remove(&index) {
                        Some(builder) => {
                            let ToolCallBuilder { id, name, arguments, position } = builder;
                            let mut arguments = arguments;
                            arguments.append(partial_json.as_str());
                            self.current_tool_calls.insert(index, ToolCallBuilder { id, name, arguments, position });
                            proof {
                                let b = s0.tool_calls[index];
                                assert(self@.tool_calls =~= s0.tool_calls.insert(
                                    index,
                                    BuilderModel { arguments: b.arguments + partial_json@, ..b },
                                ));
                            }
                            let mut calls: Vec<StreamingToolCall> = Vec::new();
                            calls.push(
                                StreamingToolCall::Delta {
                                    index: position,
                                    function: FunctionDelta { arguments: partial_json },
                                },
                            );
                            let delta = ChatMessageDelta {
                                role: None,
                                content: None,
                                function_call: None,
                                tool_calls: Some(calls),
                            };
                            assert(delta.deep_view().tool_calls->0 =~= seq![
                                StreamingCallModel::Delta { index: position, arguments: partial_json@ },
                            ]);
                            Some(self.chunk(delta, None, None))
                        },
                        None => {
                            proof {
                                assert(self@.tool_calls =~= s0.tool_calls);
                            }
                            None
                        },
                    }
                },
            },
            AnthropicStreamEvent::MessageDelta { delta, usage } => {
                self.usage = Some(usage);
                proof {
                    reveal_strlit("end_turn");
                    reveal_strlit("max_tokens");
                    reveal_strlit("stop_sequence");
                    reveal_strlit("tool_use");
                }
                let finish_reason = match delta.stop_reason {
                    Some(reason) => {
                        let r = reason.as_str();
                        if str_eq(r, "end_turn") {
                            Some(FinishReason::Stop)
                        } else if str_eq(r, "max_tokens") {
                            Some(FinishReason::Length)
                        } else if str_eq(r, "stop_sequence") {
                            Some(FinishReason::Stop)
                        } else if str_eq(r, "tool_use") {
                            Some(FinishReason::ToolCalls)
                        } else {
                            Some(FinishReason::Other(reason))
                        }
                    },
                    None => None,
                };
                let counts = usage_of(usage);
                let delta = ChatMessageDelta { role: None, content: None, function_call: None, tool_calls: None };
                Some(self.chunk(delta, finish_reason, Some(counts)))
            },
            _ => None,
        }
    }
}

/// The text a response block contributes: a text block's text.
pub open spec fn block_text_of(c: ContentModelP) -> Option<Seq<char>> {
    match c.content_type {
        ContentTypeModel::Text => c.text,
        _ => None,
    }
}

/// Whether `id` is a generated tool call id: `toolu_` and a UUID's 36 characters.
pub open spec fn generated_id(id: Seq<char>) -> bool {
    id.len() == 42 && id.take(6) == "toolu_"@
}

/// The OpenAI tool call a tool-use block makes, with `fresh` as its id when
/// it has none; arguments are the input's JSON text, `{}` without input.
pub open spec fn call_of_block(c: ContentModelP, fresh: Seq<char>) -> Option<ToolCallInfo> {
    match c.content_type {
        ContentTypeModel::ToolUse => Some(
            ToolCallInfo {
                id: match c.id {
                    Some(i) => i,
                    None => fresh,
                },
                name: text_or_empty(c.name),
                arguments: match c.input {
                    Some(v) => serde_json_text(v),
                    None => "{}"@,
                },
            },
        ),
        _ => None,
    }
}

/// A provider response as an OpenAI response created at `created`: the text
/// blocks' texts joined, the tool-use blocks as tool calls (block `i` taking
/// `fresh[i]` when it has no id), an empty model name, and `stop` when
/// there is no stop reason.
pub open spec fn chat_of_response(r: ProviderResponseModel, created: u64, fresh: Seq<Seq<char>>) -> ChatResponseModel {
    let text = join(filter_map(r.content, |c: ContentModelP| block_text_of(c)), Seq::empty());
    let calls = filter_map(
        Seq::new(r.content.len(), |i: int| (r.content[i], fresh[i])),
        |p: (ContentModelP, Seq<char>)| call_of_block(p.0, p.1),
    );
    ChatResponseModel {
        id: r.id,
        object: ObjectType::ChatCompletion,
        created,
        model: Seq::empty(),
        choices: seq![
            ChatChoiceModel {
                index: 0,
                message: ChatMessageModel {
                    role: r.role,
                    content: if text.len() == 0 {
                        None
                    } else {
                        Some(text)
                    },
                    tool_calls: if calls.len() == 0 {
                        None
                    } else {
                        Some(calls)
                    },
                    tool_call_id: None,
                },
                finish_reason: match r.stop_reason {
                    Some(s) => finish_of_stop(s),
                    None => FinishReasonModel::Stop,
                },
            },
        ],
        usage: usage_counts(r.usage),
    }
}

impl ChatCompletionResponse {
    /// The OpenAI form of a provider response, stamped with the current
    /// time; a tool-use block without id gets a fresh `toolu_` id.
    pub fn from_provider_response(response: AnthropicResponse) -> (r: ChatCompletionResponse)
        requires
            usage_sum_fits(response.usage),
        ensures
            exists|fresh: Seq<Seq<char>>|
                fresh.len() == response.content.len() && (forall|i: int|
                    0 <= i < fresh.len() ==> generated_id(#[trigger] fresh[i])) && r.deep_view()
                    == chat_of_response(response.deep_view(), r.created, fresh),
    {
        let ghost q = response.deep_view();
        let ghost c0 = response.content;
        let ghost ft = |c: ContentModelP| block_text_of(c);
        let ghost fc = |p: (ContentModelP, Seq<char>)| call_of_block(p.0, p.1);
        let ghost filler: Seq<char> = "toolu_"@ + Seq::new(36, |k: int| 'x');
        let ghost mut fresh: Seq<Seq<char>> = Seq::empty();
        proof {
            reveal_strlit("toolu_");
            reveal_strlit("{}");
            assert(filler.take(6) =~= "toolu_"@);
        }
        let mut texts: Vec<String> = Vec::new();
        let mut calls: Vec<ToolCall> = Vec::new();
        assert(q.content.take(0) =~= Seq::<ContentModelP>::empty());
        for c in it: response.content.into_iter()
            invariant
                it.seq() == c0@,
                q.content == c0.deep_view(),
                ft == (|c: ContentModelP| block_text_of(c)),
                fc == (|p: (ContentModelP, Seq<char>)| call_of_block(p.0, p.1)),
                generated_id(filler),
                fresh.len() == it.index(),
                forall|i: int| 0 <= i < fresh.len() ==> generated_id(#[trigger] fresh[i]),
                texts.deep_view() == filter_map(q.content.take(it.index() as int), ft),
                calls.deep_view() == filter_map(
                    Seq::new(fresh.len(), |i: int| (q.content[i], fresh[i])),
                    fc,
                ),
        {
            let ghost k = it.index() as int;
            let ghost pairs_before = Seq::new(fresh.len(), |i: int| (q.content[i], fresh[i]));
            proof {
                lemma_filter_map_step(q.content, ft, k);
            }
            let AnthropicContent { content_type, text, id, name, input } = c;
            let ghost cv = q.content[k];
            match content_type {
                ContentType::Text => {
                    proof {
                        fresh = fresh.push(filler);
                    }
                    match text {
                        Some(t) => {
                            let ghost before = texts.deep_view();
                            texts.push(t);
                            assert(texts.deep_view() =~= before.push(t@));
                        },
                        None => {},
                    }
                },
                ContentType::ToolUse => {
                    let call_id = match id {
                        Some(i) => {
                            proof {
                                fresh = fresh.push(filler);
                            }
                            i
                        },
                        None => {
                            let u = uuid_v4_text();
                            let fid = concat2("toolu_", u.as_str());
                            proof {
                                assert(fid@.take(6) =~= "toolu_"@);
                                fresh = fresh.push(fid@);
                            }
                            fid
                        },
                    };
                    let arguments = match input {
                        Some(v) => to_json_text(&v),
                        None => String::from_str("{}"),
                    };
                    let call = ToolCall {
                        id: call_id,
                        tool_type: ToolCallType::Function,
                        function: FunctionCall { name: string_or_empty(name), arguments },
                    };
                    let ghost before = calls.deep_view();
                    calls.push(call);
                    assert(calls.deep_view() =~= before.push(call.deep_view()));
                },
                _ => {
                    proof {
                        fresh = fresh.push(filler);
                    }
                },
            }
            proof {
                let pairs = Seq::new(fresh.len(), |i: int| (q.content[i], fresh[i]));
                assert(pairs.take(k) =~= pairs_before);
                lemma_filter_map_step(pairs, fc, k);
                assert(pairs.take(k + 1) =~= pairs);
            }
        }
        assert(q.content.take(q.content.len() as int) =~= q.content);
        let text = join_strings(&texts, "");
        proof {
            reveal_strlit("");
            assert(""@ =~= Seq::<char>::empty());
        }
        let content = if text.as_str().is_empty() {
            None
        } else {
            Some(text)
        };
        let tool_calls = if calls.len() == 0 {
            None
        } else {
            Some(calls)
        };
        let finish_reason = match response.stop_reason {
            Some(s) => FinishReason::from_stop_reason(s),
            None => FinishReason::Stop,
        };
        let usage = usage_of(response.usage);
        let mut choices: Vec<ChatChoice> = Vec::new();
        choices.push(
            ChatChoice {
                index: 0,
                message: ChatMessage { role: response.role, content, tool_calls, tool_call_id: None },
                finish_reason,
            },
        );
        let r = ChatCompletionResponse {
            id: response.id,
            object: ObjectType::ChatCompletion,
            created: unix_time_secs(),
            model: String::new(),
            choices,
            usage,
        };
        proof {
            let spec_r = chat_of_response(q, r.created, fresh);
            let m = spec_r.choices[0].message;
            let got = r.deep_view().choices[0].message;
            assert(texts.deep_view() == filter_map(q.content, ft));
            assert(got.content == m.content);
            assert(Seq::new(fresh.len(), |i: int| (q.content[i], fresh[i])) =~= Seq::new(
                q.content.len(),
                |i: int| (q.content[i], fresh[i]),
            ));
            assert(got.tool_calls == m.tool_calls);
            assert(got.role == m.role);
            assert(r.deep_view().choices[0].finish_reason == spec_r.choices[0].finish_reason);
        }
        assert(r.deep_view().choices =~= chat_of_response(q, r.created, fresh).choices);
        r
    }
}

} // verus!
