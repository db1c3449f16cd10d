//! Anthropic Messages API types.
use vstd::prelude::*;
use vstd::string::StringExecFns;

use crate::json::{Json, JsonValue};
use crate::messages::openai::{JsonSchema, Schema};
use crate::messages::unified::Real32;

verus! {

broadcast use vstd::std_specs::vec::group_vec_axioms;

#[derive(Debug, Clone, Copy, PartialEq, Eq, Structural)]
pub enum AnthropicRole {
    User,
    Assistant,
}

impl DeepView for AnthropicRole {
    type V = AnthropicRole;

    open spec fn deep_view(&self) -> AnthropicRole {
        *self
    }
}

/// Why a response stopped.
#[derive(Debug, Clone, Copy, PartialEq, Eq, Structural)]
pub enum AnthropicStopReason {
    EndTurn,
    MaxTokens,
    StopSequence,
    ToolUse,
}

impl DeepView for AnthropicStopReason {
    type V = AnthropicStopReason;

    open spec fn deep_view(&self) -> AnthropicStopReason {
        *self
    }
}

/// The wire name of a stop reason.
pub open spec fn stop_reason_text(r: AnthropicStopReason) -> Seq<char> {
    match r {
        AnthropicStopReason::EndTurn => "end_turn"@,
        AnthropicStopReason::MaxTokens => "max_tokens"@,
        AnthropicStopReason::StopSequence => "stop_sequence"@,
        AnthropicStopReason::ToolUse => "tool_use"@,
    }
}

impl AnthropicStopReason {
    /// The wire name, as `Display` shows it.
    pub fn to_string(&self) -> (r: String)
        ensures
            r@ == stop_reason_text(*self),
    {
        match self {
            AnthropicStopReason::EndTurn => String::from_str("end_turn"),
            AnthropicStopReason::MaxTokens => String::from_str("max_tokens"),
            AnthropicStopReason::StopSequence => String::from_str("stop_sequence"),
            AnthropicStopReason::ToolUse => String::from_str("tool_use"),
        }
    }
}

/// Token counts as Anthropic reports them.
#[derive(Debug, Clone, Copy, PartialEq, Eq, Structural)]
pub struct AnthropicUsage {
    pub input_tokens: i32,
    pub output_tokens: i32,
}

impl DeepView for AnthropicUsage {
    type V = AnthropicUsage;

    open spec fn deep_view(&self) -> AnthropicUsage {
        *self
    }
}

/// An image given inline.
#[derive(Debug)]
pub struct AnthropicImageSource {
    /// The `type` field: `base64` or `url`.
    pub source_type: String,
    pub media_type: String,
    pub data: String,
}

pub struct ImageModel {
    pub source_type: Seq<char>,
    pub media_type: Seq<char>,
    pub data: Seq<char>,
}

impl DeepView for AnthropicImageSource {
    type V = ImageModel;

    open spec fn deep_view(&self) -> ImageModel {
        ImageModel { source_type: self.source_type@, media_type: self.media_type@, data: self.data@ }
    }
}

/// One item of a tool result.
#[derive(Debug)]
pub enum AnthropicToolResultContent {
    Text { text: String },
    Error { error: String },
}

pub enum ToolResultItemModel {
    Text { text: Seq<char> },
    Error { error: Seq<char> },
}

impl DeepView for AnthropicToolResultContent {
    type V = ToolResultItemModel;

    open spec fn deep_view(&self) -> ToolResultItemModel {
        match self {
            AnthropicToolResultContent::Text { text } => ToolResultItemModel::Text { text: text@ },
            AnthropicToolResultContent::Error { error } => ToolResultItemModel::Error {
                error: error@,
            },
        }
    }
}

/// A content block.
#[derive(Debug)]
pub enum AnthropicContent {
    Text { text: String },
    Image { source: AnthropicImageSource },
    ToolUse { id: String, name: String, input: JsonValue },
    ToolResult { tool_use_id: String, content: Vec<AnthropicToolResultContent> },
}

pub enum BlockModel {
    Text { text: Seq<char> },
    Image { source: ImageModel },
    ToolUse { id: Seq<char>, name: Seq<char>, input: Json },
    ToolResult { tool_use_id: Seq<char>, content: Seq<ToolResultItemModel> },
}

impl DeepView for AnthropicContent {
    type V = BlockModel;

    open spec fn deep_view(&self) -> BlockModel {
        match self {
            AnthropicContent::Text { text } => BlockModel::Text { text: text@ },
            AnthropicContent::Image { source } => BlockModel::Image { source: source.deep_view() },
            AnthropicContent::ToolUse { id, name, input } => BlockModel::ToolUse {
                id: id@,
                name: name@,
                input: input.deep_view(),
            },
            AnthropicContent::ToolResult { tool_use_id, content } => BlockModel::ToolResult {
                tool_use_id: tool_use_id@,
                content: content.deep_view(),
            },
        }
    }
}

#[derive(Debug)]
pub struct AnthropicMessage {
    pub role: AnthropicRole,
    pub content: Vec<AnthropicContent>,
}

pub struct AnthropicMessageModel {
    pub role: AnthropicRole,
    pub content: Seq<BlockModel>,
}

impl DeepView for AnthropicMessage {
    type V = AnthropicMessageModel;

    open spec fn deep_view(&self) -> AnthropicMessageModel {
        AnthropicMessageModel { role: self.role, content: self.content.deep_view() }
    }
}

#[derive(Debug)]
pub struct AnthropicMetadata {
    pub user_id: Option<String>,
}

impl DeepView for AnthropicMetadata {
    type V = Option<Seq<char>>;

    open spec fn deep_view(&self) -> Option<Seq<char>> {
        self.user_id.deep_view()
    }
}

/// A tool the model may use.
#[derive(Debug)]
pub struct AnthropicTool {
    pub name: String,
    pub description: String,
    pub input_schema: JsonSchema,
}

pub struct AnthropicToolModel {
    pub name: Seq<char>,
    pub description: Seq<char>,
    pub input_schema: Schema,
}

impl DeepView for AnthropicTool {
    type V = AnthropicToolModel;

    open spec fn deep_view(&self) -> AnthropicToolModel {
        AnthropicToolModel {
            name: self.name@,
            description: self.description@,
            input_schema: self.input_schema.deep_view(),
        }
    }
}

#[derive(Debug)]
pub enum AnthropicToolChoice {
    Auto,
    Any,
    Tool { name: String },
    /// `none`: the model may not call tools.
    Disabled,
}

pub enum AnthropicToolChoiceModel {
    Auto,
    Any,
    Tool { name: Seq<char> },
    Disabled,
}

impl DeepView for AnthropicToolChoice {
    type V = AnthropicToolChoiceModel;

    open spec fn deep_view(&self) -> AnthropicToolChoiceModel {
        match self {
            AnthropicToolChoice::Auto => AnthropicToolChoiceModel::Auto,
            AnthropicToolChoice::Any => AnthropicToolChoiceModel::Any,
            AnthropicToolChoice::Tool { name } => AnthropicToolChoiceModel::Tool { name: name@ },
            AnthropicToolChoice::Disabled => AnthropicToolChoiceModel::Disabled,
        }
    }
}

/// A Messages API request.
#[derive(Debug)]
pub struct AnthropicChatRequest {
    pub model: String,
    pub messages: Vec<AnthropicMessage>,
    pub max_tokens: u32,
    pub system: Option<String>,
    pub temperature: Option<Real32>,
    pub top_p: Option<Real32>,
    pub top_k: Option<u32>,
    pub stop_sequences: Option<Vec<String>>,
    pub stream: Option<bool>,
    pub metadata: Option<AnthropicMetadata>,
    pub tools: Option<Vec<AnthropicTool>>,
    pub tool_choice: Option<AnthropicToolChoice>,
}

pub struct AnthropicRequestModel {
    pub model: Seq<char>,
    pub messages: Seq<AnthropicMessageModel>,
    pub max_tokens: u32,
    pub system: Option<Seq<char>>,
    pub temperature: Option<Real32>,
    pub top_p: Option<Real32>,
    pub top_k: Option<u32>,
    pub stop_sequences: Option<Seq<Seq<char>>>,
    pub stream: Option<bool>,
    pub metadata: Option<Option<Seq<char>>>,
    pub tools: Option<Seq<AnthropicToolModel>>,
    pub tool_choice: Option<AnthropicToolChoiceModel>,
}

impl DeepView for AnthropicChatRequest {
    type V = AnthropicRequestModel;

    open spec fn deep_view(&self) -> AnthropicRequestModel {
        AnthropicRequestModel {
            model: self.model@,
            messages: self.messages.deep_view(),
            max_tokens: self.max_tokens,
            system: self.system.deep_view(),
            temperature: self.temperature,
            top_p: self.top_p,
            top_k: self.top_k,
            stop_sequences: self.stop_sequences.deep_view(),
            stream: self.stream,
            metadata: self.metadata.deep_view(),
            tools: self.tools.deep_view(),
            tool_choice: self.tool_choice.deep_view(),
        }
    }
}

/// A Messages API response.
#[derive(Debug)]
pub struct AnthropicChatResponse {
    pub id: String,
    /// The `type` field, always `message`.
    pub response_type: String,
    pub role: AnthropicRole,
    pub content: Vec<AnthropicContent>,
    pub model: String,
    pub stop_reason: Option<AnthropicStopReason>,
    pub stop_sequence: Option<String>,
    pub usage: AnthropicUsage,
}

pub struct AnthropicResponseModel {
    pub id: Seq<char>,
    pub response_type: Seq<char>,
    pub role: AnthropicRole,
    pub content: Seq<BlockModel>,
    pub model: Seq<char>,
    pub stop_reason: Option<AnthropicStopReason>,
    pub stop_sequence: Option<Seq<char>>,
    pub usage: AnthropicUsage,
}

impl DeepView for AnthropicChatResponse {
    type V = AnthropicResponseModel;

    open spec fn deep_view(&self) -> AnthropicResponseModel {
        AnthropicResponseModel {
            id: self.id@,
            response_type: self.response_type@,
            role: self.role,
            content: self.content.deep_view(),
            model: self.model@,
            stop_reason: self.stop_reason,
            stop_sequence: self.stop_sequence.deep_view(),
            usage: self.usage,
        }
    }
}

/// The body of an error response.
#[derive(Debug)]
pub struct AnthropicError {
    pub error_type: String,
    pub error: AnthropicErrorDetails,
}

#[derive(Debug)]
pub struct AnthropicErrorDetails {
    pub error_type: String,
    pub message: String,
}

pub struct ErrorDetailsModel {
    pub error_type: Seq<char>,
    pub message: Seq<char>,
}

impl DeepView for AnthropicErrorDetails {
    type V = ErrorDetailsModel;

    open spec fn deep_view(&self) -> ErrorDetailsModel {
        ErrorDetailsModel { error_type: self.error_type@, message: self.message@ }
    }
}

#[derive(Debug)]
pub struct AnthropicModel {
    pub id: String,
    /// The `type` field, always `model`.
    pub model_type: String,
    pub display_name: String,
    pub created_at: u64,
}

pub struct AnthropicModelModel {
    pub id: Seq<char>,
    pub model_type: Seq<char>,
    pub display_name: Seq<char>,
    pub created_at: u64,
}

impl DeepView for AnthropicModel {
    type V = AnthropicModelModel;

    open spec fn deep_view(&self) -> AnthropicModelModel {
        AnthropicModelModel {
            id: self.id@,
            model_type: self.model_type@,
            display_name: self.display_name@,
            created_at: self.created_at,
        }
    }
}

#[derive(Debug)]
pub struct AnthropicModelsResponse {
    pub data: Vec<AnthropicModel>,
    pub has_more: bool,
}

pub struct AnthropicModelsModel {
    pub data: Seq<AnthropicModelModel>,
    pub has_more: bool,
}

impl DeepView for AnthropicModelsResponse {
    type V = AnthropicModelsModel;

    open spec fn deep_view(&self) -> AnthropicModelsModel {
        AnthropicModelsModel { data: self.data.deep_view(), has_more: self.has_more }
    }
}

/// The `message` of a `message_start` event.
#[derive(Debug)]
pub struct AnthropicStreamMessageStart {
    pub id: String,
    pub message_type: String,
    pub role: AnthropicRole,
    pub content: Vec<AnthropicContent>,
    pub model: String,
    pub usage: AnthropicUsage,
}

pub struct MessageStartModel {
    pub id: Seq<char>,
    pub message_type: Seq<char>,
    pub role: AnthropicRole,
    pub content: Seq<BlockModel>,
    pub model: Seq<char>,
    pub usage: AnthropicUsage,
}

impl DeepView for AnthropicStreamMessageStart {
    type V = MessageStartModel;

    open spec fn deep_view(&self) -> MessageStartModel {
        MessageStartModel {
            id: self.id@,
            message_type: self.message_type@,
            role: self.role,
            content: self.content.deep_view(),
            model: self.model@,
            usage: self.usage,
        }
    }
}

/// New content of a streamed block.
#[derive(Debug)]
pub enum AnthropicContentDelta {
    TextDelta { text: String },
    InputJsonDelta { partial_json: String },
}

pub enum ContentDeltaModel {
    TextDelta { text: Seq<char> },
    InputJsonDelta { partial_json: Seq<char> },
}

impl DeepView for AnthropicContentDelta {
    type V = ContentDeltaModel;

    open spec fn deep_view(&self) -> ContentDeltaModel {
        match self {
            AnthropicContentDelta::TextDelta { text } => ContentDeltaModel::TextDelta { text: text@ },
            AnthropicContentDelta::InputJsonDelta { partial_json } => ContentDeltaModel::InputJsonDelta {
                partial_json: partial_json@,
            },
        }
    }
}

/// The top-level changes a `message_delta` event carries.
#[derive(Debug)]
pub struct AnthropicMessageDelta {
    pub stop_reason: Option<AnthropicStopReason>,
    pub stop_sequence: Option<String>,
}

pub struct MessageDeltaInfo {
    pub stop_reason: Option<AnthropicStopReason>,
    pub stop_sequence: Option<Seq<char>>,
}

impl DeepView for AnthropicMessageDelta {
    type V = MessageDeltaInfo;

    open spec fn deep_view(&self) -> MessageDeltaInfo {
        MessageDeltaInfo { stop_reason: self.stop_reason, stop_sequence: self.stop_sequence.deep_view() }
    }
}

/// A server-sent event of a streamed response.
#[derive(Debug)]
pub enum AnthropicStreamEvent {
    MessageStart { message: AnthropicStreamMessageStart },
    ContentBlockStart { index: u32, content_block: AnthropicContent },
    ContentBlockDelta { index: u32, delta: AnthropicContentDelta },
    ContentBlockStop { index: u32 },
    MessageDelta { delta: AnthropicMessageDelta, usage: AnthropicUsage },
    MessageStop,
    Ping,
    Error { error: AnthropicErrorDetails },
}

pub enum StreamEventModel {
    MessageStart { message: MessageStartModel },
    ContentBlockStart { index: u32, content_block: BlockModel },
    ContentBlockDelta { index: u32, delta: ContentDeltaModel },
    ContentBlockStop { index: u32 },
    MessageDelta { delta: MessageDeltaInfo, usage: AnthropicUsage },
    MessageStop,
    Ping,
    Error { error: ErrorDetailsModel },
}

impl DeepView for AnthropicStreamEvent {
    type V = StreamEventModel;

    open spec fn deep_view(&self) -> StreamEventModel {
        match self {
            AnthropicStreamEvent::MessageStart { message } => StreamEventModel::MessageStart {
                message: message.deep_view(),
            },
            AnthropicStreamEvent::ContentBlockStart { index, content_block } =>
                StreamEventModel::ContentBlockStart {
                index: *index,
                content_block: content_block.deep_view(),
            },
            AnthropicStreamEvent::ContentBlockDelta { index, delta } =>
                StreamEventModel::ContentBlockDelta { index: *index, delta: delta.deep_view() },
            AnthropicStreamEvent::ContentBlockStop { index } => StreamEventModel::ContentBlockStop {
                index: *index,
            },
            AnthropicStreamEvent::MessageDelta { delta, usage } => StreamEventModel::MessageDelta {
                delta: delta.deep_view(),
                usage: *usage,
            },
            AnthropicStreamEvent::MessageStop => StreamEventModel::MessageStop,
            AnthropicStreamEvent::Ping => StreamEventModel::Ping,
            AnthropicStreamEvent::Error { error } => StreamEventModel::Error {
                error: error.deep_view(),
            },
        }
    }
}

} // verus!
