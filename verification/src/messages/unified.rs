//! Protocol-independent message types that every provider works with.
//!
//! Requests and responses of each protocol convert into these types and back;
//! a provider only ever sees the unified form.
use vstd::prelude::*;
use vstd::string::StringExecFns;

use crate::json::{Json, JsonValue, clone_json};
use crate::seqs::{filter_map, join, join_strings, lemma_filter_map_step};
use crate::messages::openai::{JsonSchema, Schema};

verus! {

broadcast use vstd::std_specs::vec::group_vec_axioms;

/// A 32-bit IEEE-754 sampling parameter (temperature, top-p, penalties),
/// carried by its bit pattern: the library only moves such values.
#[derive(Debug, Clone, Copy, PartialEq, Eq, Structural)]
pub struct Real32 {
    pub bits: u32,
}

impl DeepView for Real32 {
    type V = Real32;

    open spec fn deep_view(&self) -> Real32 {
        *self
    }
}

/// The sender of a message.
#[derive(Debug, Clone, Copy, PartialEq, Eq, Structural)]
pub enum UnifiedRole {
    System,
    User,
    Assistant,
    Tool,
}

impl DeepView for UnifiedRole {
    type V = UnifiedRole;

    open spec fn deep_view(&self) -> UnifiedRole {
        *self
    }
}

/// Why generation stopped, in the OpenAI style.
#[derive(Debug, Clone, Copy, PartialEq, Eq, Structural)]
pub enum UnifiedFinishReason {
    Stop,
    Length,
    ContentFilter,
    ToolCalls,
}

impl DeepView for UnifiedFinishReason {
    type V = UnifiedFinishReason;

    open spec fn deep_view(&self) -> UnifiedFinishReason {
        *self
    }
}

/// The OpenAI name of a finish reason.
pub open spec fn finish_reason_text(f: UnifiedFinishReason) -> Seq<char> {
    match f {
        UnifiedFinishReason::Stop => "stop"@,
        UnifiedFinishReason::Length => "length"@,
        UnifiedFinishReason::ContentFilter => "content_filter"@,
        UnifiedFinishReason::ToolCalls => "tool_calls"@,
    }
}

impl UnifiedFinishReason {
    /// The reason's OpenAI name, as telemetry records it.
    pub fn to_string(&self) -> (r: String)
        ensures
            r@ == finish_reason_text(*self),
    {
        match self {
            UnifiedFinishReason::Stop => String::from_str("stop"),
            UnifiedFinishReason::Length => String::from_str("length"),
            UnifiedFinishReason::ContentFilter => String::from_str("content_filter"),
            UnifiedFinishReason::ToolCalls => String::from_str("tool_calls"),
        }
    }
}

/// Why generation stopped, in the Anthropic style.
#[derive(Debug, Clone, Copy, PartialEq, Eq, Structural)]
pub enum UnifiedStopReason {
    EndTurn,
    MaxTokens,
    StopSequence,
    ToolUse,
}

impl DeepView for UnifiedStopReason {
    type V = UnifiedStopReason;

    open spec fn deep_view(&self) -> UnifiedStopReason {
        *self
    }
}

/// How the model may use tools.
#[derive(Debug, Clone, Copy, PartialEq, Eq, Structural)]
pub enum UnifiedToolChoiceMode {
    /// No tool may be used (`"none"` on the wire).
    Disabled,
    Auto,
    Required,
}

impl DeepView for UnifiedToolChoiceMode {
    type V = UnifiedToolChoiceMode;

    open spec fn deep_view(&self) -> UnifiedToolChoiceMode {
        *self
    }
}

/// The kind of object a listing or response is.
#[derive(Debug, Clone, Copy, PartialEq, Eq, Structural)]
pub enum UnifiedObjectType {
    Model,
    List,
    ChatCompletion,
    ChatCompletionChunk,
    Message,
}

impl DeepView for UnifiedObjectType {
    type V = UnifiedObjectType;

    open spec fn deep_view(&self) -> UnifiedObjectType {
        *self
    }
}

/// Token counts of a request and its response.
#[derive(Debug, Clone, Copy, PartialEq, Eq, Structural)]
pub struct UnifiedUsage {
    pub prompt_tokens: u32,
    pub completion_tokens: u32,
    pub total_tokens: u32,
}

impl DeepView for UnifiedUsage {
    type V = UnifiedUsage;

    open spec fn deep_view(&self) -> UnifiedUsage {
        *self
    }
}

/// Where an image comes from.
#[derive(Debug)]
pub enum UnifiedImageSource {
    Base64 { media_type: String, data: String },
    Url { url: String },
}

pub enum ImageSourceModel {
    Base64 { media_type: Seq<char>, data: Seq<char> },
    Url { url: Seq<char> },
}

impl DeepView for UnifiedImageSource {
    type V = ImageSourceModel;

    open spec fn deep_view(&self) -> ImageSourceModel {
        match self {
            UnifiedImageSource::Base64 { media_type, data } => ImageSourceModel::Base64 {
                media_type: media_type@,
                data: data@,
            },
            UnifiedImageSource::Url { url } => ImageSourceModel::Url { url: url@ },
        }
    }
}

/// What a tool handed back: one text or several.
#[derive(Debug)]
pub enum UnifiedToolResultContent {
    Text(String),
    Multiple(Vec<String>),
}

pub enum ToolResultModel {
    Text(Seq<char>),
    Multiple(Seq<Seq<char>>),
}

impl DeepView for UnifiedToolResultContent {
    type V = ToolResultModel;

    open spec fn deep_view(&self) -> ToolResultModel {
        match self {
            UnifiedToolResultContent::Text(t) => ToolResultModel::Text(t@),
            UnifiedToolResultContent::Multiple(ts) => ToolResultModel::Multiple(ts.deep_view()),
        }
    }
}

/// One block of message content.
#[derive(Debug)]
pub enum UnifiedContent {
    Text { text: String },
    Image { source: UnifiedImageSource },
    /// A call of a tool by the assistant.
    ToolUse { id: String, name: String, input: JsonValue },
    /// What a tool call gave back, by the id of the call.
    ToolResult { tool_use_id: String, content: UnifiedToolResultContent, is_error: Option<bool> },
}

pub enum ContentModel {
    Text { text: Seq<char> },
    Image { source: ImageSourceModel },
    ToolUse { id: Seq<char>, name: Seq<char>, input: Json },
    ToolResult { tool_use_id: Seq<char>, content: ToolResultModel, is_error: Option<bool> },
}

impl DeepView for UnifiedContent {
    type V = ContentModel;

    open spec fn deep_view(&self) -> ContentModel {
        match self {
            UnifiedContent::Text { text } => ContentModel::Text { text: text@ },
            UnifiedContent::Image { source } => ContentModel::Image { source: source.deep_view() },
            UnifiedContent::ToolUse { id, name, input } => ContentModel::ToolUse {
                id: id@,
                name: name@,
                input: input.deep_view(),
            },
            UnifiedContent::ToolResult { tool_use_id, content, is_error } => ContentModel::ToolResult {
                tool_use_id: tool_use_id@,
                content: content.deep_view(),
                is_error: *is_error,
            },
        }
    }
}

/// Message content: plain text or blocks.
#[derive(Debug)]
pub enum UnifiedContentContainer {
    Text(String),
    Blocks(Vec<UnifiedContent>),
}

pub enum ContainerModel {
    Text(Seq<char>),
    Blocks(Seq<ContentModel>),
}

impl DeepView for UnifiedContentContainer {
    type V = ContainerModel;

    open spec fn deep_view(&self) -> ContainerModel {
        match self {
            UnifiedContentContainer::Text(t) => ContainerModel::Text(t@),
            UnifiedContentContainer::Blocks(bs) => ContainerModel::Blocks(bs.deep_view()),
        }
    }
}

/// Tool arguments: JSON text or a JSON value.
#[derive(Debug)]
pub enum UnifiedArguments {
    String(String),
    Value(JsonValue),
}

pub enum ArgumentsModel {
    String(Seq<char>),
    Value(Json),
}

impl DeepView for UnifiedArguments {
    type V = ArgumentsModel;

    open spec fn deep_view(&self) -> ArgumentsModel {
        match self {
            UnifiedArguments::String(s) => ArgumentsModel::String(s@),
            UnifiedArguments::Value(v) => ArgumentsModel::Value(v.deep_view()),
        }
    }
}

/// The function a tool call names, with its arguments.
#[derive(Debug)]
pub struct UnifiedFunctionCall {
    pub name: String,
    pub arguments: UnifiedArguments,
}

pub struct FunctionCallModel {
    pub name: Seq<char>,
    pub arguments: ArgumentsModel,
}

impl DeepView for UnifiedFunctionCall {
    type V = FunctionCallModel;

    open spec fn deep_view(&self) -> FunctionCallModel {
        FunctionCallModel { name: self.name@, arguments: self.arguments.deep_view() }
    }
}

/// A call of a tool by the assistant.
#[derive(Debug)]
pub struct UnifiedToolCall {
    pub id: String,
    pub function: UnifiedFunctionCall,
}

pub struct ToolCallModel {
    pub id: Seq<char>,
    pub function: FunctionCallModel,
}

impl DeepView for UnifiedToolCall {
    type V = ToolCallModel;

    open spec fn deep_view(&self) -> ToolCallModel {
        ToolCallModel { id: self.id@, function: self.function.deep_view() }
    }
}

/// A message of a conversation.
#[derive(Debug)]
pub struct UnifiedMessage {
    pub role: UnifiedRole,
    pub content: UnifiedContentContainer,
    /// Tool calls in the OpenAI manner, beside the content.
    pub tool_calls: Option<Vec<UnifiedToolCall>>,
    /// The call a tool message answers.
    pub tool_call_id: Option<String>,
}

pub struct MessageModel {
    pub role: UnifiedRole,
    pub content: ContainerModel,
    pub tool_calls: Option<Seq<ToolCallModel>>,
    pub tool_call_id: Option<Seq<char>>,
}

impl DeepView for UnifiedMessage {
    type V = MessageModel;

    open spec fn deep_view(&self) -> MessageModel {
        MessageModel {
            role: self.role,
            content: self.content.deep_view(),
            tool_calls: self.tool_calls.deep_view(),
            tool_call_id: self.tool_call_id.deep_view(),
        }
    }
}

/// A function the model may call.
#[derive(Debug)]
pub struct UnifiedFunction {
    pub name: String,
    pub description: String,
    /// The JSON Schema of the arguments.
    pub parameters: JsonSchema,
    pub strict: Option<bool>,
}

pub struct FunctionModel {
    pub name: Seq<char>,
    pub description: Seq<char>,
    pub parameters: Schema,
    pub strict: Option<bool>,
}

impl DeepView for UnifiedFunction {
    type V = FunctionModel;

    open spec fn deep_view(&self) -> FunctionModel {
        FunctionModel {
            name: self.name@,
            description: self.description@,
            parameters: self.parameters.deep_view(),
            strict: self.strict,
        }
    }
}

/// A tool the model may use.
#[derive(Debug)]
pub struct UnifiedTool {
    pub function: UnifiedFunction,
}

impl DeepView for UnifiedTool {
    type V = FunctionModel;

    open spec fn deep_view(&self) -> FunctionModel {
        self.function.deep_view()
    }
}

/// The function a specific tool choice forces.
#[derive(Debug)]
pub struct UnifiedFunctionChoice {
    pub name: String,
}

/// How the model must use tools.
#[derive(Debug)]
pub enum UnifiedToolChoice {
    Mode(UnifiedToolChoiceMode),
    Specific { function: UnifiedFunctionChoice },
}

pub enum ToolChoiceModel {
    Mode(UnifiedToolChoiceMode),
    Specific { name: Seq<char> },
}

impl DeepView for UnifiedToolChoice {
    type V = ToolChoiceModel;

    open spec fn deep_view(&self) -> ToolChoiceModel {
        match self {
            UnifiedToolChoice::Mode(m) => ToolChoiceModel::Mode(*m),
            UnifiedToolChoice::Specific { function } => ToolChoiceModel::Specific {
                name: function.name@,
            },
        }
    }
}

/// Who a request is made for.
#[derive(Debug)]
pub struct UnifiedMetadata {
    pub user_id: Option<String>,
}

impl DeepView for UnifiedMetadata {
    type V = Option<Seq<char>>;

    open spec fn deep_view(&self) -> Option<Seq<char>> {
        self.user_id.deep_view()
    }
}

/// A completion request.
#[derive(Debug)]
pub struct UnifiedRequest {
    pub model: String,
    pub messages: Vec<UnifiedMessage>,
    pub system: Option<String>,
    pub max_tokens: Option<u32>,
    pub temperature: Option<Real32>,
    pub top_p: Option<Real32>,
    pub top_k: Option<u32>,
    pub frequency_penalty: Option<Real32>,
    pub presence_penalty: Option<Real32>,
    pub stop_sequences: Option<Vec<String>>,
    pub stream: Option<bool>,
    pub tools: Option<Vec<UnifiedTool>>,
    pub tool_choice: Option<UnifiedToolChoice>,
    pub parallel_tool_calls: Option<bool>,
    pub metadata: Option<UnifiedMetadata>,
}

pub struct RequestModel {
    pub model: Seq<char>,
    pub messages: Seq<MessageModel>,
    pub system: Option<Seq<char>>,
    pub max_tokens: Option<u32>,
    pub temperature: Option<Real32>,
    pub top_p: Option<Real32>,
    pub top_k: Option<u32>,
    pub frequency_penalty: Option<Real32>,
    pub presence_penalty: Option<Real32>,
    pub stop_sequences: Option<Seq<Seq<char>>>,
    pub stream: Option<bool>,
    pub tools: Option<Seq<FunctionModel>>,
    pub tool_choice: Option<ToolChoiceModel>,
    pub parallel_tool_calls: Option<bool>,
    pub metadata: Option<Option<Seq<char>>>,
}

impl DeepView for UnifiedRequest {
    type V = RequestModel;

    open spec fn deep_view(&self) -> RequestModel {
        RequestModel {
            model: self.model@,
            messages: self.messages.deep_view(),
            system: self.system.deep_view(),
            max_tokens: self.max_tokens,
            temperature: self.temperature,
            top_p: self.top_p,
            top_k: self.top_k,
            frequency_penalty: self.frequency_penalty,
            presence_penalty: self.presence_penalty,
            stop_sequences: self.stop_sequences.deep_view(),
            stream: self.stream,
            tools: self.tools.deep_view(),
            tool_choice: self.tool_choice.deep_view(),
            parallel_tool_calls: self.parallel_tool_calls,
            metadata: self.metadata.deep_view(),
        }
    }
}

/// One completion of a response.
#[derive(Debug)]
pub struct UnifiedChoice {
    pub index: u32,
    pub message: UnifiedMessage,
    pub finish_reason: Option<UnifiedFinishReason>,
}

pub struct ChoiceModel {
    pub index: u32,
    pub message: MessageModel,
    pub finish_reason: Option<UnifiedFinishReason>,
}

impl DeepView for UnifiedChoice {
    type V = ChoiceModel;

    open spec fn deep_view(&self) -> ChoiceModel {
        ChoiceModel {
            index: self.index,
            message: self.message.deep_view(),
            finish_reason: self.finish_reason,
        }
    }
}

/// A complete response.
#[derive(Debug)]
pub struct UnifiedResponse {
    pub id: String,
    pub model: String,
    pub choices: Vec<UnifiedChoice>,
    pub usage: UnifiedUsage,
    /// Seconds since the Unix epoch.
    pub created: u64,
    pub stop_reason: Option<UnifiedStopReason>,
    pub stop_sequence: Option<String>,
}

pub struct ResponseModel {
    pub id: Seq<char>,
    pub model: Seq<char>,
    pub choices: Seq<ChoiceModel>,
    pub usage: UnifiedUsage,
    pub created: u64,
    pub stop_reason: Option<UnifiedStopReason>,
    pub stop_sequence: Option<Seq<char>>,
}

impl DeepView for UnifiedResponse {
    type V = ResponseModel;

    open spec fn deep_view(&self) -> ResponseModel {
        ResponseModel {
            id: self.id@,
            model: self.model@,
            choices: self.choices.deep_view(),
            usage: self.usage,
            created: self.created,
            stop_reason: self.stop_reason,
            stop_sequence: self.stop_sequence.deep_view(),
        }
    }
}

/// The start of a streamed tool call: the function's name and first arguments.
#[derive(Debug)]
pub struct UnifiedFunctionStart {
    pub name: String,
    pub arguments: String,
}

/// More argument text of a streamed tool call.
#[derive(Debug)]
pub struct UnifiedFunctionDelta {
    pub arguments: String,
}

/// A piece of a streamed tool call.
#[derive(Debug)]
pub enum UnifiedStreamingToolCall {
    Start { index: usize, id: String, function: UnifiedFunctionStart },
    Delta { index: usize, function: UnifiedFunctionDelta },
}

pub enum StreamingToolCallModel {
    Start { index: usize, id: Seq<char>, name: Seq<char>, arguments: Seq<char> },
    Delta { index: usize, arguments: Seq<char> },
}

impl DeepView for UnifiedStreamingToolCall {
    type V = StreamingToolCallModel;

    open spec fn deep_view(&self) -> StreamingToolCallModel {
        match self {
            UnifiedStreamingToolCall::Start { index, id, function } => StreamingToolCallModel::Start {
                index: *index,
                id: id@,
                name: function.name@,
                arguments: function.arguments@,
            },
            UnifiedStreamingToolCall::Delta { index, function } => StreamingToolCallModel::Delta {
                index: *index,
                arguments: function.arguments@,
            },
        }
    }
}

/// New content of a streamed message.
#[derive(Debug)]
pub struct UnifiedMessageDelta {
    pub role: Option<UnifiedRole>,
    pub content: Option<String>,
    pub tool_calls: Option<Vec<UnifiedStreamingToolCall>>,
}

pub struct MessageDeltaModel {
    pub role: Option<UnifiedRole>,
    pub content: Option<Seq<char>>,
    pub tool_calls: Option<Seq<StreamingToolCallModel>>,
}

impl DeepView for UnifiedMessageDelta {
    type V = MessageDeltaModel;

    open spec fn deep_view(&self) -> MessageDeltaModel {
        MessageDeltaModel {
            role: self.role,
            content: self.content.deep_view(),
            tool_calls: self.tool_calls.deep_view(),
        }
    }
}

/// New content of one streamed choice.
#[derive(Debug)]
pub struct UnifiedChoiceDelta {
    pub index: u32,
    pub delta: UnifiedMessageDelta,
    pub finish_reason: Option<UnifiedFinishReason>,
}

pub struct ChoiceDeltaModel {
    pub index: u32,
    pub delta: MessageDeltaModel,
    pub finish_reason: Option<UnifiedFinishReason>,
}

impl DeepView for UnifiedChoiceDelta {
    type V = ChoiceDeltaModel;

    open spec fn deep_view(&self) -> ChoiceDeltaModel {
        ChoiceDeltaModel {
            index: self.index,
            delta: self.delta.deep_view(),
            finish_reason: self.finish_reason,
        }
    }
}

/// A chunk of a streamed response.
#[derive(Debug)]
pub struct UnifiedChunk {
    pub id: String,
    pub model: String,
    pub choices: Vec<UnifiedChoiceDelta>,
    pub usage: Option<UnifiedUsage>,
    pub created: u64,
}

pub struct ChunkModel {
    pub id: Seq<char>,
    pub model: Seq<char>,
    pub choices: Seq<ChoiceDeltaModel>,
    pub usage: Option<UnifiedUsage>,
    pub created: u64,
}

impl DeepView for UnifiedChunk {
    type V = ChunkModel;

    open spec fn deep_view(&self) -> ChunkModel {
        ChunkModel {
            id: self.id@,
            model: self.model@,
            choices: self.choices.deep_view(),
            usage: self.usage,
            created: self.created,
        }
    }
}

/// A model a provider offers.
#[derive(Debug)]
pub struct UnifiedModel {
    pub id: String,
    pub object_type: UnifiedObjectType,
    pub display_name: String,
    /// Seconds since the Unix epoch; 0 where the provider does not say.
    pub created: u64,
    pub owned_by: String,
}

pub struct ModelInfo {
    pub id: Seq<char>,
    pub object_type: UnifiedObjectType,
    pub display_name: Seq<char>,
    pub created: u64,
    pub owned_by: Seq<char>,
}

impl DeepView for UnifiedModel {
    type V = ModelInfo;

    open spec fn deep_view(&self) -> ModelInfo {
        ModelInfo {
            id: self.id@,
            object_type: self.object_type,
            display_name: self.display_name@,
            created: self.created,
            owned_by: self.owned_by@,
        }
    }
}

/// A listing of models.
#[derive(Debug)]
pub struct UnifiedModelsResponse {
    pub object_type: UnifiedObjectType,
    pub models: Vec<UnifiedModel>,
    pub has_more: bool,
}

pub struct ModelsModel {
    pub object_type: UnifiedObjectType,
    pub models: Seq<ModelInfo>,
    pub has_more: bool,
}

impl DeepView for UnifiedModelsResponse {
    type V = ModelsModel;

    open spec fn deep_view(&self) -> ModelsModel {
        ModelsModel {
            object_type: self.object_type,
            models: self.models.deep_view(),
            has_more: self.has_more,
        }
    }
}

/// The tool call a content block makes: a `ToolUse` block, with its input as
/// the arguments.
pub open spec fn block_tool_call(c: ContentModel) -> Option<ToolCallModel> {
    match c {
        ContentModel::ToolUse { id, name, input } => Some(
            ToolCallModel {
                id,
                function: FunctionCallModel { name, arguments: ArgumentsModel::Value(input) },
            },
        ),
        _ => None,
    }
}

/// The tool calls of a message's content blocks, in order; `None` when there
/// are none or the content is plain text.
pub open spec fn content_tool_calls(c: ContainerModel) -> Option<Seq<ToolCallModel>> {
    match c {
        ContainerModel::Blocks(bs) => {
            let calls = filter_map(bs, |b: ContentModel| block_tool_call(b));
            if calls.len() == 0 {
                None
            } else {
                Some(calls)
            }
        },
        ContainerModel::Text(_) => None,
    }
}

/// The tool calls that `ToolUse` blocks make, copied.
pub fn tool_calls_of_blocks(blocks: &Vec<UnifiedContent>) -> (r: Vec<UnifiedToolCall>)
    ensures
        r.deep_view() == filter_map(blocks.deep_view(), |b: ContentModel| block_tool_call(b)),
{
    let ghost bs = blocks.deep_view();
    let ghost f = |b: ContentModel| block_tool_call(b);
    let mut out: Vec<UnifiedToolCall> = Vec::new();
    let mut k: usize = 0;
    assert(bs.take(0) =~= Seq::<ContentModel>::empty());
    assert(out.deep_view() =~= filter_map(bs.take(0), f));
    while k < blocks.len()
        invariant
            0 <= k <= blocks.len(),
            bs == blocks.deep_view(),
            f == (|b: ContentModel| block_tool_call(b)),
            out.deep_view() == filter_map(bs.take(k as int), f),
        decreases blocks.len() - k,
    {
        proof {
            lemma_filter_map_step(bs, f, k as int);
        }
        match &blocks[k] {
            UnifiedContent::ToolUse { id, name, input } => {
                let call = UnifiedToolCall {
                    id: id.clone(),
                    function: UnifiedFunctionCall {
                        name: name.clone(),
                        arguments: UnifiedArguments::Value(clone_json(input)),
                    },
                };
                let ghost before = out.deep_view();
                out.push(call);
                assert(out.deep_view() =~= before.push(call.deep_view()));
            },
            _ => {},
        }
        k = k + 1;
    }
    assert(bs.take(blocks.len() as int) =~= bs);
    out
}

impl UnifiedMessage {
    /// The tool calls the message's content blocks make, computed from its
    /// `ToolUse` blocks; `None` when there are none.
    pub fn compute_tool_calls(&self) -> (r: Option<Vec<UnifiedToolCall>>)
        ensures
            r.deep_view() == content_tool_calls(self.content.deep_view()),
    {
        match &self.content {
            UnifiedContentContainer::Blocks(blocks) => {
                let calls = tool_calls_of_blocks(blocks);
                if calls.len() == 0 {
                    None
                } else {
                    Some(calls)
                }
            },
            UnifiedContentContainer::Text(_) => None,
        }
    }
}

impl UnifiedContent {
    /// The text of a text block.
    pub fn as_text(&self) -> (r: Option<&str>)
        ensures
            match self.deep_view() {
                ContentModel::Text { text } => r matches Some(t) && t@ == text,
                _ => r is None,
            },
    {
        match self {
            UnifiedContent::Text { text } => Some(text.as_str()),
            _ => None,
        }
    }
}

/// The text of a tool result: a single text as is, several joined with newlines.
pub open spec fn tool_result_text_of(c: ToolResultModel) -> Seq<char> {
    match c {
        ToolResultModel::Text(t) => t,
        ToolResultModel::Multiple(ts) => join(ts, "\n"@),
    }
}

impl UnifiedToolResultContent {
    /// The result as one text: several texts are joined with newlines.
    pub fn into_text(self) -> (r: Option<String>)
        ensures
            r matches Some(t) && t@ == tool_result_text_of(self.deep_view()),
    {
        proof {
            reveal_strlit("\n");
        }
        match self {
            UnifiedToolResultContent::Text(t) => Some(t),
            UnifiedToolResultContent::Multiple(ts) => Some(join_strings(&ts, "\n")),
        }
    }
}

} // verus!
