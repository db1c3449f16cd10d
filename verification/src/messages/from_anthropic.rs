//! Conversions from Anthropic protocol types to the unified types.
use vstd::prelude::*;
use vstd::string::StringExecFns;

use crate::json::{to_json_text, serde_json_text};
use crate::messages::anthropic::{
    AnthropicChatRequest, AnthropicContent, AnthropicMessage, AnthropicMessageModel,
    AnthropicRequestModel, AnthropicResponseModel, AnthropicRole, AnthropicStopReason,
    AnthropicTool, AnthropicToolChoice, AnthropicToolChoiceModel, AnthropicToolModel,
    AnthropicToolResultContent, AnthropicUsage, BlockModel, ToolResultItemModel,
    AnthropicChatResponse, AnthropicModel, AnthropicModelModel, AnthropicModelsResponse,
    AnthropicModelsModel, AnthropicContentDelta, ContentDeltaModel, AnthropicStreamEvent,
    StreamEventModel,
};
use crate::messages::unified::{
    ChoiceModel, ContainerModel, ContentModel, FunctionModel, ImageSourceModel, MessageModel,
    RequestModel, ResponseModel, ToolChoiceModel, ToolResultModel, UnifiedContent,
    UnifiedContentContainer, UnifiedFinishReason, UnifiedFunction, UnifiedFunctionChoice,
    UnifiedImageSource, UnifiedMessage, UnifiedMetadata, UnifiedRequest, UnifiedRole,
    UnifiedStopReason, UnifiedTool, UnifiedToolChoice, UnifiedToolChoiceMode,
    UnifiedToolResultContent, UnifiedUsage, content_tool_calls, tool_calls_of_blocks,
    UnifiedResponse, UnifiedChoice, UnifiedModel, UnifiedModelsResponse, UnifiedObjectType,
    ModelInfo, ModelsModel, UnifiedMessageDelta, MessageDeltaModel, UnifiedStreamingToolCall,
    StreamingToolCallModel, UnifiedFunctionStart, UnifiedFunctionDelta, UnifiedChunk, ChunkModel,
    ChoiceDeltaModel, UnifiedChoiceDelta,
};
use crate::seqs::{filter_map, lemma_filter_map_step};

verus! {

broadcast use vstd::std_specs::vec::group_vec_axioms;

pub open spec fn role_from_anthropic(r: AnthropicRole) -> UnifiedRole {
    match r {
        AnthropicRole::User => UnifiedRole::User,
        AnthropicRole::Assistant => UnifiedRole::Assistant,
    }
}

/// The text of a tool-result item, whether text or error.
pub open spec fn item_text(i: ToolResultItemModel) -> Seq<char> {
    match i {
        ToolResultItemModel::Text { text } => text,
        ToolResultItemModel::Error { error } => error,
    }
}

/// Tool-result items as unified content: one item as its text, any other
/// number as the list of their texts.
pub open spec fn tool_result_from_items(items: Seq<ToolResultItemModel>) -> ToolResultModel {
    if items.len() == 1 {
        ToolResultModel::Text(item_text(items[0]))
    } else {
        ToolResultModel::Multiple(items.map_values(|i: ToolResultItemModel| item_text(i)))
    }
}

/// A content block in unified form; an image becomes a base64 source.
pub open spec fn content_from_anthropic(b: BlockModel) -> ContentModel {
    match b {
        BlockModel::Text { text } => ContentModel::Text { text },
        BlockModel::Image { source } => ContentModel::Image {
            source: ImageSourceModel::Base64 { media_type: source.media_type, data: source.data },
        },
        BlockModel::ToolUse { id, name, input } => ContentModel::ToolUse { id, name, input },
        BlockModel::ToolResult { tool_use_id, content } => ContentModel::ToolResult {
            tool_use_id,
            content: tool_result_from_items(content),
            is_error: None,
        },
    }
}

pub open spec fn contents_from_anthropic(bs: Seq<BlockModel>) -> Seq<ContentModel> {
    bs.map_values(|b: BlockModel| content_from_anthropic(b))
}

/// A message in unified form; an assistant's `tool_use` blocks are also
/// listed as its tool calls.
pub open spec fn message_from_anthropic(m: AnthropicMessageModel) -> MessageModel {
    let role = role_from_anthropic(m.role);
    let content = ContainerModel::Blocks(contents_from_anthropic(m.content));
    MessageModel {
        role,
        content,
        tool_calls: if role == UnifiedRole::Assistant {
            content_tool_calls(content)
        } else {
            None
        },
        tool_call_id: None,
    }
}

pub open spec fn tool_from_anthropic(t: AnthropicToolModel) -> FunctionModel {
    FunctionModel {
        name: t.name,
        description: t.description,
        parameters: t.input_schema,
        strict: None,
    }
}

pub open spec fn tool_choice_from_anthropic(c: AnthropicToolChoiceModel) -> ToolChoiceModel {
    match c {
        AnthropicToolChoiceModel::Auto => ToolChoiceModel::Mode(UnifiedToolChoiceMode::Auto),
        AnthropicToolChoiceModel::Any => ToolChoiceModel::Mode(UnifiedToolChoiceMode::Required),
        AnthropicToolChoiceModel::Tool { name } => ToolChoiceModel::Specific { name },
        AnthropicToolChoiceModel::Disabled => ToolChoiceModel::Mode(UnifiedToolChoiceMode::Disabled),
    }
}

/// A request in unified form.
pub open spec fn request_from_anthropic(r: AnthropicRequestModel) -> RequestModel {
    RequestModel {
        model: r.model,
        messages: r.messages.map_values(|m: AnthropicMessageModel| message_from_anthropic(m)),
        system: r.system,
        max_tokens: Some(r.max_tokens),
        temperature: r.temperature,
        top_p: r.top_p,
        top_k: r.top_k,
        frequency_penalty: None,
        presence_penalty: None,
        stop_sequences: r.stop_sequences,
        stream: r.stream,
        tools: match r.tools {
            Some(ts) => Some(ts.map_values(|t: AnthropicToolModel| tool_from_anthropic(t))),
            None => None,
        },
        tool_choice: match r.tool_choice {
            Some(c) => Some(tool_choice_from_anthropic(c)),
            None => None,
        },
        parallel_tool_calls: None,
        metadata: r.metadata,
    }
}

pub open spec fn finish_from_anthropic(r: AnthropicStopReason) -> UnifiedFinishReason {
    match r {
        AnthropicStopReason::EndTurn => UnifiedFinishReason::Stop,
        AnthropicStopReason::MaxTokens => UnifiedFinishReason::Length,
        AnthropicStopReason::StopSequence => UnifiedFinishReason::Stop,
        AnthropicStopReason::ToolUse => UnifiedFinishReason::ToolCalls,
    }
}

pub open spec fn stop_from_anthropic(r: AnthropicStopReason) -> UnifiedStopReason {
    match r {
        AnthropicStopReason::EndTurn => UnifiedStopReason::EndTurn,
        AnthropicStopReason::MaxTokens => UnifiedStopReason::MaxTokens,
        AnthropicStopReason::StopSequence => UnifiedStopReason::StopSequence,
        AnthropicStopReason::ToolUse => UnifiedStopReason::ToolUse,
    }
}

/// Whether the two counts, each read as `u32`, add up within `u32`.
pub open spec fn usage_fits(u: AnthropicUsage) -> bool {
    (u.input_tokens as u32) + (u.output_tokens as u32) <= u32::MAX
}

/// Usage in unified form: each count read as `u32`, and their sum.
pub open spec fn usage_from_anthropic(u: AnthropicUsage) -> UnifiedUsage {
    UnifiedUsage {
        prompt_tokens: u.input_tokens as u32,
        completion_tokens: u.output_tokens as u32,
        total_tokens: ((u.input_tokens as u32) + (u.output_tokens as u32)) as u32,
    }
}

/// Whether a block stays in a response's content: tool results do not.
pub open spec fn kept_in_response(b: BlockModel) -> Option<ContentModel> {
    match b {
        BlockModel::ToolResult { .. } => None,
        _ => Some(content_from_anthropic(b)),
    }
}

/// A response in unified form: one choice holding the assistant message.
pub open spec fn response_from_anthropic(r: AnthropicResponseModel) -> ResponseModel {
    let content = ContainerModel::Blocks(
        crate::seqs::filter_map(r.content, |b: BlockModel| kept_in_response(b)),
    );
    ResponseModel {
        id: r.id,
        model: r.model,
        choices: seq![
            ChoiceModel {
                index: 0,
                message: MessageModel {
                    role: UnifiedRole::Assistant,
                    content,
                    tool_calls: content_tool_calls(content),
                    tool_call_id: None,
                },
                finish_reason: match r.stop_reason {
                    Some(s) => Some(finish_from_anthropic(s)),
                    None => None,
                },
            },
        ],
        usage: usage_from_anthropic(r.usage),
        created: 0,
        stop_reason: match r.stop_reason {
            Some(s) => Some(stop_from_anthropic(s)),
            None => None,
        },
        stop_sequence: r.stop_sequence,
    }
}

impl UnifiedRole {
    pub fn from_anthropic(r: AnthropicRole) -> (u: UnifiedRole)
        ensures
            u == role_from_anthropic(r),
    {
        match r {
            AnthropicRole::User => UnifiedRole::User,
            AnthropicRole::Assistant => UnifiedRole::Assistant,
        }
    }
}

impl UnifiedFinishReason {
    pub fn from_anthropic(r: AnthropicStopReason) -> (u: UnifiedFinishReason)
        ensures
            u == finish_from_anthropic(r),
    {
        match r {
            AnthropicStopReason::EndTurn => UnifiedFinishReason::Stop,
            AnthropicStopReason::MaxTokens => UnifiedFinishReason::Length,
            AnthropicStopReason::StopSequence => UnifiedFinishReason::Stop,
            AnthropicStopReason::ToolUse => UnifiedFinishReason::ToolCalls,
        }
    }
}

impl UnifiedStopReason {
    pub fn from_anthropic(r: AnthropicStopReason) -> (u: UnifiedStopReason)
        ensures
            u == stop_from_anthropic(r),
    {
        match r {
            AnthropicStopReason::EndTurn => UnifiedStopReason::EndTurn,
            AnthropicStopReason::MaxTokens => UnifiedStopReason::MaxTokens,
            AnthropicStopReason::StopSequence => UnifiedStopReason::StopSequence,
            AnthropicStopReason::ToolUse => UnifiedStopReason::ToolUse,
        }
    }
}

impl UnifiedUsage {
    pub fn from_anthropic(u: AnthropicUsage) -> (r: UnifiedUsage)
        requires
            usage_fits(u),
        ensures
            r == usage_from_anthropic(u),
    {
        let input = u.input_tokens as u32;
        let output = u.output_tokens as u32;
        UnifiedUsage { prompt_tokens: input, completion_tokens: output, total_tokens: input + output }
    }
}

fn item_into_text(i: AnthropicToolResultContent) -> (r: String)
    ensures
        r@ == item_text(i.deep_view()),
{
    match i {
        AnthropicToolResultContent::Text { text } => text,
        AnthropicToolResultContent::Error { error } => error,
    }
}

fn tool_result_from_vec(items: Vec<AnthropicToolResultContent>) -> (r: UnifiedToolResultContent)
    ensures
        r.deep_view() == tool_result_from_items(items.deep_view()),
{
    let ghost i0 = items.deep_view();
    let ghost v0 = items;
    if items.len() == 1 {
        let mut items = items;
        let first = items.remove(0);
        UnifiedToolResultContent::Text(item_into_text(first))
    } else {
        let mut out: Vec<String> = Vec::new();
        for i in it: items.into_iter()
            invariant
                it.seq() == v0@,
                i0 == v0.deep_view(),
                out@.len() == it.index(),
                forall|j: int| 0 <= j < it.index() ==> out@[j]@ == item_text(i0[j]),
        {
            out.push(item_into_text(i));
        }
        let r = UnifiedToolResultContent::Multiple(out);
        assert(out.deep_view() =~= i0.map_values(|i: ToolResultItemModel| item_text(i)));
        r
    }
}

impl UnifiedContent {
    pub fn from_anthropic(b: AnthropicContent) -> (r: UnifiedContent)
        ensures
            r.deep_view() == content_from_anthropic(b.deep_view()),
    {
        match b {
            AnthropicContent::Text { text } => UnifiedContent::Text { text },
            AnthropicContent::Image { source } => UnifiedContent::Image {
                source: UnifiedImageSource::Base64 { media_type: source.media_type, data: source.data },
            },
            AnthropicContent::ToolUse { id, name, input } => UnifiedContent::ToolUse { id, name, input },
            AnthropicContent::ToolResult { tool_use_id, content } => UnifiedContent::ToolResult {
                tool_use_id,
                content: tool_result_from_vec(content),
                is_error: None,
            },
        }
    }
}

fn contents_from_vec(bs: Vec<AnthropicContent>) -> (r: Vec<UnifiedContent>)
    ensures
        r.deep_view() == contents_from_anthropic(bs.deep_view()),
{
    let ghost b0 = bs.deep_view();
    let ghost v0 = bs;
    let mut out: Vec<UnifiedContent> = Vec::new();
    for b in it: bs.into_iter()
        invariant
            it.seq() == v0@,
            b0 == v0.deep_view(),
            out@.len() == it.index(),
            forall|j: int| 0 <= j < it.index() ==> out@[j].deep_view() == content_from_anthropic(b0[j]),
    {
        out.push(UnifiedContent::from_anthropic(b));
    }
    assert(out.deep_view() =~= contents_from_anthropic(b0));
    out
}

impl UnifiedMessage {
    /// The unified form of an Anthropic message; an assistant message also
    /// lists its `tool_use` blocks as tool calls.
    pub fn from_anthropic(m: AnthropicMessage) -> (r: UnifiedMessage)
        ensures
            r.deep_view() == message_from_anthropic(m.deep_view()),
    {
        let role = UnifiedRole::from_anthropic(m.role);
        let blocks = contents_from_vec(m.content);
        let tool_calls = if role == UnifiedRole::Assistant {
            let calls = tool_calls_of_blocks(&blocks);
            if calls.len() == 0 {
                None
            } else {
                Some(calls)
            }
        } else {
            None
        };
        UnifiedMessage {
            role,
            content: UnifiedContentContainer::Blocks(blocks),
            tool_calls,
            tool_call_id: None,
        }
    }
}

impl UnifiedTool {
    pub fn from_anthropic(t: AnthropicTool) -> (r: UnifiedTool)
        ensures
            r.deep_view() == tool_from_anthropic(t.deep_view()),
    {
        UnifiedTool {
            function: UnifiedFunction {
                name: t.name,
                description: t.description,
                parameters: t.input_schema,
                strict: None,
            },
        }
    }
}

impl UnifiedToolChoice {
    pub fn from_anthropic(c: AnthropicToolChoice) -> (r: UnifiedToolChoice)
        ensures
            r.deep_view() == tool_choice_from_anthropic(c.deep_view()),
    {
        match c {
            AnthropicToolChoice::Auto => UnifiedToolChoice::Mode(UnifiedToolChoiceMode::Auto),
            AnthropicToolChoice::Any => UnifiedToolChoice::Mode(UnifiedToolChoiceMode::Required),
            AnthropicToolChoice::Tool { name } => UnifiedToolChoice::Specific {
                function: UnifiedFunctionChoice { name },
            },
            AnthropicToolChoice::Disabled => UnifiedToolChoice::Mode(UnifiedToolChoiceMode::Disabled),
        }
    }
}

impl UnifiedRequest {
    /// The unified form of a Messages API request.
    pub fn from_anthropic(req: AnthropicChatRequest) -> (r: UnifiedRequest)
        ensures
            r.deep_view() == request_from_anthropic(req.deep_view()),
    {
        let ghost q = req.deep_view();
        let ghost ms0 = req.messages;
        let mut messages: Vec<UnifiedMessage> = Vec::new();
        for m in it: req.messages.into_iter()
            invariant
                it.seq() == ms0@,
                q.messages == ms0.deep_view(),
                messages@.len() == it.index(),
                forall|j: int|
                    0 <= j < it.index() ==> messages@[j].deep_view() == message_from_anthropic(
                        q.messages[j],
                    ),
        {
            messages.push(UnifiedMessage::from_anthropic(m));
        }
        assert(messages.deep_view() =~= q.messages.map_values(
            |m: AnthropicMessageModel| message_from_anthropic(m),
        ));
        let tools = match req.tools {
            Some(ts) => {
                let ghost t0 = ts.deep_view();
                let ghost tv = ts;
                let mut out: Vec<UnifiedTool> = Vec::new();
                for t in it: ts.into_iter()
                    invariant
                        it.seq() == tv@,
                        t0 == tv.deep_view(),
                        out@.len() == it.index(),
                        forall|j: int|
                            0 <= j < it.index() ==> out@[j].deep_view() == tool_from_anthropic(t0[j]),
                {
                    out.push(UnifiedTool::from_anthropic(t));
                }
                assert(out.deep_view() =~= t0.map_values(|t: AnthropicToolModel| tool_from_anthropic(t)));
                Some(out)
            },
            None => None,
        };
        let tool_choice = match req.tool_choice {
            Some(c) => Some(UnifiedToolChoice::from_anthropic(c)),
            None => None,
        };
        let metadata = match req.metadata {
            Some(m) => Some(UnifiedMetadata { user_id: m.user_id }),
            None => None,
        };
        UnifiedRequest {
            model: req.model,
            messages,
            system: req.system,
            max_tokens: Some(req.max_tokens),
            temperature: req.temperature,
            top_p: req.top_p,
            top_k: req.top_k,
            frequency_penalty: None,
            presence_penalty: None,
            stop_sequences: req.stop_sequences,
            stream: req.stream,
            tools,
            tool_choice,
            parallel_tool_calls: None,
            metadata,
        }
    }
}

/// A model listing entry in unified form, owned by `anthropic`.
pub open spec fn model_from_anthropic(m: AnthropicModelModel) -> ModelInfo {
    ModelInfo {
        id: m.id,
        object_type: UnifiedObjectType::Model,
        display_name: m.display_name,
        created: m.created_at,
        owned_by: "anthropic"@,
    }
}

pub open spec fn models_from_anthropic(r: AnthropicModelsModel) -> ModelsModel {
    ModelsModel {
        object_type: UnifiedObjectType::List,
        models: r.data.map_values(|m: AnthropicModelModel| model_from_anthropic(m)),
        has_more: r.has_more,
    }
}

pub open spec fn empty_delta() -> MessageDeltaModel {
    MessageDeltaModel { role: None, content: None, tool_calls: None }
}

/// A block delta in unified form: text as content, partial JSON as the
/// arguments of a tool call delta at index 0.
pub open spec fn delta_from_anthropic(d: ContentDeltaModel) -> MessageDeltaModel {
    match d {
        ContentDeltaModel::TextDelta { text } => MessageDeltaModel {
            role: None,
            content: Some(text),
            tool_calls: None,
        },
        ContentDeltaModel::InputJsonDelta { partial_json } => MessageDeltaModel {
            role: None,
            content: None,
            tool_calls: Some(
                seq![StreamingToolCallModel::Delta { index: 0, arguments: partial_json }],
            ),
        },
    }
}

/// The delta a `content_block_start` event gives: a text block's text, or the
/// start of a tool call with the input as JSON text.
pub open spec fn block_start_delta(index: u32, b: BlockModel) -> MessageDeltaModel {
    match b {
        BlockModel::Text { text } => MessageDeltaModel {
            role: None,
            content: Some(text),
            tool_calls: None,
        },
        BlockModel::ToolUse { id, name, input } => MessageDeltaModel {
            role: None,
            content: None,
            tool_calls: Some(
                seq![
                    StreamingToolCallModel::Start {
                        index: index as usize,
                        id,
                        name,
                        arguments: serde_json_text(input),
                    },
                ],
            ),
        },
        _ => empty_delta(),
    }
}

/// A tool call delta moved to `index`.
pub open spec fn at_index(c: StreamingToolCallModel, index: usize) -> StreamingToolCallModel {
    match c {
        StreamingToolCallModel::Delta { arguments, .. } => StreamingToolCallModel::Delta {
            index,
            arguments,
        },
        _ => c,
    }
}

pub open spec fn one_choice(delta: MessageDeltaModel, finish: Option<UnifiedFinishReason>) -> Seq<
    ChoiceDeltaModel,
> {
    seq![ChoiceDeltaModel { index: 0, delta, finish_reason: finish }]
}

/// Whether the usage an event carries adds up within `u32`.
pub open spec fn event_usage_fits(e: StreamEventModel) -> bool {
    match e {
        StreamEventModel::MessageStart { message } => usage_fits(message.usage),
        StreamEventModel::MessageDelta { usage, .. } => usage_fits(usage),
        _ => true,
    }
}

/// A streaming event in unified form. Only `message_start` carries the id
/// and model; events other than message start, block start, block delta and
/// message delta give a chunk without choices.
pub open spec fn chunk_from_anthropic(e: StreamEventModel) -> ChunkModel {
    match e {
        StreamEventModel::MessageStart { message } => ChunkModel {
            id: message.id,
            model: message.model,
            choices: one_choice(
                MessageDeltaModel { role: Some(UnifiedRole::Assistant), content: None, tool_calls: None },
                None,
            ),
            usage: Some(usage_from_anthropic(message.usage)),
            created: 0,
        },
        StreamEventModel::ContentBlockStart { index, content_block } => ChunkModel {
            id: Seq::empty(),
            model: Seq::empty(),
            choices: one_choice(block_start_delta(index, content_block), None),
            usage: None,
            created: 0,
        },
        StreamEventModel::ContentBlockDelta { index, delta } => {
            let d = delta_from_anthropic(delta);
            ChunkModel {
                id: Seq::empty(),
                model: Seq::empty(),
                choices: one_choice(
                    MessageDeltaModel {
                        tool_calls: match d.tool_calls {
                            Some(cs) => Some(
                                cs.map_values(|c: StreamingToolCallModel| at_index(c, index as usize)),
                            ),
                            None => None,
                        },
                        ..d
                    },
                    None,
                ),
                usage: None,
                created: 0,
            }
        },
        StreamEventModel::MessageDelta { delta, usage } => ChunkModel {
            id: Seq::empty(),
            model: Seq::empty(),
            choices: one_choice(
                empty_delta(),
                match delta.stop_reason {
                    Some(r) => Some(finish_from_anthropic(r)),
                    None => None,
                },
            ),
            usage: Some(usage_from_anthropic(usage)),
            created: 0,
        },
        _ => ChunkModel {
            id: Seq::empty(),
            model: Seq::empty(),
            choices: Seq::empty(),
            usage: None,
            created: 0,
        },
    }
}

impl UnifiedResponse {
    /// The unified form of a Messages API response: one choice, without the
    /// tool-result blocks, the `tool_use` blocks also listed as tool calls;
    /// the creation time is 0, as Anthropic gives none.
    pub fn from_anthropic(resp: AnthropicChatResponse) -> (r: UnifiedResponse)
        requires
            usage_fits(resp.usage),
        ensures
            r.deep_view() == response_from_anthropic(resp.deep_view()),
    {
        let ghost q = resp.deep_view();
        let ghost cv = resp.content;
        let ghost f = |b: BlockModel| kept_in_response(b);
        let mut blocks: Vec<UnifiedContent> = Vec::new();
        assert(q.content.take(0) =~= Seq::<BlockModel>::empty());
        for b in it: resp.content.into_iter()
            invariant
                it.seq() == cv@,
                q.content == cv.deep_view(),
                f == (|b: BlockModel| kept_in_response(b)),
                blocks.deep_view() == filter_map(q.content.take(it.index() as int), f),
        {
            proof {
                lemma_filter_map_step(q.content, f, it.index() as int);
            }
            match b {
                AnthropicContent::ToolResult { .. } => {},
                other => {
                    let c = UnifiedContent::from_anthropic(other);
                    let ghost before = blocks.deep_view();
                    blocks.push(c);
                    assert(blocks.deep_view() =~= before.push(c.deep_view()));
                },
            }
        }
        assert(q.content.take(q.content.len() as int) =~= q.content);
        let calls = tool_calls_of_blocks(&blocks);
        let tool_calls = if calls.len() == 0 {
            None
        } else {
            Some(calls)
        };
        let message = UnifiedMessage {
            role: UnifiedRole::Assistant,
            content: UnifiedContentContainer::Blocks(blocks),
            tool_calls,
            tool_call_id: None,
        };
        let (finish_reason, stop_reason) = match resp.stop_reason {
            Some(reason) => (
                Some(UnifiedFinishReason::from_anthropic(reason)),
                Some(UnifiedStopReason::from_anthropic(reason)),
            ),
            None => (None, None),
        };
        let mut choices: Vec<UnifiedChoice> = Vec::new();
        choices.push(UnifiedChoice { index: 0, message, finish_reason });
        let r = UnifiedResponse {
            id: resp.id,
            model: resp.model,
            choices,
            usage: UnifiedUsage::from_anthropic(resp.usage),
            created: 0,
            stop_reason,
            stop_sequence: resp.stop_sequence,
        };
        assert(r.deep_view().choices =~= response_from_anthropic(q).choices);
        r
    }
}

impl UnifiedModel {
    pub fn from_anthropic(m: AnthropicModel) -> (r: UnifiedModel)
        ensures
            r.deep_view() == model_from_anthropic(m.deep_view()),
    {
        UnifiedModel {
            id: m.id,
            object_type: UnifiedObjectType::Model,
            display_name: m.display_name,
            created: m.created_at,
            owned_by: String::from_str("anthropic"),
        }
    }
}

impl UnifiedModelsResponse {
    pub fn from_anthropic(resp: AnthropicModelsResponse) -> (r: UnifiedModelsResponse)
        ensures
            r.deep_view() == models_from_anthropic(resp.deep_view()),
    {
        let ghost d0 = resp.data;
        let mut models: Vec<UnifiedModel> = Vec::new();
        for m in it: resp.data.into_iter()
            invariant
                it.seq() == d0@,
                models@.len() == it.index(),
                forall|j: int|
                    0 <= j < it.index() ==> models@[j].deep_view() == model_from_anthropic(
                        d0@[j].deep_view(),
                    ),
        {
            models.push(UnifiedModel::from_anthropic(m));
        }
        assert(models.deep_view() =~= d0.deep_view().map_values(
            |m: AnthropicModelModel| model_from_anthropic(m),
        ));
        UnifiedModelsResponse { object_type: UnifiedObjectType::List, models, has_more: resp.has_more }
    }
}

impl UnifiedMessageDelta {
    pub fn from_anthropic(d: AnthropicContentDelta) -> (r: UnifiedMessageDelta)
        ensures
            r.deep_view() == delta_from_anthropic(d.deep_view()),
    {
        match d {
            AnthropicContentDelta::TextDelta { text } => UnifiedMessageDelta {
                role: None,
                content: Some(text),
                tool_calls: None,
            },
            AnthropicContentDelta::InputJsonDelta { partial_json } => {
                let mut calls: Vec<UnifiedStreamingToolCall> = Vec::new();
                calls.push(
                    UnifiedStreamingToolCall::Delta {
                        index: 0,
                        function: UnifiedFunctionDelta { arguments: partial_json },
                    },
                );
                let r = UnifiedMessageDelta { role: None, content: None, tool_calls: Some(calls) };
                assert(r.deep_view().tool_calls->0 =~= delta_from_anthropic(d.deep_view()).tool_calls->0);
                r
            },
        }
    }
}

fn empty_message_delta() -> (r: UnifiedMessageDelta)
    ensures
        r.deep_view() == empty_delta(),
{
    UnifiedMessageDelta { role: None, content: None, tool_calls: None }
}

fn single_choice(delta: UnifiedMessageDelta, finish_reason: Option<UnifiedFinishReason>) -> (r: Vec<
    UnifiedChoiceDelta,
>)
    ensures
        r.deep_view() == one_choice(delta.deep_view(), finish_reason),
{
    let mut v: Vec<UnifiedChoiceDelta> = Vec::new();
    v.push(UnifiedChoiceDelta { index: 0, delta, finish_reason });
    assert(v.deep_view() =~= one_choice(delta.deep_view(), finish_reason));
    v
}

fn block_start_message_delta(index: u32, block: AnthropicContent) -> (r: UnifiedMessageDelta)
    ensures
        r.deep_view() == block_start_delta(index, block.deep_view()),
{
    match block {
        AnthropicContent::Text { text } => UnifiedMessageDelta {
            role: None,
            content: Some(text),
            tool_calls: None,
        },
        AnthropicContent::ToolUse { id, name, input } => {
            let arguments = to_json_text(&input);
            let mut calls: Vec<UnifiedStreamingToolCall> = Vec::new();
            calls.push(
                UnifiedStreamingToolCall::Start {
                    index: index as usize,
                    id,
                    function: UnifiedFunctionStart { name, arguments },
                },
            );
            let r = UnifiedMessageDelta { role: None, content: None, tool_calls: Some(calls) };
            assert(r.deep_view().tool_calls->0 =~= block_start_delta(index, block.deep_view()).tool_calls->0);
            r
        },
        _ => empty_message_delta(),
    }
}

fn reindex_deltas(calls: Vec<UnifiedStreamingToolCall>, index: usize) -> (r: Vec<UnifiedStreamingToolCall>)
    ensures
        r.deep_view() == calls.deep_view().map_values(|c: StreamingToolCallModel| at_index(c, index)),
{
    let ghost c0 = calls;
    let mut out: Vec<UnifiedStreamingToolCall> = Vec::new();
    for c in it: calls.into_iter()
        invariant
            it.seq() == c0@,
            out@.len() == it.index(),
            forall|j: int| 0 <= j < it.index() ==> out@[j].deep_view() == at_index(c0@[j].deep_view(), index),
    {
        let moved = match c {
            UnifiedStreamingToolCall::Delta { index: _, function } => UnifiedStreamingToolCall::Delta {
                index,
                function,
            },
            other => other,
        };
        out.push(moved);
    }
    assert(out.deep_view() =~= c0.deep_view().map_values(|c: StreamingToolCallModel| at_index(c, index)));
    out
}

impl UnifiedChunk {
    /// The unified chunk for an Anthropic streaming event.
    pub fn from_anthropic(event: AnthropicStreamEvent) -> (r: UnifiedChunk)
        requires
            event_usage_fits(event.deep_view()),
        ensures
            r.deep_view() == chunk_from_anthropic(event.deep_view()),
    {
        match event {
            AnthropicStreamEvent::MessageStart { message } => {
                let delta = UnifiedMessageDelta {
                    role: Some(UnifiedRole::Assistant),
                    content: None,
                    tool_calls: None,
                };
                UnifiedChunk {
                    id: message.id,
                    model: message.model,
                    choices: single_choice(delta, None),
                    usage: Some(UnifiedUsage::from_anthropic(message.usage)),
                    created: 0,
                }
            },
            AnthropicStreamEvent::ContentBlockStart { index, content_block } => UnifiedChunk {
                id: String::new(),
                model: String::new(),
                choices: single_choice(block_start_message_delta(index, content_block), None),
                usage: None,
                created: 0,
            },
            AnthropicStreamEvent::ContentBlockDelta { index, delta } => {
                let d = UnifiedMessageDelta::from_anthropic(delta);
                let tool_calls = match d.tool_calls {
                    Some(calls) => Some(reindex_deltas(calls, index as usize)),
                    None => None,
                };
                let fixed = UnifiedMessageDelta { role: d.role, content: d.content, tool_calls };
                assert(fixed.deep_view() == (MessageDeltaModel {
                    tool_calls: match d.deep_view().tool_calls {
                        Some(cs) => Some(cs.map_values(|c: StreamingToolCallModel| at_index(c, index as usize))),
                        None => None,
                    },
                    ..d.deep_view()
                }));
                UnifiedChunk {
                    id: String::new(),
                    model: String::new(),
                    choices: single_choice(fixed, None),
                    usage: None,
                    created: 0,
                }
            },
            AnthropicStreamEvent::MessageDelta { delta, usage } => {
                let finish = match delta.stop_reason {
                    Some(r) => Some(UnifiedFinishReason::from_anthropic(r)),
                    None => None,
                };
                UnifiedChunk {
                    id: String::new(),
                    model: String::new(),
                    choices: single_choice(empty_message_delta(), finish),
                    usage: Some(UnifiedUsage::from_anthropic(usage)),
                    created: 0,
                }
            },
            _ => {
                let choices: Vec<UnifiedChoiceDelta> = Vec::new();
                assert(choices.deep_view() =~= Seq::<ChoiceDeltaModel>::empty());
                UnifiedChunk { id: String::new(), model: String::new(), choices, usage: None, created: 0 }
            },
        }
    }
}

} // verus!
