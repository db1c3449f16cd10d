//! Conversions from the unified types to Anthropic protocol types.
use vstd::prelude::*;
use vstd::string::StringExecFns;

use crate::json::{Json, JsonValue, parse_json, serde_json_parse};
use crate::messages::anthropic::{
    AnthropicChatRequest, AnthropicChatResponse, AnthropicContent, AnthropicContentDelta,
    AnthropicImageSource, AnthropicMessage, AnthropicMessageModel, AnthropicMetadata,
    AnthropicModel, AnthropicModelModel, AnthropicModelsModel, AnthropicModelsResponse,
    AnthropicRequestModel, AnthropicResponseModel, AnthropicRole, AnthropicStopReason,
    AnthropicStreamEvent, AnthropicTool, AnthropicToolChoice, AnthropicToolChoiceModel,
    AnthropicToolModel, AnthropicToolResultContent, AnthropicUsage, BlockModel,
    ContentDeltaModel, ImageModel, StreamEventModel, ToolResultItemModel,
};
use crate::messages::unified::{
    ArgumentsModel, ChunkModel, ContainerModel, ContentModel, FunctionModel, ImageSourceModel,
    MessageModel, ModelInfo, ModelsModel, RequestModel, ResponseModel, StreamingToolCallModel,
    ToolCallModel, ToolChoiceModel, ToolResultModel, UnifiedArguments, UnifiedChunk,
    UnifiedContent, UnifiedContentContainer, UnifiedImageSource, UnifiedMessage, UnifiedModel,
    UnifiedModelsResponse, UnifiedRequest, UnifiedResponse, UnifiedRole, UnifiedStopReason,
    UnifiedStreamingToolCall, UnifiedTool, UnifiedToolCall, UnifiedToolChoice,
    UnifiedToolChoiceMode, UnifiedToolResultContent,
};
use crate::messages::openai::{Model, ModelsResponse, OpenAiModelInfo, OpenAiModelsModel};
use crate::seqs::{filter_map, lemma_filter_map_step};
use crate::text::str_eq;

verus! {

broadcast use vstd::std_specs::vec::group_vec_axioms;

/// Anthropic has no system or tool role in messages: both become `user`.
pub open spec fn role_to_anthropic(r: UnifiedRole) -> AnthropicRole {
    match r {
        UnifiedRole::Assistant => AnthropicRole::Assistant,
        _ => AnthropicRole::User,
    }
}

/// An image source in Anthropic form; a URL goes in `data`, typed `url`,
/// with media type `image/jpeg`.
pub open spec fn image_to_anthropic(s: ImageSourceModel) -> ImageModel {
    match s {
        ImageSourceModel::Base64 { media_type, data } => ImageModel {
            source_type: "base64"@,
            media_type,
            data,
        },
        ImageSourceModel::Url { url } => ImageModel {
            source_type: "url"@,
            media_type: "image/jpeg"@,
            data: url,
        },
    }
}

/// Tool-result content as Anthropic items: one text item per text.
pub open spec fn items_from_tool_result(c: ToolResultModel) -> Seq<ToolResultItemModel> {
    match c {
        ToolResultModel::Text(t) => seq![ToolResultItemModel::Text { text: t }],
        ToolResultModel::Multiple(ts) => ts.map_values(|t: Seq<char>| ToolResultItemModel::Text { text: t }),
    }
}

/// A block in Anthropic form; `is_error` has no Anthropic field and is dropped.
pub open spec fn content_to_anthropic(c: ContentModel) -> BlockModel {
    match c {
        ContentModel::Text { text } => BlockModel::Text { text },
        ContentModel::Image { source } => BlockModel::Image { source: image_to_anthropic(source) },
        ContentModel::ToolUse { id, name, input } => BlockModel::ToolUse { id, name, input },
        ContentModel::ToolResult { tool_use_id, content, .. } => BlockModel::ToolResult {
            tool_use_id,
            content: items_from_tool_result(content),
        },
    }
}

/// A message in Anthropic form: plain text becomes one text block; the
/// message's tool calls are not added (its `tool_use` blocks already carry them).
pub open spec fn message_to_anthropic(m: MessageModel) -> AnthropicMessageModel {
    AnthropicMessageModel {
        role: role_to_anthropic(m.role),
        content: match m.content {
            ContainerModel::Text(t) => seq![BlockModel::Text { text: t }],
            ContainerModel::Blocks(bs) => bs.map_values(|b: ContentModel| content_to_anthropic(b)),
        },
    }
}

pub open spec fn tool_to_anthropic(f: FunctionModel) -> AnthropicToolModel {
    AnthropicToolModel { name: f.name, description: f.description, input_schema: f.parameters }
}

/// A tool-choice mode in Anthropic form: `required` is `any`, and `none`
/// stays `none`, so that the model may not call tools.
pub open spec fn mode_to_anthropic(m: UnifiedToolChoiceMode) -> AnthropicToolChoiceModel {
    match m {
        UnifiedToolChoiceMode::Required => AnthropicToolChoiceModel::Any,
        UnifiedToolChoiceMode::Disabled => AnthropicToolChoiceModel::Disabled,
        UnifiedToolChoiceMode::Auto => AnthropicToolChoiceModel::Auto,
    }
}

pub open spec fn tool_choice_to_anthropic(c: ToolChoiceModel) -> AnthropicToolChoiceModel {
    match c {
        ToolChoiceModel::Mode(m) => mode_to_anthropic(m),
        ToolChoiceModel::Specific { name } => AnthropicToolChoiceModel::Tool { name },
    }
}

/// A request in Anthropic form; `max_tokens` defaults to 4096.
pub open spec fn request_to_anthropic(r: RequestModel) -> AnthropicRequestModel {
    AnthropicRequestModel {
        model: r.model,
        messages: r.messages.map_values(|m: MessageModel| message_to_anthropic(m)),
        max_tokens: match r.max_tokens {
            Some(n) => n,
            None => 4096,
        },
        system: r.system,
        temperature: r.temperature,
        top_p: r.top_p,
        top_k: r.top_k,
        stop_sequences: r.stop_sequences,
        stream: r.stream,
        metadata: r.metadata,
        tools: match r.tools {
            Some(ts) => Some(ts.map_values(|t: FunctionModel| tool_to_anthropic(t))),
            None => None,
        },
        tool_choice: match r.tool_choice {
            Some(c) => Some(tool_choice_to_anthropic(c)),
            None => None,
        },
    }
}

/// A JSON null as an empty object; any other value unchanged.
pub open spec fn normalize_input(v: Json) -> Json {
    if v is Null {
        Json::Object(Seq::empty())
    } else {
        v
    }
}

/// Tool arguments as JSON: a string is read as JSON text, null where that fails.
pub open spec fn arguments_json(a: ArgumentsModel) -> Json {
    match a {
        ArgumentsModel::String(s) => match serde_json_parse(s) {
            Some(v) => v,
            None => Json::Null,
        },
        ArgumentsModel::Value(v) => v,
    }
}

/// The arguments of a streamed tool call as JSON: empty text as an empty
/// object, text that is no JSON value as a string holding it.
pub open spec fn argument_json_from(raw: Seq<char>, parsed: Option<Json>) -> Json {
    if raw.len() == 0 {
        Json::Object(Seq::empty())
    } else {
        match parsed {
            Some(v) => v,
            None => Json::Str(raw),
        }
    }
}

/// A response block for a unified block; tool results have none.
pub open spec fn response_block(c: ContentModel) -> Option<BlockModel> {
    match c {
        ContentModel::ToolResult { .. } => None,
        _ => Some(content_to_anthropic(c)),
    }
}

/// A tool call as a `tool_use` block, its arguments read as JSON.
pub open spec fn call_block(c: ToolCallModel) -> BlockModel {
    BlockModel::ToolUse {
        id: c.id,
        name: c.function.name,
        input: normalize_input(arguments_json(c.function.arguments)),
    }
}

/// The blocks a response message's content gives: non-empty text, or the
/// blocks other than tool results.
pub open spec fn head_blocks(c: ContainerModel) -> Seq<BlockModel> {
    match c {
        ContainerModel::Text(t) => if t.len() > 0 {
            seq![BlockModel::Text { text: t }]
        } else {
            Seq::empty()
        },
        ContainerModel::Blocks(bs) => filter_map(bs, |b: ContentModel| response_block(b)),
    }
}

/// Whether `b` is a `tool_use` block with this id.
pub open spec fn is_use_with_id(b: BlockModel, id: Seq<char>) -> bool {
    match b {
        BlockModel::ToolUse { id: j, .. } => j == id,
        _ => false,
    }
}

/// Whether one of `bs` is a `tool_use` block with this id.
pub open spec fn has_use_id(bs: Seq<BlockModel>, id: Seq<char>) -> bool {
    exists|i: int| 0 <= i < bs.len() && is_use_with_id(#[trigger] bs[i], id)
}

/// The `tool_use` block a tool call adds to `head`: none when `head`
/// already has a `tool_use` block with its id (tool_use ids must be unique).
pub open spec fn extra_call_block(head: Seq<BlockModel>, c: ToolCallModel) -> Option<BlockModel> {
    if has_use_id(head, c.id) {
        None
    } else {
        Some(call_block(c))
    }
}

/// The content blocks of a response message: non-empty text or the blocks
/// other than tool results, then a `tool_use` block per tool call whose id
/// those blocks do not already hold.
pub open spec fn content_blocks(m: MessageModel) -> Seq<BlockModel> {
    let head = head_blocks(m.content);
    head + match m.tool_calls {
        Some(cs) => filter_map(cs, |c: ToolCallModel| extra_call_block(head, c)),
        None => Seq::empty(),
    }
}

pub open spec fn stop_to_anthropic(r: UnifiedStopReason) -> AnthropicStopReason {
    match r {
        UnifiedStopReason::EndTurn => AnthropicStopReason::EndTurn,
        UnifiedStopReason::MaxTokens => AnthropicStopReason::MaxTokens,
        UnifiedStopReason::StopSequence => AnthropicStopReason::StopSequence,
        UnifiedStopReason::ToolUse => AnthropicStopReason::ToolUse,
    }
}

/// A response in Anthropic form, with the content of the first choice.
pub open spec fn response_to_anthropic(r: ResponseModel) -> AnthropicResponseModel {
    AnthropicResponseModel {
        id: r.id,
        response_type: "message"@,
        role: AnthropicRole::Assistant,
        content: if r.choices.len() > 0 {
            content_blocks(r.choices[0].message)
        } else {
            Seq::empty()
        },
        model: r.model,
        stop_reason: match r.stop_reason {
            Some(s) => Some(stop_to_anthropic(s)),
            None => None,
        },
        stop_sequence: r.stop_sequence,
        usage: AnthropicUsage {
            input_tokens: r.usage.prompt_tokens as i32,
            output_tokens: r.usage.completion_tokens as i32,
        },
    }
}

pub open spec fn model_to_anthropic(m: ModelInfo) -> AnthropicModelModel {
    AnthropicModelModel {
        id: m.id,
        model_type: "model"@,
        display_name: m.display_name,
        created_at: m.created,
    }
}

pub open spec fn models_to_anthropic(r: ModelsModel) -> AnthropicModelsModel {
    AnthropicModelsModel {
        data: r.models.map_values(|m: ModelInfo| model_to_anthropic(m)),
        has_more: r.has_more,
    }
}

/// An OpenAI listing's model in Anthropic's listing: its id is also its
/// display name.
pub open spec fn openai_model_to_anthropic(m: OpenAiModelInfo) -> AnthropicModelModel {
    AnthropicModelModel { id: m.id, model_type: "model"@, display_name: m.id, created_at: m.created }
}

/// An OpenAI listing as Anthropic's: OpenAI does not paginate, so there
/// are never more models to fetch.
pub open spec fn openai_models_to_anthropic(r: OpenAiModelsModel) -> AnthropicModelsModel {
    AnthropicModelsModel {
        data: r.data.map_values(|m: OpenAiModelInfo| openai_model_to_anthropic(m)),
        has_more: false,
    }
}

/// The event for a piece of a streamed tool call.
pub open spec fn tool_call_event(c: StreamingToolCallModel) -> StreamEventModel {
    match c {
        StreamingToolCallModel::Start { index, id, name, arguments } =>
            StreamEventModel::ContentBlockStart {
            index: index as u32,
            content_block: BlockModel::ToolUse {
                id,
                name,
                input: normalize_input(argument_json_from(arguments, serde_json_parse(arguments))),
            },
        },
        StreamingToolCallModel::Delta { index, arguments } => StreamEventModel::ContentBlockDelta {
            index: index as u32,
            delta: ContentDeltaModel::InputJsonDelta { partial_json: arguments },
        },
    }
}

/// The event for a unified chunk: from its first choice, text first, else the
/// first tool call piece; a ping when there is neither.
pub open spec fn chunk_event(c: ChunkModel) -> StreamEventModel {
    if c.choices.len() == 0 {
        StreamEventModel::Ping
    } else {
        let choice = c.choices[0];
        match choice.delta.content {
            Some(text) => StreamEventModel::ContentBlockDelta {
                index: choice.index,
                delta: ContentDeltaModel::TextDelta { text },
            },
            None => match choice.delta.tool_calls {
                Some(cs) => if cs.len() > 0 {
                    tool_call_event(cs[0])
                } else {
                    StreamEventModel::Ping
                },
                None => StreamEventModel::Ping,
            },
        }
    }
}

impl AnthropicRole {
    pub fn from_unified(r: UnifiedRole) -> (a: AnthropicRole)
        ensures
            a == role_to_anthropic(r),
    {
        match r {
            UnifiedRole::Assistant => AnthropicRole::Assistant,
            _ => AnthropicRole::User,
        }
    }
}

impl AnthropicImageSource {
    pub fn from_unified(s: UnifiedImageSource) -> (r: AnthropicImageSource)
        ensures
            r.deep_view() == image_to_anthropic(s.deep_view()),
    {
        proof {
            reveal_strlit("base64");
            reveal_strlit("url");
            reveal_strlit("image/jpeg");
        }
        match s {
            UnifiedImageSource::Base64 { media_type, data } => AnthropicImageSource {
                source_type: String::from_str("base64"),
                media_type,
                data,
            },
            UnifiedImageSource::Url { url } => AnthropicImageSource {
                source_type: String::from_str("url"),
                media_type: String::from_str("image/jpeg"),
                data: url,
            },
        }
    }
}

fn items_from_vec(c: UnifiedToolResultContent) -> (r: Vec<AnthropicToolResultContent>)
    ensures
        r.deep_view() == items_from_tool_result(c.deep_view()),
{
    let ghost cv = c.deep_view();
    match c {
        UnifiedToolResultContent::Text(text) => {
            let mut v: Vec<AnthropicToolResultContent> = Vec::new();
            v.push(AnthropicToolResultContent::Text { text });
            assert(v.deep_view() =~= items_from_tool_result(cv));
            v
        },
        UnifiedToolResultContent::Multiple(texts) => {
            let ghost t0 = texts;
            let mut v: Vec<AnthropicToolResultContent> = Vec::new();
            for text in it: texts.into_iter()
                invariant
                    it.seq() == t0@,
                    v@.len() == it.index(),
                    forall|j: int|
                        0 <= j < it.index() ==> v@[j].deep_view() == (ToolResultItemModel::Text {
                            text: t0@[j]@,
                        }),
            {
                v.push(AnthropicToolResultContent::Text { text });
            }
            assert(v.deep_view() =~= items_from_tool_result(cv));
            v
        },
    }
}

impl AnthropicContent {
    pub fn from_unified(c: UnifiedContent) -> (r: AnthropicContent)
        ensures
            r.deep_view() == content_to_anthropic(c.deep_view()),
    {
        match c {
            UnifiedContent::Text { text } => AnthropicContent::Text { text },
            UnifiedContent::Image { source } => AnthropicContent::Image {
                source: AnthropicImageSource::from_unified(source),
            },
            UnifiedContent::ToolUse { id, name, input } => AnthropicContent::ToolUse { id, name, input },
            UnifiedContent::ToolResult { tool_use_id, content, is_error: _ } =>
                AnthropicContent::ToolResult { tool_use_id, content: items_from_vec(content) },
        }
    }
}

impl AnthropicMessage {
    /// The Anthropic form of a unified message; its tool calls are left out,
    /// as its `tool_use` blocks already carry them.
    pub fn from_unified(m: UnifiedMessage) -> (r: AnthropicMessage)
        ensures
            r.deep_view() == message_to_anthropic(m.deep_view()),
    {
        let ghost mv = m.deep_view();
        let role = AnthropicRole::from_unified(m.role);
        let content = match m.content {
            UnifiedContentContainer::Text(text) => {
                let mut v: Vec<AnthropicContent> = Vec::new();
                v.push(AnthropicContent::Text { text });
                assert(v.deep_view() =~= message_to_anthropic(mv).content);
                v
            },
            UnifiedContentContainer::Blocks(blocks) => {
                let ghost b0 = blocks;
                let mut v: Vec<AnthropicContent> = Vec::new();
                for b in it: blocks.into_iter()
                    invariant
                        it.seq() == b0@,
                        v@.len() == it.index(),
                        forall|j: int|
                            0 <= j < it.index() ==> v@[j].deep_view() == content_to_anthropic(
                                b0@[j].deep_view(),
                            ),
                {
                    v.push(AnthropicContent::from_unified(b));
                }
                assert(v.deep_view() =~= message_to_anthropic(mv).content);
                v
            },
        };
        AnthropicMessage { role, content }
    }
}

impl AnthropicTool {
    pub fn from_unified(t: UnifiedTool) -> (r: AnthropicTool)
        ensures
            r.deep_view() == tool_to_anthropic(t.deep_view()),
    {
        AnthropicTool {
            name: t.function.name,
            description: t.function.description,
            input_schema: t.function.parameters,
        }
    }
}

impl AnthropicToolChoice {
    pub fn from_unified_mode(m: UnifiedToolChoiceMode) -> (r: AnthropicToolChoice)
        ensures
            r.deep_view() == mode_to_anthropic(m),
    {
        match m {
            UnifiedToolChoiceMode::Required => AnthropicToolChoice::Any,
            UnifiedToolChoiceMode::Disabled => AnthropicToolChoice::Disabled,
            UnifiedToolChoiceMode::Auto => AnthropicToolChoice::Auto,
        }
    }

    pub fn from_unified(c: UnifiedToolChoice) -> (r: AnthropicToolChoice)
        ensures
            r.deep_view() == tool_choice_to_anthropic(c.deep_view()),
    {
        match c {
            UnifiedToolChoice::Mode(m) => AnthropicToolChoice::from_unified_mode(m),
            UnifiedToolChoice::Specific { function } => AnthropicToolChoice::Tool { name: function.name },
        }
    }
}

impl AnthropicChatRequest {
    /// The Anthropic form of a unified request; `max_tokens` defaults to 4096.
    pub fn from_unified(req: UnifiedRequest) -> (r: AnthropicChatRequest)
        ensures
            r.deep_view() == request_to_anthropic(req.deep_view()),
    {
        let ghost q = req.deep_view();
        let ghost m0 = req.messages;
        let mut messages: Vec<AnthropicMessage> = Vec::new();
        for m in it: req.messages.into_iter()
            invariant
                it.seq() == m0@,
                messages@.len() == it.index(),
                forall|j: int|
                    0 <= j < it.index() ==> messages@[j].deep_view() == message_to_anthropic(
                        m0@[j].deep_view(),
                    ),
        {
            messages.push(AnthropicMessage::from_unified(m));
        }
        assert(messages.deep_view() =~= request_to_anthropic(q).messages);
        let tools = match req.tools {
            Some(ts) => {
                let ghost t0 = ts;
                let mut v: Vec<AnthropicTool> = Vec::new();
                for t in it: ts.into_iter()
                    invariant
                        it.seq() == t0@,
                        v@.len() == it.index(),
                        forall|j: int|
                            0 <= j < it.index() ==> v@[j].deep_view() == tool_to_anthropic(
                                t0@[j].deep_view(),
                            ),
                {
                    v.push(AnthropicTool::from_unified(t));
                }
                assert(v.deep_view() =~= t0.deep_view().map_values(
                    |t: FunctionModel| tool_to_anthropic(t),
                ));
                Some(v)
            },
            None => None,
        };
        let tool_choice = match req.tool_choice {
            Some(c) => Some(AnthropicToolChoice::from_unified(c)),
            None => None,
        };
        let metadata = match req.metadata {
            Some(m) => Some(AnthropicMetadata { user_id: m.user_id }),
            None => None,
        };
        let max_tokens = match req.max_tokens {
            Some(n) => n,
            None => 4096,
        };
        AnthropicChatRequest {
            model: req.model,
            messages,
            max_tokens,
            system: req.system,
            temperature: req.temperature,
            top_p: req.top_p,
            top_k: req.top_k,
            stop_sequences: req.stop_sequences,
            stream: req.stream,
            metadata,
            tools,
            tool_choice,
        }
    }
}

/// A JSON null as an empty object; any other value unchanged.
pub fn normalize_tool_input(v: JsonValue) -> (r: JsonValue)
    ensures
        r.deep_view() == normalize_input(v.deep_view()),
{
    if v.is_null() {
        JsonValue::empty_object()
    } else {
        v
    }
}

/// The parsed value, or null where there is none.
pub fn json_or_null(parsed: Option<JsonValue>) -> (r: JsonValue)
    ensures
        r.deep_view() == match parsed.deep_view() {
            Some(v) => v,
            None => Json::Null,
        },
{
    match parsed {
        Some(v) => v,
        None => JsonValue::Null,
    }
}

/// Tool arguments as a JSON value: a string is read as JSON, null where
/// `serde_json` does not read it.
pub fn arguments_value(a: UnifiedArguments) -> (r: JsonValue)
    ensures
        r.deep_view() == arguments_json(a.deep_view()),
{
    match a {
        UnifiedArguments::String(s) => json_or_null(parse_json(s.as_str())),
        UnifiedArguments::Value(v) => v,
    }
}

/// The arguments of a streamed tool call, given what `serde_json` read from
/// them: empty text is an empty object, unreadable text a string holding it.
pub fn argument_value_from(raw: &str, parsed: Option<JsonValue>) -> (r: JsonValue)
    ensures
        r.deep_view() == argument_json_from(raw@, parsed.deep_view()),
{
    if raw.is_empty() {
        JsonValue::empty_object()
    } else {
        match parsed {
            Some(v) => v,
            None => JsonValue::Str(String::from_str(raw)),
        }
    }
}

/// Reads the arguments of a streamed tool call as JSON: empty text as an
/// empty object, text `serde_json` does not read as a string holding it.
pub fn parse_argument_string(raw: &str) -> (r: JsonValue)
    ensures
        r.deep_view() == argument_json_from(raw@, serde_json_parse(raw@)),
{
    if raw.is_empty() {
        return JsonValue::empty_object();
    }
    argument_value_from(raw, parse_json(raw))
}

/// Whether one of the first `n` blocks of `blocks` is a `tool_use` block
/// with this id.
fn has_tool_use_id(blocks: &Vec<AnthropicContent>, n: usize, id: &str) -> (r: bool)
    requires
        n <= blocks.len(),
    ensures
        r == has_use_id(blocks.deep_view().take(n as int), id@),
{
    let ghost bs = blocks.deep_view().take(n as int);
    let mut k: usize = 0;
    while k < n
        invariant
            n <= blocks.len(),
            bs == blocks.deep_view().take(n as int),
            0 <= k <= n,
            forall|j: int|
                0 <= j < k ==> !is_use_with_id(#[trigger] bs[j], id@),
        decreases n - k,
    {
        assert(bs[k as int] == blocks@[k as int].deep_view());
        if let AnthropicContent::ToolUse { id: i, .. } = &blocks[k] {
            if str_eq(i.as_str(), id) {
                return true;
            }
        }
        k = k + 1;
    }
    false
}

/// The content blocks of a response message: its text when not empty, or
/// its blocks other than tool results; then a `tool_use` block per tool
/// call whose id those blocks do not already hold.
pub fn build_content_blocks(message: UnifiedMessage) -> (r: Vec<AnthropicContent>)
    ensures
        r.deep_view() == content_blocks(message.deep_view()),
{
    let ghost mv = message.deep_view();
    let mut out: Vec<AnthropicContent> = Vec::new();
    match message.content {
        UnifiedContentContainer::Text(text) => {
            if !text.as_str().is_empty() {
                out.push(AnthropicContent::Text { text });
            }
        },
        UnifiedContentContainer::Blocks(blocks) => {
            let ghost b0 = blocks;
            let ghost bs = blocks.deep_view();
            let ghost f = |b: ContentModel| response_block(b);
            assert(bs.take(0) =~= Seq::<ContentModel>::empty());
            assert(out.deep_view() =~= filter_map(bs.take(0), f));
            for b in it: blocks.into_iter()
                invariant
                    it.seq() == b0@,
                    bs == b0.deep_view(),
                    f == (|b: ContentModel| response_block(b)),
                    out.deep_view() == filter_map(bs.take(it.index() as int), f),
            {
                proof {
                    lemma_filter_map_step(bs, f, it.index() as int);
                }
                match b {
                    UnifiedContent::ToolResult { .. } => {},
                    other => {
                        let c = AnthropicContent::from_unified(other);
                        let ghost before = out.deep_view();
                        out.push(c);
                        assert(out.deep_view() =~= before.push(c.deep_view()));
                    },
                }
            }
            assert(bs.take(bs.len() as int) =~= bs);
        },
    }
    let ghost head = out.deep_view();
    assert(head == head_blocks(mv.content));
    let head_len = out.len();
    proof {
        reveal_strlit("");
    }
    match message.tool_calls {
        Some(calls) => {
            let ghost c0 = calls;
            let ghost cs = calls.deep_view();
            let ghost g = |c: ToolCallModel| extra_call_block(head, c);
            assert(cs.take(0) =~= Seq::<ToolCallModel>::empty());
            assert(out.deep_view() =~= head + filter_map(cs.take(0), g));
            for call in it: calls.into_iter()
                invariant
                    it.seq() == c0@,
                    cs == c0.deep_view(),
                    head_len == head.len(),
                    g == (|c: ToolCallModel| extra_call_block(head, c)),
                    out.deep_view() == head + filter_map(cs.take(it.index() as int), g),
            {
                proof {
                    lemma_filter_map_step(cs, g, it.index() as int);
                    assert(out.deep_view().take(head_len as int) =~= head);
                    assert(out.deep_view().len() == out@.len());
                }
                let ghost cv = call.deep_view();
                let UnifiedToolCall { id, function } = call;
                if !has_tool_use_id(&out, head_len, id.as_str()) {
                    let input = normalize_tool_input(arguments_value(function.arguments));
                    let ghost before = out.deep_view();
                    let block = AnthropicContent::ToolUse { id, name: function.name, input };
                    assert(block.deep_view() == call_block(cv));
                    out.push(block);
                    assert(out.deep_view() =~= before.push(call_block(cv)));
                }
            }
            assert(cs.take(cs.len() as int) =~= cs);
        },
        None => {
            assert(out.deep_view() =~= head + Seq::<BlockModel>::empty());
        },
    }
    out
}

impl AnthropicChatResponse {
    /// The Anthropic form of a unified response: the content of its first
    /// choice (none without choices); token counts are cast to `i32`.
    pub fn from_unified(resp: UnifiedResponse) -> (r: AnthropicChatResponse)
        ensures
            r.deep_view() == response_to_anthropic(resp.deep_view()),
    {
        let ghost q = resp.deep_view();
        proof {
            reveal_strlit("message");
        }
        let mut choices = resp.choices;
        let content = if choices.len() > 0 {
            let first = choices.remove(0);
            build_content_blocks(first.message)
        } else {
            let v: Vec<AnthropicContent> = Vec::new();
            assert(v.deep_view() =~= Seq::<BlockModel>::empty());
            v
        };
        let stop_reason = match resp.stop_reason {
            Some(UnifiedStopReason::EndTurn) => Some(AnthropicStopReason::EndTurn),
            Some(UnifiedStopReason::MaxTokens) => Some(AnthropicStopReason::MaxTokens),
            Some(UnifiedStopReason::StopSequence) => Some(AnthropicStopReason::StopSequence),
            Some(UnifiedStopReason::ToolUse) => Some(AnthropicStopReason::ToolUse),
            None => None,
        };
        AnthropicChatResponse {
            id: resp.id,
            response_type: String::from_str("message"),
            role: AnthropicRole::Assistant,
            content,
            model: resp.model,
            stop_reason,
            stop_sequence: resp.stop_sequence,
            usage: AnthropicUsage {
                input_tokens: resp.usage.prompt_tokens as i32,
                output_tokens: resp.usage.completion_tokens as i32,
            },
        }
    }
}

impl AnthropicModel {
    pub fn from_unified(m: UnifiedModel) -> (r: AnthropicModel)
        ensures
            r.deep_view() == model_to_anthropic(m.deep_view()),
    {
        AnthropicModel {
            id: m.id,
            model_type: String::from_str("model"),
            display_name: m.display_name,
            created_at: m.created,
        }
    }
}

impl AnthropicModel {
    pub fn from_openai(m: Model) -> (r: AnthropicModel)
        ensures
            r.deep_view() == openai_model_to_anthropic(m.deep_view()),
    {
        let display_name = m.id.clone();
        AnthropicModel {
            id: m.id,
            model_type: String::from_str("model"),
            display_name,
            created_at: m.created,
        }
    }
}

impl AnthropicModelsResponse {
    pub fn from_openai(r: ModelsResponse) -> (a: AnthropicModelsResponse)
        ensures
            a.deep_view() == openai_models_to_anthropic(r.deep_view()),
    {
        let ghost m0 = r.data;
        let mut data: Vec<AnthropicModel> = Vec::new();
        for m in it: r.data.into_iter()
            invariant
                it.seq() == m0@,
                data@.len() == it.index(),
                forall|j: int|
                    0 <= j < it.index() ==> data@[j].deep_view() == openai_model_to_anthropic(
                        m0@[j].deep_view(),
                    ),
        {
            data.push(AnthropicModel::from_openai(m));
        }
        assert(data.deep_view() =~= m0.deep_view().map_values(
            |m: OpenAiModelInfo| openai_model_to_anthropic(m),
        ));
        AnthropicModelsResponse { data, has_more: false }
    }

    pub fn from_unified(r: UnifiedModelsResponse) -> (a: AnthropicModelsResponse)
        ensures
            a.deep_view() == models_to_anthropic(r.deep_view()),
    {
        let ghost m0 = r.models;
        let mut data: Vec<AnthropicModel> = Vec::new();
        for m in it: r.models.into_iter()
            invariant
                it.seq() == m0@,
                data@.len() == it.index(),
                forall|j: int|
                    0 <= j < it.index() ==> data@[j].deep_view() == model_to_anthropic(
                        m0@[j].deep_view(),
                    ),
        {
            data.push(AnthropicModel::from_unified(m));
        }
        assert(data.deep_view() =~= m0.deep_view().map_values(|m: ModelInfo| model_to_anthropic(m)));
        AnthropicModelsResponse { data, has_more: r.has_more }
    }
}

impl AnthropicStreamEvent {
    /// The event for a piece of a streamed tool call: a start opens a
    /// `tool_use` block with the arguments read as JSON, a delta continues
    /// its input JSON.
    pub fn from_tool_call(c: UnifiedStreamingToolCall) -> (r: AnthropicStreamEvent)
        ensures
            r.deep_view() == tool_call_event(c.deep_view()),
    {
        match c {
            UnifiedStreamingToolCall::Start { index, id, function } => {
                let input = normalize_tool_input(parse_argument_string(function.arguments.as_str()));
                AnthropicStreamEvent::ContentBlockStart {
                    index: index as u32,
                    content_block: AnthropicContent::ToolUse { id, name: function.name, input },
                }
            },
            UnifiedStreamingToolCall::Delta { index, function } => AnthropicStreamEvent::ContentBlockDelta {
                index: index as u32,
                delta: AnthropicContentDelta::InputJsonDelta { partial_json: function.arguments },
            },
        }
    }

    /// The event for a unified chunk: its first choice's text, else its first
    /// tool call piece, else a ping.
    pub fn from_unified_chunk(chunk: UnifiedChunk) -> (r: AnthropicStreamEvent)
        ensures
            r.deep_view() == chunk_event(chunk.deep_view()),
    {
        let mut choices = chunk.choices;
        if choices.len() == 0 {
            return AnthropicStreamEvent::Ping;
        }
        let choice = choices.remove(0);
        match choice.delta.content {
            Some(text) => AnthropicStreamEvent::ContentBlockDelta {
                index: choice.index,
                delta: AnthropicContentDelta::TextDelta { text },
            },
            None => match choice.delta.tool_calls {
                Some(calls) => {
                    let mut calls = calls;
                    if calls.len() > 0 {
                        AnthropicStreamEvent::from_tool_call(calls.remove(0))
                    } else {
                        AnthropicStreamEvent::Ping
                    }
                },
                None => AnthropicStreamEvent::Ping,
            },
        }
    }
}

} // verus!
