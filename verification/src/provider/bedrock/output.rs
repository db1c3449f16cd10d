//! Decoding of Bedrock Converse API responses and stream events.
//!
//! The Converse types here hold what the library reads of the SDK's types;
//! documents are JSON values.
use vstd::prelude::*;
use vstd::string::StringExecFns;

use crate::json::{Json, JsonValue, serde_json_text, to_json_text};
use crate::messages::unified::{
    ChoiceDeltaModel, ChoiceModel, ChunkModel, ContainerModel, ContentModel, MessageDeltaModel,
    MessageModel, ResponseModel, StreamingToolCallModel, ToolResultModel, UnifiedChoice,
    UnifiedChoiceDelta, UnifiedChunk, UnifiedContent, UnifiedContentContainer,
    UnifiedFinishReason, UnifiedFunctionDelta, UnifiedFunctionStart, UnifiedMessage,
    UnifiedMessageDelta, UnifiedResponse, UnifiedRole, UnifiedStreamingToolCall,
    UnifiedToolResultContent, UnifiedUsage,
};
use crate::seqs::{join, join_strings};
use crate::sys::{unix_time_secs, uuid_v4_text};
use crate::text::{concat2, concat3};

verus! {

broadcast use vstd::std_specs::vec::group_vec_axioms;

/// Why a Converse response stopped; reasons the library does not know are kept.
#[derive(Debug)]
pub enum ConverseStopReason {
    EndTurn,
    MaxTokens,
    StopSequence,
    ToolUse,
    ContentFiltered,
    GuardrailIntervened,
    Other(String),
}

pub enum StopModel {
    EndTurn,
    MaxTokens,
    StopSequence,
    ToolUse,
    ContentFiltered,
    GuardrailIntervened,
    Other(Seq<char>),
}

impl DeepView for ConverseStopReason {
    type V = StopModel;

    open spec fn deep_view(&self) -> StopModel {
        match self {
            ConverseStopReason::EndTurn => StopModel::EndTurn,
            ConverseStopReason::MaxTokens => StopModel::MaxTokens,
            ConverseStopReason::StopSequence => StopModel::StopSequence,
            ConverseStopReason::ToolUse => StopModel::ToolUse,
            ConverseStopReason::ContentFiltered => StopModel::ContentFiltered,
            ConverseStopReason::GuardrailIntervened => StopModel::GuardrailIntervened,
            ConverseStopReason::Other(s) => StopModel::Other(s@),
        }
    }
}

/// Token counts of a Converse call.
#[derive(Debug, Clone, Copy, PartialEq, Eq, Structural)]
pub struct ConverseTokenUsage {
    pub input_tokens: i32,
    pub output_tokens: i32,
    pub total_tokens: i32,
}

/// The status of a tool result.
#[derive(Debug, Clone, Copy, PartialEq, Eq, Structural)]
pub enum ToolResultStatus {
    Success,
    Error,
}

/// One item of a tool result.
#[derive(Debug)]
pub enum ToolResultItem {
    Text(String),
    Json(JsonValue),
    Document,
    Image,
    Video,
    Unknown,
}

pub enum ResultItemModel {
    Text(Seq<char>),
    Json(Json),
    Document,
    Image,
    Video,
    Unknown,
}

impl DeepView for ToolResultItem {
    type V = ResultItemModel;

    open spec fn deep_view(&self) -> ResultItemModel {
        match self {
            ToolResultItem::Text(t) => ResultItemModel::Text(t@),
            ToolResultItem::Json(j) => ResultItemModel::Json(j.deep_view()),
            ToolResultItem::Document => ResultItemModel::Document,
            ToolResultItem::Image => ResultItemModel::Image,
            ToolResultItem::Video => ResultItemModel::Video,
            ToolResultItem::Unknown => ResultItemModel::Unknown,
        }
    }
}

/// A content block of a Converse message.
#[derive(Debug)]
pub enum ContentBlock {
    Text(String),
    ToolUse { tool_use_id: String, name: String, input: JsonValue },
    ToolResult { tool_use_id: String, content: Vec<ToolResultItem>, status: Option<ToolResultStatus> },
    /// Block kinds the library does not read.
    Other,
}

pub enum BlockModelB {
    Text(Seq<char>),
    ToolUse { tool_use_id: Seq<char>, name: Seq<char>, input: Json },
    ToolResult { tool_use_id: Seq<char>, content: Seq<ResultItemModel>, status: Option<ToolResultStatus> },
    Other,
}

impl DeepView for ContentBlock {
    type V = BlockModelB;

    open spec fn deep_view(&self) -> BlockModelB {
        match self {
            ContentBlock::Text(t) => BlockModelB::Text(t@),
            ContentBlock::ToolUse { tool_use_id, name, input } => BlockModelB::ToolUse {
                tool_use_id: tool_use_id@,
                name: name@,
                input: input.deep_view(),
            },
            ContentBlock::ToolResult { tool_use_id, content, status } => BlockModelB::ToolResult {
                tool_use_id: tool_use_id@,
                content: content.deep_view(),
                status: *status,
            },
            ContentBlock::Other => BlockModelB::Other,
        }
    }
}

/// A Converse response: the message's blocks (`None` where the output holds
/// no message), why it stopped, and the usage.
#[derive(Debug)]
pub struct ConverseResponse {
    pub message: Option<Vec<ContentBlock>>,
    pub stop_reason: ConverseStopReason,
    pub usage: Option<ConverseTokenUsage>,
}

pub struct ConverseResponseModel {
    pub message: Option<Seq<BlockModelB>>,
    pub stop_reason: StopModel,
    pub usage: Option<ConverseTokenUsage>,
}

impl DeepView for ConverseResponse {
    type V = ConverseResponseModel;

    open spec fn deep_view(&self) -> ConverseResponseModel {
        ConverseResponseModel {
            message: self.message.deep_view(),
            stop_reason: self.stop_reason.deep_view(),
            usage: self.usage,
        }
    }
}

/// The start of a streamed block.
#[derive(Debug)]
pub enum BlockStart {
    ToolUse { tool_use_id: String, name: String },
    Other,
}

/// New content of a streamed block.
#[derive(Debug)]
pub enum BlockDelta {
    Text(String),
    ToolUse { input: String },
    Other,
}

/// A Converse stream event.
#[derive(Debug)]
pub enum ConverseStreamEvent {
    MessageStart,
    ContentBlockStart { start: Option<BlockStart> },
    ContentBlockDelta { delta: Option<BlockDelta> },
    ContentBlockStop,
    MessageStop { stop_reason: ConverseStopReason },
    Metadata { usage: Option<ConverseTokenUsage> },
    Unknown,
}

pub enum StreamEventModelB {
    MessageStart,
    ToolStart { tool_use_id: Seq<char>, name: Seq<char> },
    TextDelta { text: Seq<char> },
    ToolDelta { input: Seq<char> },
    MessageStop { stop_reason: StopModel },
    Metadata { usage: Option<ConverseTokenUsage> },
    /// Starts other than tool use, deltas of other kinds or missing, block
    /// stops and unknown events.
    Skipped,
}

impl DeepView for ConverseStreamEvent {
    type V = StreamEventModelB;

    open spec fn deep_view(&self) -> StreamEventModelB {
        match self {
            ConverseStreamEvent::MessageStart => StreamEventModelB::MessageStart,
            ConverseStreamEvent::ContentBlockStart { start } => match start {
                Some(BlockStart::ToolUse { tool_use_id, name }) => StreamEventModelB::ToolStart {
                    tool_use_id: tool_use_id@,
                    name: name@,
                },
                _ => StreamEventModelB::Skipped,
            },
            ConverseStreamEvent::ContentBlockDelta { delta } => match delta {
                Some(BlockDelta::Text(t)) => StreamEventModelB::TextDelta { text: t@ },
                Some(BlockDelta::ToolUse { input }) => StreamEventModelB::ToolDelta { input: input@ },
                _ => StreamEventModelB::Skipped,
            },
            ConverseStreamEvent::MessageStop { stop_reason } => StreamEventModelB::MessageStop {
                stop_reason: stop_reason.deep_view(),
            },
            ConverseStreamEvent::Metadata { usage } => StreamEventModelB::Metadata { usage: *usage },
            _ => StreamEventModelB::Skipped,
        }
    }
}

/// A stop reason as a finish reason; filtered or guardrail-stopped content
/// is a content filter, unknown reasons `stop`.
pub open spec fn finish_of_converse(r: StopModel) -> UnifiedFinishReason {
    match r {
        StopModel::MaxTokens => UnifiedFinishReason::Length,
        StopModel::ToolUse => UnifiedFinishReason::ToolCalls,
        StopModel::ContentFiltered => UnifiedFinishReason::ContentFilter,
        StopModel::GuardrailIntervened => UnifiedFinishReason::ContentFilter,
        _ => UnifiedFinishReason::Stop,
    }
}

pub fn stop_reason_to_unified(r: ConverseStopReason) -> (f: UnifiedFinishReason)
    ensures
        f == finish_of_converse(r.deep_view()),
{
    match r {
        ConverseStopReason::MaxTokens => UnifiedFinishReason::Length,
        ConverseStopReason::ToolUse => UnifiedFinishReason::ToolCalls,
        ConverseStopReason::ContentFiltered => UnifiedFinishReason::ContentFilter,
        ConverseStopReason::GuardrailIntervened => UnifiedFinishReason::ContentFilter,
        _ => UnifiedFinishReason::Stop,
    }
}

/// Usage in unified form: each count cast to `u32`.
pub open spec fn usage_of_converse(u: ConverseTokenUsage) -> UnifiedUsage {
    UnifiedUsage {
        prompt_tokens: u.input_tokens as u32,
        completion_tokens: u.output_tokens as u32,
        total_tokens: u.total_tokens as u32,
    }
}

fn unified_usage(u: ConverseTokenUsage) -> (r: UnifiedUsage)
    ensures
        r == usage_of_converse(u),
{
    UnifiedUsage {
        prompt_tokens: u.input_tokens as u32,
        completion_tokens: u.output_tokens as u32,
        total_tokens: u.total_tokens as u32,
    }
}

// ---------------------------------------------------------------------------
// Documents as text
// ---------------------------------------------------------------------------

/// The text a document is rendered as in tool results: null is `{}`, strings
/// are JSON string literals (as `serde_json` writes them), arrays `[a,b]`,
/// objects `{"k": v,...}` with keys as they are.
pub open spec fn document_text(v: Json) -> Seq<char>
    decreases v,
{
    match v {
        Json::Null => "{}"@,
        Json::Bool(b) => if b {
            "true"@
        } else {
            "false"@
        },
        Json::Number(n) => n,
        Json::Str(s) => serde_json_text(Json::Str(s)),
        Json::Array(items) => "["@ + join(items_document_text(items), ","@) + "]"@,
        Json::Object(ms) => "{"@ + join(members_document_text(ms), ","@) + "}"@,
    }
}

pub open spec fn items_document_text(items: Seq<Json>) -> Seq<Seq<char>>
    decreases items,
{
    if items.len() == 0 {
        Seq::empty()
    } else {
        proof {
            broadcast use vstd::seq::axiom_seq_index_decreases, vstd::seq::axiom_seq_subrange_decreases;
        }
        items_document_text(items.drop_last()).push(document_text(items.last()))
    }
}

pub open spec fn members_document_text(ms: Seq<(Seq<char>, Json)>) -> Seq<Seq<char>>
    decreases ms,
{
    if ms.len() == 0 {
        Seq::empty()
    } else {
        proof {
            broadcast use vstd::seq::axiom_seq_index_decreases, vstd::seq::axiom_seq_subrange_decreases;
        }
        members_document_text(ms.drop_last()).push(
            "\""@ + ms.last().0 + "\": "@ + document_text(ms.last().1),
        )
    }
}

/// Renders a document as tool results show it (see `document_text`).
pub fn document_to_string(doc: &JsonValue) -> (r: String)
    ensures
        r@ == document_text(doc.deep_view()),
    decreases doc, 1nat,
{
    proof {
        reveal_strlit("{}");
        reveal_strlit("true");
        reveal_strlit("false");
        reveal_strlit("[");
        reveal_strlit("]");
        reveal_strlit("{");
        reveal_strlit("}");
        reveal_strlit(",");
    }
    match doc {
        JsonValue::Null => String::from_str("{}"),
        JsonValue::Bool(b) => if *b {
            String::from_str("true")
        } else {
            String::from_str("false")
        },
        JsonValue::Number(n) => n.clone(),
        JsonValue::Str(s) => to_json_text(&JsonValue::Str(s.clone())),
        JsonValue::Array(items) => {
            let parts = items_to_strings(items);
            proof {
                crate::json::lemma_array_view(*items);
            }
            let inner = join_strings(&parts, ",");
            concat3("[", inner.as_str(), "]")
        },
        JsonValue::Object(ms) => {
            let parts = members_to_strings(ms);
            proof {
                crate::json::lemma_object_view(*ms);
            }
            let inner = join_strings(&parts, ",");
            concat3("{", inner.as_str(), "}")
        },
    }
}

fn items_to_strings(items: &Vec<JsonValue>) -> (r: Vec<String>)
    ensures
        r.deep_view() == items_document_text(items.deep_view()),
    decreases items, 0nat,
{
    let ghost iv = items.deep_view();
    let mut out: Vec<String> = Vec::new();
    let mut k: usize = 0;
    assert(iv.take(0) =~= Seq::<Json>::empty());
    assert(out.deep_view() =~= Seq::<Seq<char>>::empty());
    while k < items.len()
        invariant
            0 <= k <= items.len(),
            iv == items.deep_view(),
            out.deep_view() == items_document_text(iv.take(k as int)),
        decreases items.len() - k,
    {
        proof {
            vstd::std_specs::vec::axiom_vec_index_decreases(*items, k as int);
            assert(iv.take(k + 1).drop_last() =~= iv.take(k as int));
        }
        let t = document_to_string(&items[k]);
        let ghost before = out.deep_view();
        out.push(t);
        assert(out.deep_view() =~= before.push(document_text(iv[k as int])));
        k = k + 1;
    }
    assert(iv.take(items.len() as int) =~= iv);
    out
}

fn members_to_strings(ms: &Vec<(String, JsonValue)>) -> (r: Vec<String>)
    ensures
        r.deep_view() == members_document_text(crate::json::members_view(ms@)),
    decreases ms, 0nat,
{
    proof {
        reveal_strlit("\"");
        reveal_strlit("\": ");
    }
    let ghost mv = crate::json::members_view(ms@);
    let mut out: Vec<String> = Vec::new();
    let mut k: usize = 0;
    assert(mv.take(0) =~= Seq::<(Seq<char>, Json)>::empty());
    assert(out.deep_view() =~= Seq::<Seq<char>>::empty());
    while k < ms.len()
        invariant
            0 <= k <= ms.len(),
            mv == crate::json::members_view(ms@),
            out.deep_view() == members_document_text(mv.take(k as int)),
        decreases ms.len() - k,
    {
        proof {
            vstd::std_specs::vec::axiom_vec_index_decreases(*ms, k as int);
            assert(decreases_to!(ms[k as int] => ms[k as int].1));
            assert(mv.take(k + 1).drop_last() =~= mv.take(k as int));
        }
        let v = document_to_string(&ms[k].1);
        let head = concat3("\"", ms[k].0.as_str(), "\": ");
        let t = concat2(head.as_str(), v.as_str());
        let ghost before = out.deep_view();
        out.push(t);
        assert(out.deep_view() =~= before.push("\""@ + mv[k as int].0 + "\": "@ + document_text(mv[k as int].1)));
        k = k + 1;
    }
    assert(mv.take(ms.len() as int) =~= mv);
    out
}

/// The text a tool-result item contributes: text as is, a JSON document
/// rendered, and a placeholder for other kinds.
pub open spec fn item_piece(i: ResultItemModel) -> Seq<char> {
    match i {
        ResultItemModel::Text(t) => t,
        ResultItemModel::Json(j) => document_text(j),
        ResultItemModel::Document => "[Document tool result]"@,
        ResultItemModel::Image => "[Image tool result]"@,
        ResultItemModel::Video => "[Video tool result]"@,
        ResultItemModel::Unknown => "[Unknown tool result]"@,
    }
}

/// A tool result block in unified form: no items is empty text, one its
/// piece, several the list; the status says whether it is an error.
pub open spec fn tool_result_of(id: Seq<char>, items: Seq<ResultItemModel>, status: Option<ToolResultStatus>) -> ContentModel {
    let pieces = items.map_values(|i: ResultItemModel| item_piece(i));
    ContentModel::ToolResult {
        tool_use_id: id,
        content: if pieces.len() == 0 {
            ToolResultModel::Text(Seq::empty())
        } else if pieces.len() == 1 {
            ToolResultModel::Text(pieces[0])
        } else {
            ToolResultModel::Multiple(pieces)
        },
        is_error: match status {
            Some(s) => Some(s == ToolResultStatus::Error),
            None => None,
        },
    }
}

/// A response block in unified form; kinds the library does not read are dropped.
pub open spec fn unified_of_block(b: BlockModelB) -> Option<ContentModel> {
    match b {
        BlockModelB::Text(t) => Some(ContentModel::Text { text: t }),
        BlockModelB::ToolUse { tool_use_id, name, input } => Some(
            ContentModel::ToolUse { id: tool_use_id, name, input },
        ),
        BlockModelB::ToolResult { tool_use_id, content, status } => Some(tool_result_of(tool_use_id, content, status)),
        BlockModelB::Other => None,
    }
}

/// A Converse response in unified form, with the given id and creation time:
/// one assistant choice holding the message's blocks (none without a
/// message); usage zero when not reported.
pub open spec fn response_of_converse(r: ConverseResponseModel, id: Seq<char>, created: u64) -> ResponseModel {
    ResponseModel {
        id,
        model: Seq::empty(),
        choices: seq![
            ChoiceModel {
                index: 0,
                message: MessageModel {
                    role: UnifiedRole::Assistant,
                    content: ContainerModel::Blocks(
                        match r.message {
                            Some(bs) => crate::seqs::filter_map(bs, |b: BlockModelB| unified_of_block(b)),
                            None => Seq::empty(),
                        },
                    ),
                    tool_calls: None,
                    tool_call_id: None,
                },
                finish_reason: Some(finish_of_converse(r.stop_reason)),
            },
        ],
        usage: match r.usage {
            Some(u) => usage_of_converse(u),
            None => UnifiedUsage { prompt_tokens: 0, completion_tokens: 0, total_tokens: 0 },
        },
        created,
        stop_reason: None,
        stop_sequence: None,
    }
}

/// Whether `id` is a generated Bedrock id: `bedrock-` and a UUID's 36 characters.
pub open spec fn bedrock_id(id: Seq<char>) -> bool {
    id.len() == 44 && id.take(8) == "bedrock-"@
}

pub open spec fn delta_chunk(id: Seq<char>, created: u64, delta: MessageDeltaModel, finish: Option<UnifiedFinishReason>) -> ChunkModel {
    ChunkModel {
        id,
        model: Seq::empty(),
        choices: seq![ChoiceDeltaModel { index: 0, delta, finish_reason: finish }],
        usage: None,
        created,
    }
}

/// The unified chunk for a stream event, with the given id and creation
/// time; `None` for events that give no chunk (block stops, starts other than
/// tool use, other or missing deltas, metadata without usage, unknown events).
pub open spec fn chunk_of_converse(e: StreamEventModelB, id: Seq<char>, created: u64) -> Option<ChunkModel> {
    match e {
        StreamEventModelB::MessageStart => Some(
            delta_chunk(id, created, MessageDeltaModel { role: Some(UnifiedRole::Assistant), content: None, tool_calls: None }, None),
        ),
        StreamEventModelB::TextDelta { text } => Some(
            delta_chunk(id, created, MessageDeltaModel { role: None, content: Some(text), tool_calls: None }, None),
        ),
        StreamEventModelB::ToolDelta { input } => Some(
            delta_chunk(
                id,
                created,
                MessageDeltaModel {
                    role: None,
                    content: None,
                    tool_calls: Some(seq![StreamingToolCallModel::Delta { index: 0, arguments: input }]),
                },
                None,
            ),
        ),
        StreamEventModelB::MessageStop { stop_reason } => Some(
            delta_chunk(
                id,
                created,
                MessageDeltaModel { role: None, content: None, tool_calls: None },
                Some(finish_of_converse(stop_reason)),
            ),
        ),
        StreamEventModelB::ToolStart { tool_use_id, name } => Some(
            delta_chunk(
                id,
                created,
                MessageDeltaModel {
                    role: None,
                    content: None,
                    tool_calls: Some(
                        seq![
                            StreamingToolCallModel::Start {
                                index: 0,
                                id: tool_use_id,
                                name,
                                arguments: Seq::empty(),
                            },
                        ],
                    ),
                },
                None,
            ),
        ),
        StreamEventModelB::Metadata { usage } => match usage {
            Some(u) => Some(
                ChunkModel { id, model: Seq::empty(), choices: Seq::empty(), usage: Some(usage_of_converse(u)), created },
            ),
            None => None,
        },
        StreamEventModelB::Skipped => None,
    }
}

fn item_text_of(i: ToolResultItem) -> (r: String)
    ensures
        r@ == item_piece(i.deep_view()),
{
    match i {
        ToolResultItem::Text(t) => t,
        ToolResultItem::Json(doc) => document_to_string(&doc),
        ToolResultItem::Document => String::from_str("[Document tool result]"),
        ToolResultItem::Image => String::from_str("[Image tool result]"),
        ToolResultItem::Video => String::from_str("[Video tool result]"),
        ToolResultItem::Unknown => String::from_str("[Unknown tool result]"),
    }
}

/// A tool result block in unified form (see `tool_result_of`).
pub fn convert_tool_result_block(tool_use_id: String, content: Vec<ToolResultItem>, status: Option<ToolResultStatus>) -> (r:
    UnifiedContent)
    ensures
        r.deep_view() == tool_result_of(tool_use_id@, content.deep_view(), status),
{
    let ghost c0 = content;
    let mut pieces: Vec<String> = Vec::new();
    for item in it: content.into_iter()
        invariant
            it.seq() == c0@,
            pieces@.len() == it.index(),
            forall|j: int| 0 <= j < it.index() ==> pieces@[j]@ == item_piece(c0@[j].deep_view()),
    {
        pieces.push(item_text_of(item));
    }
    let ghost pv = pieces.deep_view();
    assert(pv =~= c0.deep_view().map_values(|i: ResultItemModel| item_piece(i)));
    let content = if pieces.len() == 0 {
        UnifiedToolResultContent::Text(String::new())
    } else if pieces.len() == 1 {
        let mut pieces = pieces;
        UnifiedToolResultContent::Text(pieces.remove(0))
    } else {
        UnifiedToolResultContent::Multiple(pieces)
    };
    let is_error = match status {
        Some(ToolResultStatus::Error) => Some(true),
        Some(ToolResultStatus::Success) => Some(false),
        None => None,
    };
    UnifiedContent::ToolResult { tool_use_id, content, is_error }
}

impl UnifiedResponse {
    /// The unified form of a Converse response, with the given id and
    /// creation time (see `response_of_converse`).
    pub fn from_converse_with(output: ConverseResponse, id: String, created: u64) -> (r: UnifiedResponse)
        ensures
            r.deep_view() == response_of_converse(output.deep_view(), id@, created),
    {
        let ghost q = output.deep_view();
        let blocks = match output.message {
            Some(content) => {
                let ghost c0 = content;
                let ghost bs = content.deep_view();
                let ghost f = |b: BlockModelB| unified_of_block(b);
                let mut blocks: Vec<UnifiedContent> = Vec::new();
                assert(bs.take(0) =~= Seq::<BlockModelB>::empty());
                assert(blocks.deep_view() =~= crate::seqs::filter_map(bs.take(0), f));
                for block in it: content.into_iter()
                    invariant
                        it.seq() == c0@,
                        bs == c0.deep_view(),
                        f == (|b: BlockModelB| unified_of_block(b)),
                        blocks.deep_view() == crate::seqs::filter_map(bs.take(it.index() as int), f),
                {
                    proof {
                        crate::seqs::lemma_filter_map_step(bs, f, it.index() as int);
                    }
                    let converted = match block {
                        ContentBlock::Text(text) => Some(UnifiedContent::Text { text }),
                        ContentBlock::ToolUse { tool_use_id, name, input } => Some(
                            UnifiedContent::ToolUse { id: tool_use_id, name, input },
                        ),
                        ContentBlock::ToolResult { tool_use_id, content, status } => Some(
                            convert_tool_result_block(tool_use_id, content, status),
                        ),
                        ContentBlock::Other => None,
                    };
                    match converted {
                        Some(c) => {
                            let ghost before = blocks.deep_view();
                            blocks.push(c);
                            assert(blocks.deep_view() =~= before.push(c.deep_view()));
                        },
                        None => {},
                    }
                }
                assert(bs.take(bs.len() as int) =~= bs);
                blocks
            },
            None => {
                let v: Vec<UnifiedContent> = Vec::new();
                assert(v.deep_view() =~= Seq::<ContentModel>::empty());
                v
            },
        };
        let message = UnifiedMessage {
            role: UnifiedRole::Assistant,
            content: UnifiedContentContainer::Blocks(blocks),
            tool_calls: None,
            tool_call_id: None,
        };
        let finish_reason = Some(stop_reason_to_unified(output.stop_reason));
        let usage = match output.usage {
            Some(u) => unified_usage(u),
            None => UnifiedUsage { prompt_tokens: 0, completion_tokens: 0, total_tokens: 0 },
        };
        let mut choices: Vec<UnifiedChoice> = Vec::new();
        choices.push(UnifiedChoice { index: 0, message, finish_reason });
        let r = UnifiedResponse {
            id,
            model: String::new(),
            choices,
            usage,
            created,
            stop_reason: None,
            stop_sequence: None,
        };
        assert(r.deep_view().choices =~= response_of_converse(q, id@, created).choices);
        r
    }

    /// The unified form of a Converse response, with a fresh `bedrock-` id
    /// and the current time.
    pub fn from_converse(output: ConverseResponse) -> (r: UnifiedResponse)
        ensures
            bedrock_id(r.id@),
            r.deep_view() == response_of_converse(output.deep_view(), r.id@, r.created),
    {
        let id = fresh_bedrock_id();
        let created = unix_time_secs();
        UnifiedResponse::from_converse_with(output, id, created)
    }
}

fn fresh_bedrock_id() -> (r: String)
    ensures
        bedrock_id(r@),
{
    proof {
        reveal_strlit("bedrock-");
    }
    let u = uuid_v4_text();
    let r = concat2("bedrock-", u.as_str());
    assert(r@.take(8) =~= "bedrock-"@);
    r
}

fn one_delta(delta: UnifiedMessageDelta, finish_reason: Option<UnifiedFinishReason>) -> (r: Vec<UnifiedChoiceDelta>)
    ensures
        r.deep_view() == seq![ChoiceDeltaModel { index: 0, delta: delta.deep_view(), finish_reason }],
{
    let mut v: Vec<UnifiedChoiceDelta> = Vec::new();
    v.push(UnifiedChoiceDelta { index: 0, delta, finish_reason });
    assert(v.deep_view() =~= seq![ChoiceDeltaModel { index: 0, delta: delta.deep_view(), finish_reason }]);
    v
}

impl UnifiedChunk {
    /// The unified chunk for a Converse stream event, with the given id and
    /// creation time (see `chunk_of_converse`).
    pub fn from_converse_with(event: ConverseStreamEvent, id: String, created: u64) -> (r: Option<UnifiedChunk>)
        ensures
            r.deep_view() == chunk_of_converse(event.deep_view(), id@, created),
    {
        match event {
            ConverseStreamEvent::MessageStart => {
                let delta = UnifiedMessageDelta { role: Some(UnifiedRole::Assistant), content: None, tool_calls: None };
                Some(UnifiedChunk { id, model: String::new(), choices: one_delta(delta, None), usage: None, created })
            },
            ConverseStreamEvent::ContentBlockDelta { delta } => match delta {
                Some(BlockDelta::Text(text)) => {
                    let d = UnifiedMessageDelta { role: None, content: Some(text), tool_calls: None };
                    Some(UnifiedChunk { id, model: String::new(), choices: one_delta(d, None), usage: None, created })
                },
                Some(BlockDelta::ToolUse { input }) => {
                    let ghost iv = input@;
                    let mut calls: Vec<UnifiedStreamingToolCall> = Vec::new();
                    calls.push(UnifiedStreamingToolCall::Delta { index: 0, function: UnifiedFunctionDelta { arguments: input } });
                    assert(calls.deep_view() =~= seq![StreamingToolCallModel::Delta { index: 0, arguments: iv }]);
                    let d = UnifiedMessageDelta { role: None, content: None, tool_calls: Some(calls) };
                    Some(UnifiedChunk { id, model: String::new(), choices: one_delta(d, None), usage: None, created })
                },
                _ => None,
            },
            ConverseStreamEvent::MessageStop { stop_reason } => {
                let finish = Some(stop_reason_to_unified(stop_reason));
                let d = UnifiedMessageDelta { role: None, content: None, tool_calls: None };
                Some(UnifiedChunk { id, model: String::new(), choices: one_delta(d, finish), usage: None, created })
            },
            ConverseStreamEvent::ContentBlockStart { start } => match start {
                Some(BlockStart::ToolUse { tool_use_id, name }) => {
                    let ghost (tv, nv) = (tool_use_id@, name@);
                    let mut calls: Vec<UnifiedStreamingToolCall> = Vec::new();
                    calls.push(
                        UnifiedStreamingToolCall::Start {
                            index: 0,
                            id: tool_use_id,
                            function: UnifiedFunctionStart { name, arguments: String::new() },
                        },
                    );
                    assert(calls.deep_view() =~= seq![
                        StreamingToolCallModel::Start { index: 0, id: tv, name: nv, arguments: Seq::empty() },
                    ]);
                    let d = UnifiedMessageDelta { role: None, content: None, tool_calls: Some(calls) };
                    Some(UnifiedChunk { id, model: String::new(), choices: one_delta(d, None), usage: None, created })
                },
                _ => None,
            },
            ConverseStreamEvent::Metadata { usage } => match usage {
                Some(u) => {
                    let choices: Vec<UnifiedChoiceDelta> = Vec::new();
                    assert(choices.deep_view() =~= Seq::<ChoiceDeltaModel>::empty());
                    Some(UnifiedChunk { id, model: String::new(), choices, usage: Some(unified_usage(u)), created })
                },
                None => None,
            },
            _ => None,
        }
    }

    /// The unified chunk for a Converse stream event, with a fresh `bedrock-`
    /// id and the current time; `Err` for events that give no chunk.
    pub fn try_from_converse(event: ConverseStreamEvent) -> (r: Result<UnifiedChunk, ()>)
        ensures
            chunk_of_converse(event.deep_view(), Seq::empty(), 0) is None <==> r is Err,
            r matches Ok(c) ==> bedrock_id(c.id@) && Some(c.deep_view()) == chunk_of_converse(
                event.deep_view(),
                c.id@,
                c.created,
            ),
    {
        let id = fresh_bedrock_id();
        let created = unix_time_secs();
        match UnifiedChunk::from_converse_with(event, id, created) {
            Some(c) => Ok(c),
            None => Err(()),
        }
    }
}

/// One Converse stream: the id and creation time that every chunk made
/// from its events carries.
pub struct ConverseStream {
    pub id: String,
    pub created: u64,
}

impl ConverseStream {
    /// A stream with a fresh `bedrock-` id, stamped with the current time.
    pub fn new() -> (r: ConverseStream)
        ensures
            bedrock_id(r.id@),
    {
        ConverseStream { id: fresh_bedrock_id(), created: unix_time_secs() }
    }

    /// The unified chunk for one of the stream's events, if it gives one,
    /// with the stream's id and creation time (see `chunk_of_converse`).
    pub fn chunk(&self, event: ConverseStreamEvent) -> (r: Option<UnifiedChunk>)
        ensures
            r.deep_view() == chunk_of_converse(event.deep_view(), self.id@, self.created),
    {
        UnifiedChunk::from_converse_with(event, self.id.clone(), self.created)
    }
}

} // verus!
