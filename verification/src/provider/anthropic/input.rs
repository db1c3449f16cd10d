//! Building Anthropic Messages API requests from unified requests.
//!
//! Tool replies become `tool_result` blocks in user messages, and consecutive
//! tool replies are folded into one message, as the API expects.
use vstd::prelude::*;
use vstd::string::StringExecFns;

use crate::json::{Json, JsonValue};
use crate::messages::anthropic::AnthropicMetadata;
use crate::messages::openai::{JsonSchema, Schema};
use crate::messages::to_anthropic::tool_choice_to_anthropic;
use crate::messages::anthropic::AnthropicToolChoiceModel;
use crate::messages::unified::{
    ContainerModel, ContentModel, FunctionModel, MessageModel, Real32, RequestModel, UnifiedContent,
    UnifiedContentContainer, UnifiedMessage, UnifiedRequest, UnifiedRole, UnifiedToolChoice,
    UnifiedToolChoiceMode, tool_result_text_of,
};

verus! {

broadcast use vstd::std_specs::vec::group_vec_axioms;

#[derive(Debug, Clone, Copy, PartialEq, Eq, Structural)]
pub enum AnthropicRole {
    User,
    Assistant,
}

/// A request content block.
#[derive(Debug)]
pub enum AnthropicContentBlock {
    Text { text: String },
    ToolUse { id: String, name: String, input: JsonValue },
    ToolResult { tool_use_id: String, content: Option<String>, is_error: Option<bool> },
}

pub enum PBlock {
    Text { text: Seq<char> },
    ToolUse { id: Seq<char>, name: Seq<char>, input: Json },
    ToolResult { tool_use_id: Seq<char>, content: Option<Seq<char>>, is_error: Option<bool> },
}

impl DeepView for AnthropicContentBlock {
    type V = PBlock;

    open spec fn deep_view(&self) -> PBlock {
        match self {
            AnthropicContentBlock::Text { text } => PBlock::Text { text: text@ },
            AnthropicContentBlock::ToolUse { id, name, input } => PBlock::ToolUse {
                id: id@,
                name: name@,
                input: input.deep_view(),
            },
            AnthropicContentBlock::ToolResult { tool_use_id, content, is_error } => PBlock::ToolResult {
                tool_use_id: tool_use_id@,
                content: content.deep_view(),
                is_error: *is_error,
            },
        }
    }
}

/// Message content: plain text or blocks.
#[derive(Debug)]
pub enum AnthropicMessageContent {
    Text(String),
    Blocks(Vec<AnthropicContentBlock>),
}

pub enum PContent {
    Text(Seq<char>),
    Blocks(Seq<PBlock>),
}

impl DeepView for AnthropicMessageContent {
    type V = PContent;

    open spec fn deep_view(&self) -> PContent {
        match self {
            AnthropicMessageContent::Text(t) => PContent::Text(t@),
            AnthropicMessageContent::Blocks(bs) => PContent::Blocks(bs.deep_view()),
        }
    }
}

#[derive(Debug)]
pub struct AnthropicMessage {
    pub role: AnthropicRole,
    pub content: AnthropicMessageContent,
}

pub struct PMessage {
    pub role: AnthropicRole,
    pub content: PContent,
}

impl DeepView for AnthropicMessage {
    type V = PMessage;

    open spec fn deep_view(&self) -> PMessage {
        PMessage { role: self.role, content: self.content.deep_view() }
    }
}

#[derive(Debug)]
pub struct AnthropicTool {
    pub name: String,
    pub description: String,
    pub input_schema: JsonSchema,
}

pub struct PTool {
    pub name: Seq<char>,
    pub description: Seq<char>,
    pub input_schema: Schema,
}

impl DeepView for AnthropicTool {
    type V = PTool;

    open spec fn deep_view(&self) -> PTool {
        PTool { name: self.name@, description: self.description@, input_schema: self.input_schema.deep_view() }
    }
}

#[derive(Debug)]
pub enum AnthropicToolChoice {
    Auto,
    Any,
    Tool { name: String },
    /// `none`: the model may not call tools.
    Disabled,
}

impl DeepView for AnthropicToolChoice {
    type V = AnthropicToolChoiceModel;

    open spec fn deep_view(&self) -> AnthropicToolChoiceModel {
        match self {
            AnthropicToolChoice::Auto => AnthropicToolChoiceModel::Auto,
            AnthropicToolChoice::Any => AnthropicToolChoiceModel::Any,
            AnthropicToolChoice::Tool { name } => AnthropicToolChoiceModel::Tool { name: name@ },
            AnthropicToolChoice::Disabled => AnthropicToolChoiceModel::Disabled,
        }
    }
}

/// The request body the provider sends.
#[derive(Debug)]
pub struct AnthropicRequest {
    pub model: String,
    pub messages: Vec<AnthropicMessage>,
    pub system: Option<String>,
    pub max_tokens: u32,
    pub temperature: Option<Real32>,
    pub top_p: Option<Real32>,
    pub top_k: Option<u32>,
    pub stop_sequences: Option<Vec<String>>,
    pub stream: Option<bool>,
    pub metadata: Option<AnthropicMetadata>,
    pub tools: Option<Vec<AnthropicTool>>,
    pub tool_choice: Option<AnthropicToolChoice>,
}

pub struct PRequest {
    pub model: Seq<char>,
    pub messages: Seq<PMessage>,
    pub system: Option<Seq<char>>,
    pub max_tokens: u32,
    pub temperature: Option<Real32>,
    pub top_p: Option<Real32>,
    pub top_k: Option<u32>,
    pub stop_sequences: Option<Seq<Seq<char>>>,
    pub stream: Option<bool>,
    pub metadata: Option<Option<Seq<char>>>,
    pub tools: Option<Seq<PTool>>,
    pub tool_choice: Option<AnthropicToolChoiceModel>,
}

impl DeepView for AnthropicRequest {
    type V = PRequest;

    open spec fn deep_view(&self) -> PRequest {
        PRequest {
            model: self.model@,
            messages: self.messages.deep_view(),
            system: self.system.deep_view(),
            max_tokens: self.max_tokens,
            temperature: self.temperature,
            top_p: self.top_p,
            top_k: self.top_k,
            stop_sequences: self.stop_sequences.deep_view(),
            stream: self.stream,
            metadata: self.metadata.deep_view(),
            tools: self.tools.deep_view(),
            tool_choice: self.tool_choice.deep_view(),
        }
    }
}

/// System and tool messages are sent as user messages.
pub open spec fn prole(r: UnifiedRole) -> AnthropicRole {
    match r {
        UnifiedRole::Assistant => AnthropicRole::Assistant,
        _ => AnthropicRole::User,
    }
}

pub open spec fn nonempty_text(t: Seq<char>) -> Option<Seq<char>> {
    if t.len() == 0 {
        None
    } else {
        Some(t)
    }
}

/// A unified block as a request block. With a default tool id (inside a tool
/// reply without explicit results) text becomes the result for that call;
/// images are replaced by a note.
pub open spec fn pblock(b: ContentModel, default_id: Option<Seq<char>>) -> PBlock {
    match b {
        ContentModel::Text { text } => match default_id {
            Some(id) => PBlock::ToolResult { tool_use_id: id, content: nonempty_text(text), is_error: None },
            None => PBlock::Text { text },
        },
        ContentModel::ToolUse { id, name, input } => PBlock::ToolUse { id, name, input },
        ContentModel::ToolResult { tool_use_id, content, is_error } => PBlock::ToolResult {
            tool_use_id,
            content: Some(tool_result_text_of(content)),
            is_error,
        },
        ContentModel::Image { .. } => PBlock::Text { text: "[Image content not supported]"@ },
    }
}

pub open spec fn pblocks(bs: Seq<ContentModel>, default_id: Option<Seq<char>>) -> Seq<PBlock> {
    bs.map_values(|b: ContentModel| pblock(b, default_id))
}

/// The content of a message other than a tool reply; no blocks is empty text.
pub open spec fn pcontent(c: ContainerModel) -> PContent {
    match c {
        ContainerModel::Text(t) => PContent::Text(t),
        ContainerModel::Blocks(bs) => if bs.len() == 0 {
            PContent::Text(Seq::empty())
        } else {
            PContent::Blocks(pblocks(bs, None))
        },
    }
}

pub open spec fn has_result_block(bs: Seq<ContentModel>) -> bool {
    exists|i: int| 0 <= i < bs.len() && bs[i] is ToolResult
}

pub open spec fn has_result_pblock(bs: Seq<PBlock>) -> bool {
    exists|i: int| 0 <= i < bs.len() && bs[i] is ToolResult
}

pub open spec fn empty_result(id: Seq<char>) -> PBlock {
    PBlock::ToolResult { tool_use_id: id, content: None, is_error: None }
}

/// The content of a tool reply. Text with a call id becomes that call's
/// result. Blocks are converted, text standing for the result unless the
/// blocks hold explicit results; with a call id and no result among them, an
/// empty result for the call is appended.
pub open spec fn tool_pcontent(c: ContainerModel, id: Option<Seq<char>>) -> PContent {
    match c {
        ContainerModel::Text(t) => match id {
            Some(i) => PContent::Blocks(
                seq![PBlock::ToolResult { tool_use_id: i, content: nonempty_text(t), is_error: None }],
            ),
            None => PContent::Text(t),
        },
        ContainerModel::Blocks(bs) => {
            let converted = pblocks(bs, if has_result_block(bs) { None } else { id });
            let all = match id {
                Some(i) => if has_result_pblock(converted) {
                    converted
                } else {
                    converted.push(empty_result(i))
                },
                None => converted,
            };
            if all.len() == 0 {
                PContent::Text(Seq::empty())
            } else {
                PContent::Blocks(all)
            }
        },
    }
}

/// A unified message as a request message.
pub open spec fn pmessage(m: MessageModel) -> PMessage {
    PMessage {
        role: prole(m.role),
        content: if m.role == UnifiedRole::Tool {
            tool_pcontent(m.content, m.tool_call_id)
        } else {
            pcontent(m.content)
        },
    }
}

/// Content as a list of blocks: non-empty text is one text block.
pub open spec fn block_list(c: PContent) -> Seq<PBlock> {
    match c {
        PContent::Blocks(bs) => bs,
        PContent::Text(t) => if t.len() == 0 {
            Seq::empty()
        } else {
            seq![PBlock::Text { text: t }]
        },
    }
}

/// `source`'s blocks appended to `target`'s.
pub open spec fn merged(target: PMessage, source: PMessage) -> PMessage {
    PMessage {
        role: target.role,
        content: PContent::Blocks(block_list(target.content) + block_list(source.content)),
    }
}

/// The request messages for a conversation: each message converted, a
/// tool reply that follows a tool reply folded into the message before.
pub open spec fn pmessages(ms: Seq<MessageModel>) -> Seq<PMessage>
    decreases ms.len(),
{
    if ms.len() == 0 {
        Seq::empty()
    } else {
        let prev = pmessages(ms.drop_last());
        let c = pmessage(ms.last());
        if ms.last().role == UnifiedRole::Tool && ms.len() >= 2 && ms[ms.len() - 2].role
            == UnifiedRole::Tool {
            prev.update(prev.len() - 1, merged(prev.last(), c))
        } else {
            prev.push(c)
        }
    }
}

pub proof fn lemma_pmessages_len(ms: Seq<MessageModel>)
    ensures
        ms.len() > 0 ==> pmessages(ms).len() > 0,
        pmessages(ms).len() <= ms.len(),
    decreases ms.len(),
{
    if ms.len() > 0 {
        lemma_pmessages_len(ms.drop_last());
    }
}

pub open spec fn ptool(f: FunctionModel) -> PTool {
    PTool { name: f.name, description: f.description, input_schema: f.parameters }
}

/// A unified request as the provider's request body: messages converted and
/// tool replies folded; `max_tokens` defaults to 4096; streaming is left
/// unset, to be set by the streaming call.
pub open spec fn prequest(r: RequestModel) -> PRequest {
    PRequest {
        model: r.model,
        messages: pmessages(r.messages),
        system: r.system,
        max_tokens: match r.max_tokens {
            Some(n) => n,
            None => 4096,
        },
        temperature: r.temperature,
        top_p: r.top_p,
        top_k: r.top_k,
        stop_sequences: r.stop_sequences,
        stream: None,
        metadata: r.metadata,
        tools: match r.tools {
            Some(ts) => Some(ts.map_values(|t: FunctionModel| ptool(t))),
            None => None,
        },
        tool_choice: match r.tool_choice {
            Some(c) => Some(tool_choice_to_anthropic(c)),
            None => None,
        },
    }
}

impl AnthropicMessageContent {
    /// The content as a list of blocks: non-empty text is one text block.
    pub fn into_block_vec(self) -> (r: Vec<AnthropicContentBlock>)
        ensures
            r.deep_view() == block_list(self.deep_view()),
    {
        match self {
            AnthropicMessageContent::Blocks(blocks) => blocks,
            AnthropicMessageContent::Text(text) => {
                let mut v: Vec<AnthropicContentBlock> = Vec::new();
                if !text.as_str().is_empty() {
                    v.push(AnthropicContentBlock::Text { text });
                }
                assert(v.deep_view() =~= block_list(self.deep_view()));
                v
            },
        }
    }
}

fn nonempty(t: String) -> (r: Option<String>)
    ensures
        r.deep_view() == nonempty_text(t@),
{
    if t.as_str().is_empty() {
        None
    } else {
        Some(t)
    }
}

/// A unified block as a request block (see `pblock`).
pub fn convert_content_block(block: UnifiedContent, default_tool_id: Option<&str>) -> (r: AnthropicContentBlock)
    ensures
        r.deep_view() == pblock(
            block.deep_view(),
            match default_tool_id {
                Some(i) => Some(i@),
                None => None,
            },
        ),
{
    proof {
        reveal_strlit("[Image content not supported]");
    }
    match block {
        UnifiedContent::Text { text } => match default_tool_id {
            Some(id) => AnthropicContentBlock::ToolResult {
                tool_use_id: String::from_str(id),
                content: nonempty(text),
                is_error: None,
            },
            None => AnthropicContentBlock::Text { text },
        },
        UnifiedContent::ToolUse { id, name, input } => AnthropicContentBlock::ToolUse { id, name, input },
        UnifiedContent::ToolResult { tool_use_id, content, is_error } => AnthropicContentBlock::ToolResult {
            tool_use_id,
            content: content.into_text(),
            is_error,
        },
        UnifiedContent::Image { .. } => AnthropicContentBlock::Text {
            text: String::from_str("[Image content not supported]"),
        },
    }
}

fn convert_blocks(blocks: Vec<UnifiedContent>, default_tool_id: Option<&str>) -> (r: Vec<AnthropicContentBlock>)
    ensures
        r.deep_view() == pblocks(
            blocks.deep_view(),
            match default_tool_id {
                Some(i) => Some(i@),
                None => None,
            },
        ),
{
    let ghost b0 = blocks;
    let ghost d = match default_tool_id {
        Some(i) => Some(i@),
        None => None,
    };
    let mut out: Vec<AnthropicContentBlock> = Vec::new();
    for b in it: blocks.into_iter()
        invariant
            it.seq() == b0@,
            d == match default_tool_id {
                Some(i) => Some(i@),
                None => None,
            },
            out@.len() == it.index(),
            forall|j: int| 0 <= j < it.index() ==> out@[j].deep_view() == pblock(b0@[j].deep_view(), d),
    {
        out.push(convert_content_block(b, default_tool_id));
    }
    assert(out.deep_view() =~= pblocks(b0.deep_view(), d));
    out
}

fn any_result_block(blocks: &Vec<UnifiedContent>) -> (r: bool)
    ensures
        r == has_result_block(blocks.deep_view()),
{
    let mut k: usize = 0;
    while k < blocks.len()
        invariant
            0 <= k <= blocks.len(),
            forall|j: int| 0 <= j < k ==> !(blocks.deep_view()[j] is ToolResult),
        decreases blocks.len() - k,
    {
        match &blocks[k] {
            UnifiedContent::ToolResult { .. } => {
                assert(blocks.deep_view()[k as int] is ToolResult);
                return true;
            },
            _ => {},
        }
        k = k + 1;
    }
    false
}

fn any_result_pblock(blocks: &Vec<AnthropicContentBlock>) -> (r: bool)
    ensures
        r == has_result_pblock(blocks.deep_view()),
{
    let mut k: usize = 0;
    while k < blocks.len()
        invariant
            0 <= k <= blocks.len(),
            forall|j: int| 0 <= j < k ==> !(blocks.deep_view()[j] is ToolResult),
        decreases blocks.len() - k,
    {
        match &blocks[k] {
            AnthropicContentBlock::ToolResult { .. } => {
                assert(blocks.deep_view()[k as int] is ToolResult);
                return true;
            },
            _ => {},
        }
        k = k + 1;
    }
    false
}

/// The content of a non-tool message (see `pcontent`).
pub fn message_content(content: UnifiedContentContainer) -> (r: AnthropicMessageContent)
    ensures
        r.deep_view() == pcontent(content.deep_view()),
{
    match content {
        UnifiedContentContainer::Text(text) => AnthropicMessageContent::Text(text),
        UnifiedContentContainer::Blocks(blocks) => {
            let ghost bs = blocks.deep_view();
            let converted = convert_blocks(blocks, None);
            assert(converted.deep_view().len() == bs.len());
            if converted.len() == 0 {
                AnthropicMessageContent::Text(String::new())
            } else {
                AnthropicMessageContent::Blocks(converted)
            }
        },
    }
}

/// The content of a tool reply (see `tool_pcontent`).
pub fn convert_tool_content(content: UnifiedContentContainer, tool_call_id: Option<String>) -> (r:
    AnthropicMessageContent)
    ensures
        r.deep_view() == tool_pcontent(content.deep_view(), tool_call_id.deep_view()),
{
    match content {
        UnifiedContentContainer::Text(text) => match tool_call_id {
            Some(id) => {
                let mut v: Vec<AnthropicContentBlock> = Vec::new();
                let ghost tv = text@;
                let ghost iv = id@;
                v.push(AnthropicContentBlock::ToolResult { tool_use_id: id, content: nonempty(text), is_error: None });
                assert(v.deep_view() =~= seq![
                    PBlock::ToolResult { tool_use_id: iv, content: nonempty_text(tv), is_error: None },
                ]);
                AnthropicMessageContent::Blocks(v)
            },
            None => AnthropicMessageContent::Text(text),
        },
        UnifiedContentContainer::Blocks(blocks) => {
            let has_explicit = any_result_block(&blocks);
            let default_id: Option<&str> = if has_explicit {
                None
            } else {
                match &tool_call_id {
                    Some(i) => Some(i.as_str()),
                    None => None,
                }
            };
            let ghost bs = blocks.deep_view();
            let ghost dv = match default_id {
                Some(i) => Some(i@),
                None => None,
            };
            assert(dv == if has_result_block(bs) { None } else { tool_call_id.deep_view() });
            let mut converted = convert_blocks(blocks, default_id);
            let has_result = any_result_pblock(&converted);
            let ghost before = converted.deep_view();
            match &tool_call_id {
                Some(id) => {
                    if !has_result {
                        converted.push(
                            AnthropicContentBlock::ToolResult { tool_use_id: id.clone(), content: None, is_error: None },
                        );
                        assert(converted.deep_view() =~= before.push(empty_result(id@)));
                    }
                },
                None => {},
            }
            assert(converted.deep_view() == match tool_call_id.deep_view() {
                Some(i) => if has_result_pblock(before) { before } else { before.push(empty_result(i)) },
                None => before,
            });
            if converted.len() == 0 {
                match tool_call_id {
                    Some(id) => {
                        let mut v: Vec<AnthropicContentBlock> = Vec::new();
                        v.push(AnthropicContentBlock::ToolResult { tool_use_id: id, content: None, is_error: None });
                        AnthropicMessageContent::Blocks(v)
                    },
                    None => AnthropicMessageContent::Text(String::new()),
                }
            } else {
                AnthropicMessageContent::Blocks(converted)
            }
        },
    }
}

impl AnthropicMessage {
    /// A unified message as a request message; a tool reply carries
    /// `tool_result` blocks.
    pub fn from_unified(msg: UnifiedMessage) -> (r: AnthropicMessage)
        ensures
            r.deep_view() == pmessage(msg.deep_view()),
    {
        let UnifiedMessage { role, content, tool_calls: _, tool_call_id } = msg;
        let content = match role {
            UnifiedRole::Tool => convert_tool_content(content, tool_call_id),
            _ => message_content(content),
        };
        let prole = match role {
            UnifiedRole::Assistant => AnthropicRole::Assistant,
            _ => AnthropicRole::User,
        };
        AnthropicMessage { role: prole, content }
    }
}

/// Appends `source`'s blocks to `target`'s.
pub fn merge_tool_result_content(target: AnthropicMessage, source: AnthropicMessage) -> (r: AnthropicMessage)
    ensures
        r.deep_view() == merged(target.deep_view(), source.deep_view()),
{
    let mut blocks = target.content.into_block_vec();
    let mut more = source.content.into_block_vec();
    let ghost a = blocks.deep_view();
    let ghost b = more.deep_view();
    blocks.append(&mut more);
    assert(blocks.deep_view() =~= a + b);
    AnthropicMessage { role: target.role, content: AnthropicMessageContent::Blocks(blocks) }
}

impl AnthropicRequest {
    /// The provider request for a unified request (see `prequest`).
    pub fn from_unified(request: UnifiedRequest) -> (r: AnthropicRequest)
        ensures
            r.deep_view() == prequest(request.deep_view()),
    {
        let ghost q = request.deep_view();
        let ghost m0 = request.messages;
        let mut messages: Vec<AnthropicMessage> = Vec::new();
        let mut last_was_tool = false;
        assert(q.messages.take(0) =~= Seq::<MessageModel>::empty());
        for message in it: request.messages.into_iter()
            invariant
                it.seq() == m0@,
                q.messages == m0.deep_view(),
                messages.deep_view() == pmessages(q.messages.take(it.index() as int)),
                last_was_tool == (it.index() > 0 && q.messages[it.index() - 1].role == UnifiedRole::Tool),
        {
            let ghost k = it.index() as int;
            proof {
                let t = q.messages.take(k + 1);
                assert(t.drop_last() =~= q.messages.take(k));
                assert(t.last() == q.messages[k]);
                lemma_pmessages_len(q.messages.take(k));
                if k >= 1 {
                    assert(t[t.len() - 2] == q.messages[k - 1]);
                }
            }
            let is_tool = match message.role {
                UnifiedRole::Tool => true,
                _ => false,
            };
            let converted = AnthropicMessage::from_unified(message);
            if is_tool && last_was_tool {
                let ghost before = messages.deep_view();
                let existing = messages.pop().unwrap();
                let m = merge_tool_result_content(existing, converted);
                messages.push(m);
                assert(messages.deep_view() =~= before.update(before.len() - 1, merged(before.last(), converted.deep_view())));
            } else {
                let ghost before = messages.deep_view();
                messages.push(converted);
                assert(messages.deep_view() =~= before.push(converted.deep_view()));
            }
            last_was_tool = is_tool;
        }
        assert(q.messages.take(q.messages.len() as int) =~= q.messages);
        let tools = match request.tools {
            Some(ts) => {
                let ghost t0 = ts;
                let mut out: Vec<AnthropicTool> = Vec::new();
                for t in it: ts.into_iter()
                    invariant
                        it.seq() == t0@,
                        out@.len() == it.index(),
                        forall|j: int| 0 <= j < it.index() ==> out@[j].deep_view() == ptool(t0@[j].deep_view()),
                {
                    out.push(
                        AnthropicTool {
                            name: t.function.name,
                            description: t.function.description,
                            input_schema: t.function.parameters,
                        },
                    );
                }
                assert(out.deep_view() =~= t0.deep_view().map_values(|t: FunctionModel| ptool(t)));
                Some(out)
            },
            None => None,
        };
        let tool_choice = match request.tool_choice {
            Some(UnifiedToolChoice::Mode(UnifiedToolChoiceMode::Required)) => Some(AnthropicToolChoice::Any),
            Some(UnifiedToolChoice::Mode(UnifiedToolChoiceMode::Disabled)) => Some(AnthropicToolChoice::Disabled),
            Some(UnifiedToolChoice::Mode(_)) => Some(AnthropicToolChoice::Auto),
            Some(UnifiedToolChoice::Specific { function }) => Some(AnthropicToolChoice::Tool { name: function.name }),
            None => None,
        };
        let metadata = match request.metadata {
            Some(m) => Some(AnthropicMetadata { user_id: m.user_id }),
            None => None,
        };
        let max_tokens = match request.max_tokens {
            Some(n) => n,
            None => 4096,
        };
        AnthropicRequest {
            model: request.model,
            messages,
            system: request.system,
            max_tokens,
            temperature: request.temperature,
            top_p: request.top_p,
            top_k: request.top_k,
            stop_sequences: request.stop_sequences,
            stream: None,
            metadata,
            tools,
            tool_choice,
        }
    }
}

} // verus!
