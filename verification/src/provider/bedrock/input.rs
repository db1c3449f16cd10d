//! Building Bedrock Converse requests from unified requests.
//!
//! Consecutive messages of one role are merged, system messages become
//! system blocks, and tool calls and results become tool blocks.
use vstd::prelude::*;
use vstd::string::StringExecFns;

use crate::json::{Json, JsonValue, parse_json, serde_json_parse};
use crate::messages::openai::schema_json;
use crate::messages::unified::{
    ArgumentsModel, ContainerModel, ContentModel, FunctionModel, MessageModel, Real32, RequestModel,
    ToolCallModel, ToolChoiceModel, UnifiedArguments, UnifiedContent, UnifiedContentContainer,
    UnifiedMessage, UnifiedRequest, UnifiedRole, UnifiedTool, UnifiedToolCall, UnifiedToolChoice,
    UnifiedToolChoiceMode, UnifiedToolResultContent, tool_result_text_of,
};
use crate::provider::bedrock::output::{
    BlockModelB, ContentBlock, ResultItemModel, ToolResultItem, document_to_string,
    items_document_text,
};
use crate::seqs::{filter_map, join, join_strings, lemma_filter_map_step};
use crate::text::{concat2, has_prefix, starts_with};

verus! {

broadcast use vstd::std_specs::vec::group_vec_axioms;

#[derive(Debug, Clone, Copy, PartialEq, Eq, Structural)]
pub enum ConversationRole {
    User,
    Assistant,
}

/// A system block: text.
#[derive(Debug)]
pub struct SystemContentBlock {
    pub text: String,
}

/// A message of the conversation.
#[derive(Debug)]
pub struct BedrockMessage {
    pub role: ConversationRole,
    pub content: Vec<ContentBlock>,
}

pub struct BMessage {
    pub role: ConversationRole,
    pub content: Seq<BlockModelB>,
}

impl DeepView for BedrockMessage {
    type V = BMessage;

    open spec fn deep_view(&self) -> BMessage {
        BMessage { role: self.role, content: self.content.deep_view() }
    }
}

/// Sampling settings of a Converse request.
#[derive(Debug)]
pub struct InferenceConfiguration {
    pub max_tokens: Option<i32>,
    pub temperature: Option<Real32>,
    pub top_p: Option<Real32>,
    pub stop_sequences: Option<Vec<String>>,
}

pub struct InferenceModel {
    pub max_tokens: Option<i32>,
    pub temperature: Option<Real32>,
    pub top_p: Option<Real32>,
    pub stop_sequences: Option<Seq<Seq<char>>>,
}

impl DeepView for InferenceConfiguration {
    type V = InferenceModel;

    open spec fn deep_view(&self) -> InferenceModel {
        InferenceModel {
            max_tokens: self.max_tokens,
            temperature: self.temperature,
            top_p: self.top_p,
            stop_sequences: self.stop_sequences.deep_view(),
        }
    }
}

/// A tool the model may use, with its input schema as a JSON document.
#[derive(Debug)]
pub struct ToolSpecification {
    pub name: String,
    pub description: Option<String>,
    pub input_schema: JsonValue,
}

pub struct ToolSpecModel {
    pub name: Seq<char>,
    pub description: Option<Seq<char>>,
    pub input_schema: Json,
}

impl DeepView for ToolSpecification {
    type V = ToolSpecModel;

    open spec fn deep_view(&self) -> ToolSpecModel {
        ToolSpecModel { name: self.name@, description: self.description.deep_view(), input_schema: self.input_schema.deep_view() }
    }
}

#[derive(Debug)]
pub enum BedrockToolChoice {
    Auto,
    Any,
    Tool { name: String },
}

pub enum ChoiceModelB {
    Auto,
    Any,
    Tool { name: Seq<char> },
}

impl DeepView for BedrockToolChoice {
    type V = ChoiceModelB;

    open spec fn deep_view(&self) -> ChoiceModelB {
        match self {
            BedrockToolChoice::Auto => ChoiceModelB::Auto,
            BedrockToolChoice::Any => ChoiceModelB::Any,
            BedrockToolChoice::Tool { name } => ChoiceModelB::Tool { name: name@ },
        }
    }
}

#[derive(Debug)]
pub struct ToolConfiguration {
    pub tools: Vec<ToolSpecification>,
    pub tool_choice: Option<BedrockToolChoice>,
}

pub struct ToolConfigModel {
    pub tools: Seq<ToolSpecModel>,
    pub tool_choice: Option<ChoiceModelB>,
}

impl DeepView for ToolConfiguration {
    type V = ToolConfigModel;

    open spec fn deep_view(&self) -> ToolConfigModel {
        ToolConfigModel { tools: self.tools.deep_view(), tool_choice: self.tool_choice.deep_view() }
    }
}

/// A Converse (or ConverseStream) request.
#[derive(Debug)]
pub struct ConverseRequest {
    pub model_id: String,
    pub messages: Vec<BedrockMessage>,
    pub system: Option<Vec<SystemContentBlock>>,
    pub inference_config: Option<InferenceConfiguration>,
    pub tool_config: Option<ToolConfiguration>,
}

pub struct ConverseModel {
    pub model_id: Seq<char>,
    pub messages: Seq<BMessage>,
    pub system: Option<Seq<Seq<char>>>,
    pub inference_config: Option<InferenceModel>,
    pub tool_config: Option<ToolConfigModel>,
}

pub open spec fn system_texts(bs: Seq<SystemContentBlock>) -> Seq<Seq<char>> {
    Seq::new(bs.len(), |i: int| bs[i].text@)
}

impl DeepView for ConverseRequest {
    type V = ConverseModel;

    open spec fn deep_view(&self) -> ConverseModel {
        ConverseModel {
            model_id: self.model_id@,
            messages: self.messages.deep_view(),
            system: match &self.system {
                Some(bs) => Some(system_texts(bs@)),
                None => None,
            },
            inference_config: self.inference_config.deep_view(),
            tool_config: self.tool_config.deep_view(),
        }
    }
}

/// The sampling settings, present when any of them is given; `max_tokens`
/// is cast to `i32`.
pub open spec fn inference_of(
    temperature: Option<Real32>,
    max_tokens: Option<u32>,
    top_p: Option<Real32>,
    stop: Option<Seq<Seq<char>>>,
) -> Option<InferenceModel> {
    if temperature is None && max_tokens is None && top_p is None && stop is None {
        None
    } else {
        Some(
            InferenceModel {
                max_tokens: match max_tokens {
                    Some(m) => Some(m as i32),
                    None => None,
                },
                temperature,
                top_p,
                stop_sequences: stop,
            },
        )
    }
}

/// Builds the sampling settings (see `inference_of`).
pub fn build_inference_config(
    temperature: Option<Real32>,
    max_tokens: Option<u32>,
    top_p: Option<Real32>,
    stop: Option<Vec<String>>,
) -> (r: Option<InferenceConfiguration>)
    ensures
        r.deep_view() == inference_of(temperature, max_tokens, top_p, stop.deep_view()),
{
    if temperature.is_none() && max_tokens.is_none() && top_p.is_none() && stop.is_none() {
        return None;
    }
    let max_tokens = match max_tokens {
        Some(m) => Some(m as i32),
        None => None,
    };
    Some(InferenceConfiguration { max_tokens, temperature, top_p, stop_sequences: stop })
}

/// The model families whose tool-choice support differs.
#[derive(Debug, Clone, Copy, PartialEq, Eq, Structural)]
pub enum ModelFamily {
    Anthropic,
    AmazonNova,
    AmazonTitan,
    Cohere,
    MetaLlama,
    DeepSeek,
    Jamba,
    Unknown,
}

/// The family of a model id, by its prefix.
pub open spec fn family_of(id: Seq<char>) -> ModelFamily {
    if has_prefix(id, "anthropic."@) {
        ModelFamily::Anthropic
    } else if has_prefix(id, "amazon.nova"@) {
        ModelFamily::AmazonNova
    } else if has_prefix(id, "amazon.titan"@) {
        ModelFamily::AmazonTitan
    } else if has_prefix(id, "cohere."@) {
        ModelFamily::Cohere
    } else if has_prefix(id, "meta."@) || has_prefix(id, "us.meta."@) {
        ModelFamily::MetaLlama
    } else if has_prefix(id, "us.deepseek."@) {
        ModelFamily::DeepSeek
    } else if has_prefix(id, "ai21.jamba"@) {
        ModelFamily::Jamba
    } else {
        ModelFamily::Unknown
    }
}

pub open spec fn spec_supports_any(f: ModelFamily) -> bool {
    match f {
        ModelFamily::Anthropic | ModelFamily::AmazonNova | ModelFamily::MetaLlama | ModelFamily::DeepSeek
        | ModelFamily::Jamba => true,
        _ => false,
    }
}

pub open spec fn spec_supports_specific(f: ModelFamily) -> bool {
    match f {
        ModelFamily::AmazonTitan | ModelFamily::Unknown => false,
        _ => true,
    }
}

/// A tool choice for a family: none for "none"; "required" is `any` where
/// the family supports it, else `auto`; a specific tool where supported,
/// else `auto`.
pub open spec fn choice_for(f: ModelFamily, c: ToolChoiceModel) -> Option<ChoiceModelB> {
    match c {
        ToolChoiceModel::Mode(m) => match m {
            UnifiedToolChoiceMode::Disabled => None,
            UnifiedToolChoiceMode::Auto => Some(ChoiceModelB::Auto),
            UnifiedToolChoiceMode::Required => if spec_supports_any(f) {
                Some(ChoiceModelB::Any)
            } else {
                Some(ChoiceModelB::Auto)
            },
        },
        ToolChoiceModel::Specific { name } => if spec_supports_specific(f) {
            Some(ChoiceModelB::Tool { name })
        } else {
            Some(ChoiceModelB::Auto)
        },
    }
}

impl ModelFamily {
    /// The family of a model id, by its prefix (see `family_of`).
    pub fn from_model_id(model_id: &str) -> (r: ModelFamily)
        ensures
            r == family_of(model_id@),
    {
        if starts_with(model_id, "anthropic.") {
            ModelFamily::Anthropic
        } else if starts_with(model_id, "amazon.nova") {
            ModelFamily::AmazonNova
        } else if starts_with(model_id, "amazon.titan") {
            ModelFamily::AmazonTitan
        } else if starts_with(model_id, "cohere.") {
            ModelFamily::Cohere
        } else if starts_with(model_id, "meta.") || starts_with(model_id, "us.meta.") {
            ModelFamily::MetaLlama
        } else if starts_with(model_id, "us.deepseek.") {
            ModelFamily::DeepSeek
        } else if starts_with(model_id, "ai21.jamba") {
            ModelFamily::Jamba
        } else {
            ModelFamily::Unknown
        }
    }

    /// Whether the family can be forced to use some tool.
    pub fn supports_tool_choice_any(&self) -> (r: bool)
        ensures
            r == spec_supports_any(*self),
    {
        match self {
            ModelFamily::Anthropic => true,
            ModelFamily::AmazonNova => true,
            ModelFamily::MetaLlama => true,
            ModelFamily::DeepSeek => true,
            ModelFamily::Jamba => true,
            ModelFamily::Cohere => false,
            ModelFamily::AmazonTitan => false,
            ModelFamily::Unknown => false,
        }
    }

    /// Whether the family can be forced to use one named tool.
    pub fn supports_tool_choice_specific(&self) -> (r: bool)
        ensures
            r == spec_supports_specific(*self),
    {
        match self {
            ModelFamily::Anthropic => true,
            ModelFamily::AmazonNova => true,
            ModelFamily::Cohere => true,
            ModelFamily::MetaLlama => true,
            ModelFamily::DeepSeek => true,
            ModelFamily::Jamba => true,
            ModelFamily::AmazonTitan => false,
            ModelFamily::Unknown => false,
        }
    }

    /// The tool choice for this family (see `choice_for`).
    pub fn convert_tool_choice(&self, tool_choice: UnifiedToolChoice) -> (r: Option<BedrockToolChoice>)
        ensures
            r.deep_view() == choice_for(*self, tool_choice.deep_view()),
    {
        match tool_choice {
            UnifiedToolChoice::Mode(mode) => match mode {
                UnifiedToolChoiceMode::Disabled => None,
                UnifiedToolChoiceMode::Auto => Some(BedrockToolChoice::Auto),
                UnifiedToolChoiceMode::Required => {
                    if self.supports_tool_choice_any() {
                        Some(BedrockToolChoice::Any)
                    } else {
                        Some(BedrockToolChoice::Auto)
                    }
                },
            },
            UnifiedToolChoice::Specific { function } => {
                if self.supports_tool_choice_specific() {
                    Some(BedrockToolChoice::Tool { name: function.name })
                } else {
                    Some(BedrockToolChoice::Auto)
                }
            },
        }
    }
}

pub open spec fn tool_spec_of(f: FunctionModel) -> ToolSpecModel {
    ToolSpecModel {
        name: f.name,
        description: if f.description.len() == 0 {
            None
        } else {
            Some(f.description)
        },
        input_schema: schema_json(f.parameters),
    }
}

/// The tool configuration: every tool with its schema as a document, and
/// the choice for the model's family.
pub open spec fn tool_config_of(ts: Seq<FunctionModel>, choice: Option<ToolChoiceModel>, model_id: Seq<char>) -> ToolConfigModel {
    ToolConfigModel {
        tools: ts.map_values(|t: FunctionModel| tool_spec_of(t)),
        tool_choice: match choice {
            Some(c) => choice_for(family_of(model_id), c),
            None => None,
        },
    }
}

/// Builds the tool configuration (see `tool_config_of`).
pub fn convert_tools(tools: Vec<UnifiedTool>, tool_choice: Option<UnifiedToolChoice>, model_id: &str) -> (r: ToolConfiguration)
    ensures
        r.deep_view() == tool_config_of(tools.deep_view(), tool_choice.deep_view(), model_id@),
{
    let ghost t0 = tools;
    let mut specs: Vec<ToolSpecification> = Vec::new();
    for tool in it: tools.into_iter()
        invariant
            it.seq() == t0@,
            specs@.len() == it.index(),
            forall|j: int| 0 <= j < it.index() ==> specs@[j].deep_view() == tool_spec_of(t0@[j].deep_view()),
    {
        let input_schema = tool.function.parameters.to_json();
        let description = if tool.function.description.as_str().is_empty() {
            None
        } else {
            Some(tool.function.description)
        };
        specs.push(ToolSpecification { name: tool.function.name, description, input_schema });
    }
    assert(specs.deep_view() =~= t0.deep_view().map_values(|t: FunctionModel| tool_spec_of(t)));
    let tool_choice = match tool_choice {
        Some(tc) => {
            let family = ModelFamily::from_model_id(model_id);
            family.convert_tool_choice(tc)
        },
        None => None,
    };
    ToolConfiguration { tools: specs, tool_choice }
}

// ---------------------------------------------------------------------------
// Tool inputs as documents
// ---------------------------------------------------------------------------

/// A tool input as Bedrock takes it. Objects stay; a string holding a JSON
/// object becomes that object; null becomes an empty object; other values
/// become their text (arrays rendered as tool results show them).
pub open spec fn normalize_doc(v: Json) -> Json {
    match v {
        Json::Object(_) => v,
        Json::Str(s) => match serde_json_parse(s) {
            Some(Json::Object(ms)) => Json::Object(ms),
            _ => Json::Str(s),
        },
        Json::Null => Json::Object(Seq::empty()),
        Json::Bool(b) => Json::Str(
            if b {
                "true"@
            } else {
                "false"@
            },
        ),
        Json::Number(n) => Json::Str(n),
        Json::Array(items) => Json::Str("["@ + join(items_document_text(items), ","@) + "]"@),
    }
}

/// A string tool input, given what `serde_json` read from it: an object
/// replaces it, anything else leaves the string.
pub fn normalized_string_input(s: String, parsed: Option<JsonValue>) -> (r: JsonValue)
    ensures
        r.deep_view() == match parsed.deep_view() {
            Some(Json::Object(ms)) => Json::Object(ms),
            _ => Json::Str(s@),
        },
{
    match parsed {
        Some(JsonValue::Object(ms)) => JsonValue::Object(ms),
        _ => JsonValue::Str(s),
    }
}

/// Normalizes a tool input (see `normalize_doc`).
pub fn normalize_tool_input_document(doc: JsonValue) -> (r: JsonValue)
    ensures
        r.deep_view() == normalize_doc(doc.deep_view()),
{
    proof {
        reveal_strlit("true");
        reveal_strlit("false");
        reveal_strlit("[");
        reveal_strlit("]");
        reveal_strlit(",");
    }
    match doc {
        JsonValue::Object(ms) => JsonValue::Object(ms),
        JsonValue::Str(s) => {
            let parsed = parse_json(s.as_str());
            normalized_string_input(s, parsed)
        },
        JsonValue::Null => JsonValue::empty_object(),
        JsonValue::Bool(b) => JsonValue::Str(
            if b {
                String::from_str("true")
            } else {
                String::from_str("false")
            },
        ),
        JsonValue::Number(n) => JsonValue::Str(n),
        JsonValue::Array(items) => {
            let whole = document_to_string(&JsonValue::Array(items));
            proof {
                crate::json::lemma_array_view(items);
            }
            JsonValue::Str(whole)
        },
    }
}

/// A tool call's arguments as a document, and whether its text was not JSON.
pub open spec fn args_doc(a: ArgumentsModel) -> (Json, bool) {
    match a {
        ArgumentsModel::String(raw) => match serde_json_parse(raw) {
            Some(v) => (normalize_doc(v), false),
            None => (normalize_doc(Json::Str(raw)), true),
        },
        ArgumentsModel::Value(v) => (normalize_doc(v), false),
    }
}

/// A tool call's arguments as a document (see `args_doc`).
pub fn arguments_to_document(arguments: UnifiedArguments) -> (r: (JsonValue, bool))
    ensures
        (r.0.deep_view(), r.1) == args_doc(arguments.deep_view()),
{
    match arguments {
        UnifiedArguments::String(raw) => match parse_json(raw.as_str()) {
            Some(value) => (normalize_tool_input_document(value), false),
            None => (normalize_tool_input_document(JsonValue::Str(raw)), true),
        },
        UnifiedArguments::Value(value) => (normalize_tool_input_document(value), false),
    }
}

/// A tool-use block.
pub fn build_tool_use_content_block(id: String, name: String, input: JsonValue) -> (r: Option<ContentBlock>)
    ensures
        r.deep_view() == Some(BlockModelB::ToolUse { tool_use_id: id@, name: name@, input: input.deep_view() }),
{
    Some(ContentBlock::ToolUse { tool_use_id: id, name, input })
}

/// The text of a tool result: several texts joined with newlines.
pub fn tool_result_text(content: UnifiedToolResultContent) -> (r: String)
    ensures
        r@ == tool_result_text_of(content.deep_view()),
{
    proof {
        reveal_strlit("\n");
    }
    match content {
        UnifiedToolResultContent::Text(text) => text,
        UnifiedToolResultContent::Multiple(parts) => join_strings(&parts, "\n"),
    }
}

pub open spec fn result_block(id: Seq<char>, text: Seq<char>) -> BlockModelB {
    BlockModelB::ToolResult { tool_use_id: id, content: seq![ResultItemModel::Text(text)], status: None }
}

/// A tool-result block holding one text.
pub fn build_tool_result_block(id: String, text: String) -> (r: Option<ContentBlock>)
    ensures
        r.deep_view() == Some(result_block(id@, text@)),
{
    let ghost (iv, tv) = (id@, text@);
    let mut content: Vec<ToolResultItem> = Vec::new();
    content.push(ToolResultItem::Text(text));
    assert(content.deep_view() =~= seq![ResultItemModel::Text(tv)]);
    Some(ContentBlock::ToolResult { tool_use_id: id, content, status: None })
}

pub open spec fn system_text_block(c: ContentModel) -> Option<Seq<char>> {
    match c {
        ContentModel::Text { text } => if text.len() > 0 {
            Some(text)
        } else {
            None
        },
        _ => None,
    }
}

/// The system blocks of a system message: its non-empty texts.
pub open spec fn system_blocks_of(c: ContainerModel) -> Seq<Seq<char>> {
    match c {
        ContainerModel::Text(t) => if t.len() == 0 {
            Seq::empty()
        } else {
            seq![t]
        },
        ContainerModel::Blocks(bs) => filter_map(bs, |b: ContentModel| system_text_block(b)),
    }
}

/// The system blocks of a system message (see `system_blocks_of`).
pub fn system_blocks_from_content(content: UnifiedContentContainer) -> (r: Vec<SystemContentBlock>)
    ensures
        system_texts(r@) == system_blocks_of(content.deep_view()),
{
    let mut out: Vec<SystemContentBlock> = Vec::new();
    match content {
        UnifiedContentContainer::Text(text) => {
            let ghost tv = text@;
            if !text.as_str().is_empty() {
                out.push(SystemContentBlock { text });
            }
            assert(system_texts(out@) =~= system_blocks_of(content.deep_view()));
        },
        UnifiedContentContainer::Blocks(blocks) => {
            let ghost b0 = blocks;
            let ghost bs = blocks.deep_view();
            let ghost f = |b: ContentModel| system_text_block(b);
            assert(bs.take(0) =~= Seq::<ContentModel>::empty());
            assert(system_texts(out@) =~= filter_map(bs.take(0), f));
            for b in it: blocks.into_iter()
                invariant
                    it.seq() == b0@,
                    bs == b0.deep_view(),
                    f == (|b: ContentModel| system_text_block(b)),
                    system_texts(out@) == filter_map(bs.take(it.index() as int), f),
            {
                proof {
                    lemma_filter_map_step(bs, f, it.index() as int);
                }
                match b {
                    UnifiedContent::Text { text } => {
                        if !text.as_str().is_empty() {
                            let ghost before = system_texts(out@);
                            let ghost tv = text@;
                            out.push(SystemContentBlock { text });
                            assert(system_texts(out@) =~= before.push(tv));
                        }
                    },
                    _ => {},
                }
            }
            assert(bs.take(bs.len() as int) =~= bs);
        },
    }
    out
}

pub open spec fn text_block_if_any(t: Seq<char>) -> Seq<BlockModelB> {
    if t.len() == 0 {
        Seq::empty()
    } else {
        seq![BlockModelB::Text(t)]
    }
}

/// The block a content item gives: non-empty text as text, tool use with
/// its input normalized, a tool result as its text (prefixed `ERROR: ` for
/// errors), an image as a note.
pub open spec fn item_block(c: ContentModel) -> Option<BlockModelB> {
    match c {
        ContentModel::Text { text } => if text.len() == 0 {
            None
        } else {
            Some(BlockModelB::Text(text))
        },
        ContentModel::ToolUse { id, name, input } => Some(
            BlockModelB::ToolUse { tool_use_id: id, name, input: normalize_doc(input) },
        ),
        ContentModel::ToolResult { tool_use_id, content, is_error } => Some(
            result_block(
                tool_use_id,
                if is_error == Some(true) {
                    "ERROR: "@ + tool_result_text_of(content)
                } else {
                    tool_result_text_of(content)
                },
            ),
        ),
        ContentModel::Image { .. } => Some(BlockModelB::Text("[Image content not supported]"@)),
    }
}

pub open spec fn call_block(c: ToolCallModel) -> BlockModelB {
    BlockModelB::ToolUse {
        tool_use_id: c.id,
        name: c.function.name,
        input: args_doc(c.function.arguments).0,
    }
}

pub open spec fn role_of(r: UnifiedRole) -> ConversationRole {
    if r == UnifiedRole::Assistant {
        ConversationRole::Assistant
    } else {
        ConversationRole::User
    }
}

/// The role and blocks of a non-system message: its content, then its tool
/// calls; a tool reply with text and a call id is that call's result, and a
/// tool reply without blocks still answers its call with an empty result.
pub open spec fn message_blocks(m: MessageModel) -> (ConversationRole, Seq<BlockModelB>) {
    let b1 = match m.content {
        ContainerModel::Text(t) => if m.role == UnifiedRole::Tool {
            match m.tool_call_id {
                Some(id) => seq![result_block(id, t)],
                None => text_block_if_any(t),
            }
        } else {
            text_block_if_any(t)
        },
        ContainerModel::Blocks(items) => filter_map(items, |c: ContentModel| item_block(c)),
    };
    let b2 = b1 + match m.tool_calls {
        Some(cs) => cs.map_values(|c: ToolCallModel| call_block(c)),
        None => Seq::empty(),
    };
    let b3 = if m.role == UnifiedRole::Tool && b2.len() == 0 {
        match m.tool_call_id {
            Some(id) => seq![result_block(id, Seq::empty())],
            None => b2,
        }
    } else {
        b2
    };
    (role_of(m.role), b3)
}

fn item_to_block(item: UnifiedContent) -> (r: Option<ContentBlock>)
    ensures
        r.deep_view() == item_block(item.deep_view()),
{
    proof {
        reveal_strlit("ERROR: ");
        reveal_strlit("[Image content not supported]");
    }
    match item {
        UnifiedContent::Text { text } => {
            if text.as_str().is_empty() {
                None
            } else {
                Some(ContentBlock::Text(text))
            }
        },
        UnifiedContent::ToolUse { id, name, input } => {
            let doc = normalize_tool_input_document(input);
            build_tool_use_content_block(id, name, doc)
        },
        UnifiedContent::ToolResult { tool_use_id, content, is_error } => {
            let text = tool_result_text(content);
            let text = match is_error {
                Some(true) => concat2("ERROR: ", text.as_str()),
                _ => text,
            };
            build_tool_result_block(tool_use_id, text)
        },
        UnifiedContent::Image { .. } => Some(ContentBlock::Text(String::from_str("[Image content not supported]"))),
    }
}

/// The role and blocks of a non-system message (see `message_blocks`).
pub fn conversation_blocks_from_message(message: UnifiedMessage) -> (r: (ConversationRole, Vec<ContentBlock>))
    ensures
        (r.0, r.1.deep_view()) == message_blocks(message.deep_view()),
{
    let ghost mv = message.deep_view();
    let UnifiedMessage { role: unified_role, content, tool_calls, tool_call_id } = message;
    let role = match unified_role {
        UnifiedRole::Assistant => ConversationRole::Assistant,
        _ => ConversationRole::User,
    };
    let is_tool = match unified_role {
        UnifiedRole::Tool => true,
        _ => false,
    };
    let mut blocks: Vec<ContentBlock> = Vec::new();
    match content {
        UnifiedContentContainer::Text(text) => {
            let ghost tv = text@;
            if is_tool {
                match &tool_call_id {
                    Some(id) => {
                        match build_tool_result_block(id.clone(), text) {
                            Some(b) => blocks.push(b),
                            None => {},
                        }
                    },
                    None => {
                        if !text.as_str().is_empty() {
                            blocks.push(ContentBlock::Text(text));
                        }
                    },
                }
            } else if !text.as_str().is_empty() {
                blocks.push(ContentBlock::Text(text));
            }
            assert(blocks.deep_view() =~= match mv.content {
                ContainerModel::Text(t) => if mv.role == UnifiedRole::Tool {
                    match mv.tool_call_id {
                        Some(id) => seq![result_block(id, t)],
                        None => text_block_if_any(t),
                    }
                } else {
                    text_block_if_any(t)
                },
                _ => Seq::empty(),
            });
        },
        UnifiedContentContainer::Blocks(items) => {
            let ghost b0 = items;
            let ghost bs = items.deep_view();
            let ghost f = |c: ContentModel| item_block(c);
            assert(bs.take(0) =~= Seq::<ContentModel>::empty());
            assert(blocks.deep_view() =~= filter_map(bs.take(0), f));
            for item in it: items.into_iter()
                invariant
                    it.seq() == b0@,
                    bs == b0.deep_view(),
                    f == (|c: ContentModel| item_block(c)),
                    blocks.deep_view() == filter_map(bs.take(it.index() as int), f),
            {
                proof {
                    lemma_filter_map_step(bs, f, it.index() as int);
                }
                match item_to_block(item) {
                    Some(b) => {
                        let ghost before = blocks.deep_view();
                        blocks.push(b);
                        assert(blocks.deep_view() =~= before.push(b.deep_view()));
                    },
                    None => {},
                }
            }
            assert(bs.take(bs.len() as int) =~= bs);
        },
    }
    let ghost b1 = blocks.deep_view();
    match tool_calls {
        Some(calls) => {
            let ghost c0 = calls;
            for call in it: calls.into_iter()
                invariant
                    it.seq() == c0@,
                    blocks@.len() == b1.len() + it.index(),
                    forall|j: int| 0 <= j < b1.len() ==> blocks@[j].deep_view() == b1[j],
                    forall|j: int|
                        0 <= j < it.index() ==> blocks@[b1.len() + j].deep_view() == call_block(c0@[j].deep_view()),
            {
                let UnifiedToolCall { id, function } = call;
                let (input_doc, _used_fallback) = arguments_to_document(function.arguments);
                match build_tool_use_content_block(id, function.name, input_doc) {
                    Some(b) => blocks.push(b),
                    None => {},
                }
            }
            assert(blocks.deep_view() =~= b1 + c0.deep_view().map_values(|c: ToolCallModel| call_block(c)));
        },
        None => {
            assert(blocks.deep_view() =~= b1 + Seq::<BlockModelB>::empty());
        },
    }
    if is_tool && blocks.len() == 0 {
        match tool_call_id {
            Some(id) => {
                match build_tool_result_block(id, String::new()) {
                    Some(b) => {
                        blocks.push(b);
                    },
                    None => {},
                }
                proof {
                    assert(blocks.deep_view() =~= seq![result_block(mv.tool_call_id->0, Seq::empty())]);
                }
            },
            None => {},
        }
    }
    (role, blocks)
}

/// What one message contributes: system blocks, conversation blocks of a
/// role, or nothing.
#[derive(Debug)]
pub enum MessageConversion {
    System(Vec<SystemContentBlock>),
    Conversation { role: ConversationRole, blocks: Vec<ContentBlock> },
    Empty,
}

pub enum ConversionModel {
    System(Seq<Seq<char>>),
    Conversation { role: ConversationRole, blocks: Seq<BlockModelB> },
    Empty,
}

impl DeepView for MessageConversion {
    type V = ConversionModel;

    open spec fn deep_view(&self) -> ConversionModel {
        match self {
            MessageConversion::System(bs) => ConversionModel::System(system_texts(bs@)),
            MessageConversion::Conversation { role, blocks } => ConversionModel::Conversation {
                role: *role,
                blocks: blocks.deep_view(),
            },
            MessageConversion::Empty => ConversionModel::Empty,
        }
    }
}

/// What a message contributes; a message without blocks contributes nothing.
pub open spec fn conversion_of(m: MessageModel) -> ConversionModel {
    if m.role == UnifiedRole::System {
        let bs = system_blocks_of(m.content);
        if bs.len() == 0 {
            ConversionModel::Empty
        } else {
            ConversionModel::System(bs)
        }
    } else {
        let (role, blocks) = message_blocks(m);
        if blocks.len() == 0 {
            ConversionModel::Empty
        } else {
            ConversionModel::Conversation { role, blocks }
        }
    }
}

/// What a message contributes (see `conversion_of`).
pub fn convert_unified_message(message: UnifiedMessage) -> (r: MessageConversion)
    ensures
        r.deep_view() == conversion_of(message.deep_view()),
{
    match message.role {
        UnifiedRole::System => {
            let blocks = system_blocks_from_content(message.content);
            if blocks.len() == 0 {
                MessageConversion::Empty
            } else {
                MessageConversion::System(blocks)
            }
        },
        _ => {
            let (role, blocks) = conversation_blocks_from_message(message);
            if blocks.len() == 0 {
                MessageConversion::Empty
            } else {
                MessageConversion::Conversation { role, blocks }
            }
        },
    }
}

/// The conversation built so far: system texts, finished messages, and the
/// role and blocks of the message being assembled.
pub struct BState {
    pub system: Seq<Seq<char>>,
    pub messages: Seq<BMessage>,
    pub role: Option<ConversationRole>,
    pub blocks: Seq<BlockModelB>,
}

/// One message's contribution: system blocks are collected; blocks of the
/// role being assembled join it, blocks of another role first finish it.
pub open spec fn bstep(s: BState, c: ConversionModel) -> BState {
    match c {
        ConversionModel::System(bs) => BState { system: s.system + bs, ..s },
        ConversionModel::Conversation { role, blocks } => {
            let f = if s.role is Some && s.role->0 != role && s.blocks.len() > 0 {
                BState {
                    messages: s.messages.push(BMessage { role: s.role->0, content: s.blocks }),
                    role: None,
                    blocks: Seq::empty(),
                    ..s
                }
            } else {
                s
            };
            BState { blocks: f.blocks + blocks, role: Some(role), ..f }
        },
        ConversionModel::Empty => s,
    }
}

pub open spec fn bfold(ms: Seq<MessageModel>) -> BState
    decreases ms.len(),
{
    if ms.len() == 0 {
        BState { system: Seq::empty(), messages: Seq::empty(), role: None, blocks: Seq::empty() }
    } else {
        bstep(bfold(ms.drop_last()), conversion_of(ms.last()))
    }
}

/// The system blocks and messages of a conversation: consecutive messages of
/// one role merged into one; no system blocks is `None`.
pub open spec fn messages_to_bedrock(ms: Seq<MessageModel>) -> (Option<Seq<Seq<char>>>, Seq<BMessage>) {
    let s = bfold(ms);
    (
        if s.system.len() == 0 {
            None
        } else {
            Some(s.system)
        },
        if s.role is Some && s.blocks.len() > 0 {
            s.messages.push(BMessage { role: s.role->0, content: s.blocks })
        } else {
            s.messages
        },
    )
}

/// The system blocks and messages of a conversation (see `messages_to_bedrock`).
pub fn convert_unified_messages_to_bedrock(messages: Vec<UnifiedMessage>) -> (r: (
    Option<Vec<SystemContentBlock>>,
    Vec<BedrockMessage>,
))
    ensures
        (match r.0 {
            Some(bs) => Some(system_texts(bs@)),
            None => None,
        }, r.1.deep_view()) == messages_to_bedrock(messages.deep_view()),
{
    let ghost m0 = messages;
    let ghost ms = messages.deep_view();
    let mut system_blocks: Vec<SystemContentBlock> = Vec::new();
    let mut conversation: Vec<BedrockMessage> = Vec::new();
    let mut current_role: Option<ConversationRole> = None;
    let mut current_blocks: Vec<ContentBlock> = Vec::new();
    assert(ms.take(0) =~= Seq::<MessageModel>::empty());
    assert(system_texts(system_blocks@) =~= Seq::<Seq<char>>::empty());
    assert(conversation.deep_view() =~= Seq::<BMessage>::empty());
    assert(current_blocks.deep_view() =~= Seq::<BlockModelB>::empty());
    for message in it: messages.into_iter()
        invariant
            it.seq() == m0@,
            ms == m0.deep_view(),
            (BState {
                system: system_texts(system_blocks@),
                messages: conversation.deep_view(),
                role: current_role,
                blocks: current_blocks.deep_view(),
            }) == bfold(ms.take(it.index() as int)),
    {
        proof {
            assert(ms.take(it.index() + 1).drop_last() =~= ms.take(it.index() as int));
        }
        match convert_unified_message(message) {
            MessageConversion::System(blocks) => {
                let ghost before = system_texts(system_blocks@);
                let ghost more = system_texts(blocks@);
                let mut blocks = blocks;
                system_blocks.append(&mut blocks);
                assert(system_texts(system_blocks@) =~= before + more);
            },
            MessageConversion::Conversation { role, blocks } => {
                let switch = match current_role {
                    Some(prev) => prev != role && current_blocks.len() > 0,
                    None => false,
                };
                if switch {
                    let prev = current_role.unwrap();
                    let mut finished: Vec<ContentBlock> = Vec::new();
                    std::mem::swap(&mut finished, &mut current_blocks);
                    let ghost before = conversation.deep_view();
                    let ghost fv = finished.deep_view();
                    conversation.push(BedrockMessage { role: prev, content: finished });
                    assert(conversation.deep_view() =~= before.push(BMessage { role: prev, content: fv }));
                    assert(current_blocks.deep_view() =~= Seq::<BlockModelB>::empty());
                    current_role = None;
                }
                let ghost before = current_blocks.deep_view();
                let ghost more = blocks.deep_view();
                let mut blocks = blocks;
                current_blocks.append(&mut blocks);
                assert(current_blocks.deep_view() =~= before + more);
                current_role = Some(role);
            },
            MessageConversion::Empty => {},
        }
    }
    assert(ms.take(ms.len() as int) =~= ms);
    match current_role {
        Some(role) => {
            if current_blocks.len() > 0 {
                let ghost before = conversation.deep_view();
                let ghost bv = current_blocks.deep_view();
                conversation.push(BedrockMessage { role, content: current_blocks });
                assert(conversation.deep_view() =~= before.push(BMessage { role, content: bv }));
            }
        },
        None => {},
    }
    let system = if system_blocks.len() == 0 {
        None
    } else {
        Some(system_blocks)
    };
    (system, conversation)
}

/// A unified request as a Converse request: the request's system prompt
/// replaces system messages; tools are configured only when there are some.
pub open spec fn converse_request(r: RequestModel) -> ConverseModel {
    let (sys, msgs) = messages_to_bedrock(r.messages);
    ConverseModel {
        model_id: r.model,
        messages: msgs,
        system: match r.system {
            Some(s) => Some(seq![s]),
            None => sys,
        },
        inference_config: inference_of(r.temperature, r.max_tokens, r.top_p, r.stop_sequences),
        tool_config: match r.tools {
            Some(ts) => if ts.len() == 0 {
                None
            } else {
                Some(tool_config_of(ts, r.tool_choice, r.model))
            },
            None => None,
        },
    }
}

impl ConverseRequest {
    /// The Converse request for a unified request (see `converse_request`);
    /// the same request serves the streaming call.
    pub fn from_unified(request: UnifiedRequest) -> (r: ConverseRequest)
        ensures
            r.deep_view() == converse_request(request.deep_view()),
    {
        let UnifiedRequest {
            model,
            messages,
            system,
            temperature,
            max_tokens,
            top_p,
            top_k: _,
            frequency_penalty: _,
            presence_penalty: _,
            stop_sequences,
            stream: _,
            tools,
            tool_choice,
            parallel_tool_calls: _,
            metadata: _,
        } = request;
        let inference_config = build_inference_config(temperature, max_tokens, top_p, stop_sequences);
        let (extracted_system, messages) = convert_unified_messages_to_bedrock(messages);
        let system = match system {
            Some(s) => {
                let ghost sv = s@;
                let mut v: Vec<SystemContentBlock> = Vec::new();
                v.push(SystemContentBlock { text: s });
                assert(system_texts(v@) =~= seq![sv]);
                Some(v)
            },
            None => extracted_system,
        };
        let tool_config = match tools {
            Some(list) => {
                if list.len() == 0 {
                    None
                } else {
                    Some(convert_tools(list, tool_choice, model.as_str()))
                }
            },
            None => None,
        };
        ConverseRequest { model_id: model, messages, system, inference_config, tool_config }
    }
}

} // verus!
