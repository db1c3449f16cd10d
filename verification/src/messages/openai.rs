//! OpenAI chat-completions protocol types.
use vstd::prelude::*;

use crate::json::{Json, JsonValue, clone_json, lemma_array_view, lemma_object_view, members_view};
use vstd::string::StringExecFns;
use crate::messages::unified::Real32;

verus! {

/// A JSON Schema as tool parameters carry it.
#[derive(Debug)]
pub struct JsonSchema {
    /// The `type` keyword.
    pub schema_type: Option<String>,
    pub description: Option<String>,
    /// The `properties` keyword: named sub-schemas in order, each name once.
    pub properties: Option<Vec<(String, JsonSchema)>>,
    pub required: Option<Vec<String>>,
    pub items: Option<Box<JsonSchema>>,
    /// The `enum` keyword.
    pub enum_values: Option<Vec<JsonValue>>,
    /// The `additionalProperties` keyword.
    pub additional_properties: Option<bool>,
    /// The `$schema` keyword.
    pub schema: Option<String>,
    pub default: Option<JsonValue>,
    pub format: Option<String>,
}

/// The model of a [`JsonSchema`].
pub struct Schema {
    pub schema_type: Option<Seq<char>>,
    pub description: Option<Seq<char>>,
    pub properties: Option<Seq<(Seq<char>, Schema)>>,
    pub required: Option<Seq<Seq<char>>>,
    pub items: Option<Box<Schema>>,
    pub enum_values: Option<Seq<Json>>,
    pub additional_properties: Option<bool>,
    pub schema: Option<Seq<char>>,
    pub default: Option<Json>,
    pub format: Option<Seq<char>>,
}

/// The model of a schema with no keyword set.
pub open spec fn empty_schema() -> Schema {
    Schema {
        schema_type: None,
        description: None,
        properties: None,
        required: None,
        items: None,
        enum_values: None,
        additional_properties: None,
        schema: None,
        default: None,
        format: None,
    }
}

/// The model of a schema.
pub open spec fn schema_view(s: JsonSchema) -> Schema
    decreases s,
{
    proof {
        broadcast use vstd::std_specs::vec::axiom_vec_index_decreases;
    }
    Schema {
        schema_type: s.schema_type.deep_view(),
        description: s.description.deep_view(),
        properties: match s.properties {
            Some(ps) => Some(
                Seq::new(
                    ps.len() as nat,
                    |i: int|
                        if 0 <= i < ps.len() {
                            (ps[i].0@, schema_view(ps[i].1))
                        } else {
                            (Seq::empty(), empty_schema())
                        },
                ),
            ),
            None => None,
        },
        required: s.required.deep_view(),
        items: match s.items {
            Some(b) => Some(Box::new(schema_view(*b))),
            None => None,
        },
        enum_values: s.enum_values.deep_view(),
        additional_properties: s.additional_properties,
        schema: s.schema.deep_view(),
        default: s.default.deep_view(),
        format: s.format.deep_view(),
    }
}

impl DeepView for JsonSchema {
    type V = Schema;

    open spec fn deep_view(&self) -> Schema {
        schema_view(*self)
    }
}

/// The models of named sub-schemas.
pub open spec fn properties_view(ps: Seq<(String, JsonSchema)>) -> Seq<(Seq<char>, Schema)> {
    Seq::new(ps.len(), |i: int| (ps[i].0@, schema_view(ps[i].1)))
}

pub proof fn lemma_properties_view(s: JsonSchema)
    ensures
        s.properties matches Some(ps) ==> schema_view(s).properties == Some(properties_view(ps@)),
        s.properties is None ==> schema_view(s).properties is None,
{
    if let Some(ps) = s.properties {
        assert(schema_view(s).properties->0 =~= properties_view(ps@));
    }
}

impl Default for JsonSchema {
    /// A schema with no keyword set.
    fn default() -> (r: JsonSchema)
        ensures
            r.schema_type is None && r.description is None && r.properties is None
                && r.required is None && r.items is None && r.enum_values is None
                && r.additional_properties is None && r.schema is None && r.default is None
                && r.format is None,
    {
        JsonSchema {
            schema_type: None,
            description: None,
            properties: None,
            required: None,
            items: None,
            enum_values: None,
            additional_properties: None,
            schema: None,
            default: None,
            format: None,
        }
    }
}

/// The sender of a chat message; roles the library does not know are kept.
#[derive(Debug)]
pub enum ChatRole {
    System,
    User,
    Assistant,
    Tool,
    Other(String),
}

pub enum ChatRoleModel {
    System,
    User,
    Assistant,
    Tool,
    Other(Seq<char>),
}

impl DeepView for ChatRole {
    type V = ChatRoleModel;

    open spec fn deep_view(&self) -> ChatRoleModel {
        match self {
            ChatRole::System => ChatRoleModel::System,
            ChatRole::User => ChatRoleModel::User,
            ChatRole::Assistant => ChatRoleModel::Assistant,
            ChatRole::Tool => ChatRoleModel::Tool,
            ChatRole::Other(s) => ChatRoleModel::Other(s@),
        }
    }
}

/// The type of a tool call: always `function`.
#[derive(Debug, Clone, Copy, PartialEq, Eq, Structural)]
pub enum ToolCallType {
    Function,
}

#[derive(Debug)]
pub struct FunctionCall {
    pub name: String,
    /// The arguments as JSON text.
    pub arguments: String,
}

#[derive(Debug)]
pub struct ToolCall {
    pub id: String,
    pub tool_type: ToolCallType,
    pub function: FunctionCall,
}

/// A tool call: its id, function name and argument text.
pub struct ToolCallInfo {
    pub id: Seq<char>,
    pub name: Seq<char>,
    pub arguments: Seq<char>,
}

impl DeepView for ToolCall {
    type V = ToolCallInfo;

    open spec fn deep_view(&self) -> ToolCallInfo {
        ToolCallInfo { id: self.id@, name: self.function.name@, arguments: self.function.arguments@ }
    }
}

/// A chat message.
#[derive(Debug)]
pub struct ChatMessage {
    pub role: ChatRole,
    pub content: Option<String>,
    pub tool_calls: Option<Vec<ToolCall>>,
    pub tool_call_id: Option<String>,
}

pub struct ChatMessageModel {
    pub role: ChatRoleModel,
    pub content: Option<Seq<char>>,
    pub tool_calls: Option<Seq<ToolCallInfo>>,
    pub tool_call_id: Option<Seq<char>>,
}

impl DeepView for ChatMessage {
    type V = ChatMessageModel;

    open spec fn deep_view(&self) -> ChatMessageModel {
        ChatMessageModel {
            role: self.role.deep_view(),
            content: self.content.deep_view(),
            tool_calls: self.tool_calls.deep_view(),
            tool_call_id: self.tool_call_id.deep_view(),
        }
    }
}

/// A function the model may call.
#[derive(Debug)]
pub struct FunctionDefinition {
    pub name: String,
    pub description: String,
    pub parameters: JsonSchema,
}

#[derive(Debug)]
pub struct Tool {
    pub tool_type: ToolCallType,
    pub function: FunctionDefinition,
}

pub struct ToolModel {
    pub name: Seq<char>,
    pub description: Seq<char>,
    pub parameters: Schema,
}

impl DeepView for Tool {
    type V = ToolModel;

    open spec fn deep_view(&self) -> ToolModel {
        ToolModel {
            name: self.function.name@,
            description: self.function.description@,
            parameters: self.function.parameters.deep_view(),
        }
    }
}

/// How the model may use tools; modes the library does not know are kept.
#[derive(Debug)]
pub enum ToolChoiceMode {
    /// `"none"`: no tool may be used.
    Disabled,
    Auto,
    Required,
    Any,
    Other(String),
}

pub enum ToolChoiceModeModel {
    Disabled,
    Auto,
    Required,
    Any,
    Other(Seq<char>),
}

impl DeepView for ToolChoiceMode {
    type V = ToolChoiceModeModel;

    open spec fn deep_view(&self) -> ToolChoiceModeModel {
        match self {
            ToolChoiceMode::Disabled => ToolChoiceModeModel::Disabled,
            ToolChoiceMode::Auto => ToolChoiceModeModel::Auto,
            ToolChoiceMode::Required => ToolChoiceModeModel::Required,
            ToolChoiceMode::Any => ToolChoiceModeModel::Any,
            ToolChoiceMode::Other(s) => ToolChoiceModeModel::Other(s@),
        }
    }
}

#[derive(Debug)]
pub struct ToolChoiceFunction {
    pub name: String,
}

#[derive(Debug)]
pub enum ToolChoice {
    Mode(ToolChoiceMode),
    Specific { tool_type: ToolCallType, function: ToolChoiceFunction },
}

pub enum OpenAiToolChoiceModel {
    Mode(ToolChoiceModeModel),
    Specific { name: Seq<char> },
}

impl DeepView for ToolChoice {
    type V = OpenAiToolChoiceModel;

    open spec fn deep_view(&self) -> OpenAiToolChoiceModel {
        match self {
            ToolChoice::Mode(m) => OpenAiToolChoiceModel::Mode(m.deep_view()),
            ToolChoice::Specific { function, .. } => OpenAiToolChoiceModel::Specific {
                name: function.name@,
            },
        }
    }
}

/// A chat-completions request.
#[derive(Debug)]
pub struct ChatCompletionRequest {
    pub model: String,
    pub messages: Vec<ChatMessage>,
    pub temperature: Option<Real32>,
    pub max_tokens: Option<u32>,
    pub top_p: Option<Real32>,
    pub frequency_penalty: Option<Real32>,
    pub presence_penalty: Option<Real32>,
    pub stop: Option<Vec<String>>,
    pub stream: Option<bool>,
    pub tools: Option<Vec<Tool>>,
    pub tool_choice: Option<ToolChoice>,
    pub parallel_tool_calls: Option<bool>,
}

pub struct ChatRequestModel {
    pub model: Seq<char>,
    pub messages: Seq<ChatMessageModel>,
    pub temperature: Option<Real32>,
    pub max_tokens: Option<u32>,
    pub top_p: Option<Real32>,
    pub frequency_penalty: Option<Real32>,
    pub presence_penalty: Option<Real32>,
    pub stop: Option<Seq<Seq<char>>>,
    pub stream: Option<bool>,
    pub tools: Option<Seq<ToolModel>>,
    pub tool_choice: Option<OpenAiToolChoiceModel>,
    pub parallel_tool_calls: Option<bool>,
}

impl DeepView for ChatCompletionRequest {
    type V = ChatRequestModel;

    open spec fn deep_view(&self) -> ChatRequestModel {
        ChatRequestModel {
            model: self.model@,
            messages: self.messages.deep_view(),
            temperature: self.temperature,
            max_tokens: self.max_tokens,
            top_p: self.top_p,
            frequency_penalty: self.frequency_penalty,
            presence_penalty: self.presence_penalty,
            stop: self.stop.deep_view(),
            stream: self.stream,
            tools: self.tools.deep_view(),
            tool_choice: self.tool_choice.deep_view(),
            parallel_tool_calls: self.parallel_tool_calls,
        }
    }
}

/// The `object` field of responses and listings.
#[derive(Debug, Clone, Copy, PartialEq, Eq, Structural)]
pub enum ObjectType {
    ChatCompletion,
    ChatCompletionChunk,
    Model,
    List,
}

impl DeepView for ObjectType {
    type V = ObjectType;

    open spec fn deep_view(&self) -> ObjectType {
        *self
    }
}

/// Why generation stopped; reasons the library does not know are kept.
#[derive(Debug)]
pub enum FinishReason {
    Stop,
    Length,
    ContentFilter,
    ToolCalls,
    Other(String),
}

pub enum FinishReasonModel {
    Stop,
    Length,
    ContentFilter,
    ToolCalls,
    Other(Seq<char>),
}

impl DeepView for FinishReason {
    type V = FinishReasonModel;

    open spec fn deep_view(&self) -> FinishReasonModel {
        match self {
            FinishReason::Stop => FinishReasonModel::Stop,
            FinishReason::Length => FinishReasonModel::Length,
            FinishReason::ContentFilter => FinishReasonModel::ContentFilter,
            FinishReason::ToolCalls => FinishReasonModel::ToolCalls,
            FinishReason::Other(s) => FinishReasonModel::Other(s@),
        }
    }
}

#[derive(Debug, Clone, Copy, PartialEq, Eq, Structural)]
pub struct Usage {
    pub prompt_tokens: u32,
    pub completion_tokens: u32,
    pub total_tokens: u32,
}

impl DeepView for Usage {
    type V = Usage;

    open spec fn deep_view(&self) -> Usage {
        *self
    }
}

#[derive(Debug)]
pub struct ChatChoice {
    pub index: u32,
    pub message: ChatMessage,
    pub finish_reason: FinishReason,
}

pub struct ChatChoiceModel {
    pub index: u32,
    pub message: ChatMessageModel,
    pub finish_reason: FinishReasonModel,
}

impl DeepView for ChatChoice {
    type V = ChatChoiceModel;

    open spec fn deep_view(&self) -> ChatChoiceModel {
        ChatChoiceModel {
            index: self.index,
            message: self.message.deep_view(),
            finish_reason: self.finish_reason.deep_view(),
        }
    }
}

/// A chat-completions response.
#[derive(Debug)]
pub struct ChatCompletionResponse {
    pub id: String,
    pub object: ObjectType,
    pub created: u64,
    pub model: String,
    pub choices: Vec<ChatChoice>,
    pub usage: Usage,
}

pub struct ChatResponseModel {
    pub id: Seq<char>,
    pub object: ObjectType,
    pub created: u64,
    pub model: Seq<char>,
    pub choices: Seq<ChatChoiceModel>,
    pub usage: Usage,
}

impl DeepView for ChatCompletionResponse {
    type V = ChatResponseModel;

    open spec fn deep_view(&self) -> ChatResponseModel {
        ChatResponseModel {
            id: self.id@,
            object: self.object,
            created: self.created,
            model: self.model@,
            choices: self.choices.deep_view(),
            usage: self.usage,
        }
    }
}

#[derive(Debug)]
pub struct FunctionStart {
    pub name: String,
    pub arguments: String,
}

#[derive(Debug)]
pub struct FunctionDelta {
    pub arguments: String,
}

/// A piece of a streamed tool call.
#[derive(Debug)]
pub enum StreamingToolCall {
    Start { index: usize, id: String, tool_type: ToolCallType, function: FunctionStart },
    Delta { index: usize, function: FunctionDelta },
}

pub enum StreamingCallModel {
    Start { index: usize, id: Seq<char>, name: Seq<char>, arguments: Seq<char> },
    Delta { index: usize, arguments: Seq<char> },
}

impl DeepView for StreamingToolCall {
    type V = StreamingCallModel;

    open spec fn deep_view(&self) -> StreamingCallModel {
        match self {
            StreamingToolCall::Start { index, id, function, .. } => StreamingCallModel::Start {
                index: *index,
                id: id@,
                name: function.name@,
                arguments: function.arguments@,
            },
            StreamingToolCall::Delta { index, function } => StreamingCallModel::Delta {
                index: *index,
                arguments: function.arguments@,
            },
        }
    }
}

/// New content of a streamed message.
#[derive(Debug)]
pub struct ChatMessageDelta {
    pub role: Option<ChatRole>,
    pub content: Option<String>,
    /// The legacy `function_call` field, passed through.
    pub function_call: Option<JsonValue>,
    pub tool_calls: Option<Vec<StreamingToolCall>>,
}

pub struct ChatDeltaModel {
    pub role: Option<ChatRoleModel>,
    pub content: Option<Seq<char>>,
    pub function_call: Option<Json>,
    pub tool_calls: Option<Seq<StreamingCallModel>>,
}

impl DeepView for ChatMessageDelta {
    type V = ChatDeltaModel;

    open spec fn deep_view(&self) -> ChatDeltaModel {
        ChatDeltaModel {
            role: self.role.deep_view(),
            content: self.content.deep_view(),
            function_call: self.function_call.deep_view(),
            tool_calls: self.tool_calls.deep_view(),
        }
    }
}

#[derive(Debug)]
pub struct ChatChoiceDelta {
    pub index: u32,
    pub logprobs: Option<JsonValue>,
    pub delta: ChatMessageDelta,
    pub finish_reason: Option<FinishReason>,
}

pub struct ChatChoiceDeltaModel {
    pub index: u32,
    pub logprobs: Option<Json>,
    pub delta: ChatDeltaModel,
    pub finish_reason: Option<FinishReasonModel>,
}

impl DeepView for ChatChoiceDelta {
    type V = ChatChoiceDeltaModel;

    open spec fn deep_view(&self) -> ChatChoiceDeltaModel {
        ChatChoiceDeltaModel {
            index: self.index,
            logprobs: self.logprobs.deep_view(),
            delta: self.delta.deep_view(),
            finish_reason: self.finish_reason.deep_view(),
        }
    }
}

/// A chunk of a streamed chat completion.
#[derive(Debug)]
pub struct ChatCompletionChunk {
    pub id: String,
    pub object: ObjectType,
    pub created: u64,
    pub model: String,
    pub system_fingerprint: Option<String>,
    pub choices: Vec<ChatChoiceDelta>,
    pub usage: Option<Usage>,
}

pub struct ChatChunkModel {
    pub id: Seq<char>,
    pub object: ObjectType,
    pub created: u64,
    pub model: Seq<char>,
    pub system_fingerprint: Option<Seq<char>>,
    pub choices: Seq<ChatChoiceDeltaModel>,
    pub usage: Option<Usage>,
}

impl DeepView for ChatCompletionChunk {
    type V = ChatChunkModel;

    open spec fn deep_view(&self) -> ChatChunkModel {
        ChatChunkModel {
            id: self.id@,
            object: self.object,
            created: self.created,
            model: self.model@,
            system_fingerprint: self.system_fingerprint.deep_view(),
            choices: self.choices.deep_view(),
            usage: self.usage,
        }
    }
}

/// A model in a listing.
#[derive(Debug)]
pub struct Model {
    pub id: String,
    pub object: ObjectType,
    pub created: u64,
    pub owned_by: String,
}

pub struct OpenAiModelInfo {
    pub id: Seq<char>,
    pub object: ObjectType,
    pub created: u64,
    pub owned_by: Seq<char>,
}

impl DeepView for Model {
    type V = OpenAiModelInfo;

    open spec fn deep_view(&self) -> OpenAiModelInfo {
        OpenAiModelInfo { id: self.id@, object: self.object, created: self.created, owned_by: self.owned_by@ }
    }
}

#[derive(Debug)]
pub struct ModelsResponse {
    pub object: ObjectType,
    pub data: Vec<Model>,
}

pub struct OpenAiModelsModel {
    pub object: ObjectType,
    pub data: Seq<OpenAiModelInfo>,
}

impl DeepView for ModelsResponse {
    type V = OpenAiModelsModel;

    open spec fn deep_view(&self) -> OpenAiModelsModel {
        OpenAiModelsModel { object: self.object, data: self.data.deep_view() }
    }
}

/// Named sub-schemas as JSON members, in order.
pub open spec fn properties_json_of(ps: Seq<(Seq<char>, Schema)>) -> Seq<(Seq<char>, Json)>
    decreases ps,
{
    if ps.len() == 0 {
        Seq::empty()
    } else {
        proof {
            broadcast use vstd::seq::axiom_seq_index_decreases, vstd::seq::axiom_seq_subrange_decreases;
        }
        properties_json_of(ps.drop_last()).push((ps.last().0, schema_json(ps.last().1)))
    }
}

/// A member `(key, value)` when the value is present.
pub open spec fn opt_member(key: Seq<char>, v: Option<Json>) -> Seq<(Seq<char>, Json)> {
    match v {
        Some(j) => seq![(key, j)],
        None => Seq::empty(),
    }
}

pub open spec fn opt_str(o: Option<Seq<char>>) -> Option<Json> {
    match o {
        Some(t) => Some(Json::Str(t)),
        None => None,
    }
}

/// The JSON object a schema is written as: its keywords in the order
/// `type`, `description`, `properties`, `required`, `items`, `enum`,
/// `additionalProperties`, `$schema`, `default`, `format`, absent ones left out.
pub open spec fn schema_json(s: Schema) -> Json
    decreases s,
{
    Json::Object(
        opt_member("type"@, opt_str(s.schema_type)) + opt_member("description"@, opt_str(s.description))
            + opt_member(
            "properties"@,
            match s.properties {
                Some(ps) => Some(Json::Object(properties_json_of(ps))),
                None => None,
            },
        ) + opt_member(
            "required"@,
            match s.required {
                Some(rs) => Some(Json::Array(rs.map_values(|r: Seq<char>| Json::Str(r)))),
                None => None,
            },
        ) + opt_member(
            "items"@,
            match s.items {
                Some(b) => Some(schema_json(*b)),
                None => None,
            },
        ) + opt_member(
            "enum"@,
            match s.enum_values {
                Some(vs) => Some(Json::Array(vs)),
                None => None,
            },
        ) + opt_member(
            "additionalProperties"@,
            match s.additional_properties {
                Some(b) => Some(Json::Bool(b)),
                None => None,
            },
        ) + opt_member("$schema"@, opt_str(s.schema)) + opt_member("default"@, s.default)
            + opt_member("format"@, opt_str(s.format)),
    )
}

fn push_member(ms: &mut Vec<(String, JsonValue)>, key: &str, v: Option<JsonValue>)
    ensures
        members_view(final(ms)@) == members_view(old(ms)@) + opt_member(key@, v.deep_view()),
{
    let ghost before = members_view(ms@);
    match v {
        Some(j) => {
            let ghost jv = j.deep_view();
            ms.push((String::from_str(key), j));
            assert(members_view(ms@) =~= before + seq![(key@, jv)]);
        },
        None => {
            assert(members_view(ms@) =~= before + Seq::<(Seq<char>, Json)>::empty());
        },
    }
}

fn opt_string_json(o: &Option<String>) -> (r: Option<JsonValue>)
    ensures
        r.deep_view() == opt_str(o.deep_view()),
{
    match o {
        Some(t) => Some(JsonValue::Str(t.clone())),
        None => None,
    }
}

impl JsonSchema {
    /// The JSON object this schema is written as (see `schema_json`).
    pub fn to_json(&self) -> (r: JsonValue)
        ensures
            r.deep_view() == schema_json(self.deep_view()),
        decreases self, 1nat,
    {
        proof {
            reveal_strlit("type");
            reveal_strlit("description");
            reveal_strlit("properties");
            reveal_strlit("required");
            reveal_strlit("items");
            reveal_strlit("enum");
            reveal_strlit("additionalProperties");
            reveal_strlit("$schema");
            reveal_strlit("default");
            reveal_strlit("format");
            lemma_properties_view(*self);
        }
        let mut ms: Vec<(String, JsonValue)> = Vec::new();
        assert(members_view(ms@) =~= Seq::<(Seq<char>, Json)>::empty());
        let ghost sv = self.deep_view();
        let t1 = opt_string_json(&self.schema_type);
        push_member(&mut ms, "type", t1);
        push_member(&mut ms, "description", opt_string_json(&self.description));
        let props = match &self.properties {
            Some(ps) => {
                let j = properties_json(ps);
                Some(j)
            },
            None => None,
        };
        push_member(&mut ms, "properties", props);
        let required = match &self.required {
            Some(rs) => {
                let mut items: Vec<JsonValue> = Vec::new();
                let mut k: usize = 0;
                while k < rs.len()
                    invariant
                        0 <= k <= rs.len(),
                        items@.len() == k,
                        forall|j: int| 0 <= j < k ==> items@[j].deep_view() == Json::Str(rs@[j]@),
                    decreases rs.len() - k,
                {
                    items.push(JsonValue::Str(rs[k].clone()));
                    k = k + 1;
                }
                proof {
                    lemma_array_view(items);
                    assert(items.deep_view() =~= rs.deep_view().map_values(|r: Seq<char>| Json::Str(r)));
                }
                Some(JsonValue::Array(items))
            },
            None => None,
        };
        push_member(&mut ms, "required", required);
        assert(required.deep_view() == match sv.required {
                Some(rs) => Some(Json::Array(rs.map_values(|r: Seq<char>| Json::Str(r)))),
                None => None,
            });
        let items = match &self.items {
            Some(b) => Some(b.to_json()),
            None => None,
        };
        push_member(&mut ms, "items", items);
        assert(items.deep_view() == match sv.items {
                Some(b) => Some(schema_json(*b)),
                None => None,
            });
        let enums = match &self.enum_values {
            Some(vs) => {
                let mut out: Vec<JsonValue> = Vec::new();
                let mut k: usize = 0;
                while k < vs.len()
                    invariant
                        0 <= k <= vs.len(),
                        out@.len() == k,
                        forall|j: int| 0 <= j < k ==> out@[j].deep_view() == vs@[j].deep_view(),
                    decreases vs.len() - k,
                {
                    out.push(clone_json(&vs[k]));
                    k = k + 1;
                }
                proof {
                    lemma_array_view(out);
                    assert(out.deep_view() =~= vs.deep_view());
                }
                Some(JsonValue::Array(out))
            },
            None => None,
        };
        push_member(&mut ms, "enum", enums);
        let additional = match self.additional_properties {
            Some(b) => Some(JsonValue::Bool(b)),
            None => None,
        };
        push_member(&mut ms, "additionalProperties", additional);
        push_member(&mut ms, "$schema", opt_string_json(&self.schema));
        let default = match &self.default {
            Some(d) => Some(clone_json(d)),
            None => None,
        };
        push_member(&mut ms, "default", default);
        push_member(&mut ms, "format", opt_string_json(&self.format));
        proof {
            lemma_object_view(ms);
            let sv = self.deep_view();
            assert(sv.schema_type == self.schema_type.deep_view());
            assert(sv.items == match self.items {
                Some(b) => Some(Box::new(schema_view(*b))),
                None => None,
            });
        }
        JsonValue::Object(ms)
    }
}

fn properties_json(ps: &Vec<(String, JsonSchema)>) -> (r: JsonValue)
    ensures
        r.deep_view() == Json::Object(properties_json_of(properties_view(ps@))),
    decreases ps, 0nat,
{
    let ghost pm = properties_view(ps@);
    let mut out: Vec<(String, JsonValue)> = Vec::new();
    let mut k: usize = 0;
    assert(pm.take(0) =~= Seq::<(Seq<char>, Schema)>::empty());
    assert(members_view(out@) =~= Seq::<(Seq<char>, Json)>::empty());
    while k < ps.len()
        invariant
            0 <= k <= ps.len(),
            pm == properties_view(ps@),
            members_view(out@) == properties_json_of(pm.take(k as int)),
        decreases ps.len() - k,
    {
        proof {
            vstd::std_specs::vec::axiom_vec_index_decreases(*ps, k as int);
            assert(decreases_to!(ps[k as int] => ps[k as int].1));
            assert(pm.take(k + 1).drop_last() =~= pm.take(k as int));
        }
        let j = ps[k].1.to_json();
        let ghost before = members_view(out@);
        out.push((ps[k].0.clone(), j));
        assert(members_view(out@) =~= before.push((pm[k as int].0, schema_json(pm[k as int].1))));
        k = k + 1;
    }
    assert(pm.take(ps.len() as int) =~= pm);
    proof {
        lemma_object_view(out);
    }
    JsonValue::Object(out)
}

} // verus!
