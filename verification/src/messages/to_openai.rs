//! Conversions from the unified types to OpenAI protocol types.
use vstd::prelude::*;

use crate::json::{serde_json_text, to_json_text};
use crate::messages::openai::{
    ChatChoice, ChatChoiceDelta, ChatChoiceDeltaModel, ChatChoiceModel, ChatChunkModel,
    ChatCompletionChunk, ChatCompletionRequest, ChatCompletionResponse, ChatDeltaModel,
    ChatMessage, ChatMessageDelta, ChatMessageModel, ChatRequestModel, ChatResponseModel, ChatRole,
    ChatRoleModel, FinishReason, FinishReasonModel, FunctionCall, FunctionDefinition,
    FunctionDelta, FunctionStart, Model, ModelsResponse, ObjectType, OpenAiModelInfo,
    OpenAiModelsModel, OpenAiToolChoiceModel, StreamingCallModel, StreamingToolCall, Tool,
    ToolCall, ToolCallInfo, ToolCallType, ToolChoice, ToolChoiceFunction, ToolChoiceMode,
    ToolChoiceModeModel, ToolModel, Usage,
};
use crate::messages::unified::{
    ArgumentsModel, ChoiceDeltaModel, ChoiceModel, ChunkModel, ContainerModel, ContentModel,
    FunctionModel, MessageModel, ModelInfo, ModelsModel, RequestModel, ResponseModel,
    StreamingToolCallModel, ToolCallModel, ToolChoiceModel, ToolResultModel, UnifiedArguments,
    UnifiedChunk, UnifiedContent, UnifiedContentContainer, UnifiedFinishReason, UnifiedMessage,
    UnifiedModel, UnifiedModelsResponse, UnifiedRequest, UnifiedResponse, UnifiedRole,
    UnifiedStreamingToolCall, UnifiedTool, UnifiedToolChoice, UnifiedToolChoiceMode,
    UnifiedToolResultContent,
};
use crate::seqs::{filter_map, join, join_strings, lemma_filter_map_step};

verus! {

broadcast use vstd::std_specs::vec::group_vec_axioms;

pub open spec fn role_to_openai(r: UnifiedRole) -> ChatRoleModel {
    match r {
        UnifiedRole::System => ChatRoleModel::System,
        UnifiedRole::User => ChatRoleModel::User,
        UnifiedRole::Assistant => ChatRoleModel::Assistant,
        UnifiedRole::Tool => ChatRoleModel::Tool,
    }
}

/// The text a block contributes to an OpenAI message: a text block's text or
/// a tool result's text (several texts joined with newlines).
pub open spec fn block_text(b: ContentModel) -> Option<Seq<char>> {
    match b {
        ContentModel::Text { text } => Some(text),
        ContentModel::ToolResult { content, .. } => match content {
            ToolResultModel::Text(t) => Some(t),
            ToolResultModel::Multiple(ts) => Some(join(ts, "\n"@)),
        },
        _ => None,
    }
}

/// Tool arguments as JSON text; a value is written by `serde_json`.
pub open spec fn arguments_text(a: ArgumentsModel) -> Seq<char> {
    match a {
        ArgumentsModel::String(s) => s,
        ArgumentsModel::Value(v) => serde_json_text(v),
    }
}

pub open spec fn call_to_openai(c: ToolCallModel) -> ToolCallInfo {
    ToolCallInfo { id: c.id, name: c.function.name, arguments: arguments_text(c.function.arguments) }
}

/// A message in OpenAI form: blocks become their texts joined with
/// newlines (no content when there are none); images and tool uses carry no text.
pub open spec fn message_to_openai(m: MessageModel) -> ChatMessageModel {
    ChatMessageModel {
        role: role_to_openai(m.role),
        content: match m.content {
            ContainerModel::Text(t) => Some(t),
            ContainerModel::Blocks(bs) => {
                let parts = filter_map(bs, |b: ContentModel| block_text(b));
                if parts.len() == 0 {
                    None
                } else {
                    Some(join(parts, "\n"@))
                }
            },
        },
        tool_calls: match m.tool_calls {
            Some(cs) => Some(cs.map_values(|c: ToolCallModel| call_to_openai(c))),
            None => None,
        },
        tool_call_id: m.tool_call_id,
    }
}

pub open spec fn tool_to_openai(f: FunctionModel) -> ToolModel {
    ToolModel { name: f.name, description: f.description, parameters: f.parameters }
}

pub open spec fn mode_to_openai(m: UnifiedToolChoiceMode) -> ToolChoiceModeModel {
    match m {
        UnifiedToolChoiceMode::Disabled => ToolChoiceModeModel::Disabled,
        UnifiedToolChoiceMode::Auto => ToolChoiceModeModel::Auto,
        UnifiedToolChoiceMode::Required => ToolChoiceModeModel::Required,
    }
}

pub open spec fn tool_choice_to_openai(c: ToolChoiceModel) -> OpenAiToolChoiceModel {
    match c {
        ToolChoiceModel::Mode(m) => OpenAiToolChoiceModel::Mode(mode_to_openai(m)),
        ToolChoiceModel::Specific { name } => OpenAiToolChoiceModel::Specific { name },
    }
}

pub open spec fn system_message(text: Seq<char>) -> ChatMessageModel {
    ChatMessageModel { role: ChatRoleModel::System, content: Some(text), tool_calls: None, tool_call_id: None }
}

/// A request in OpenAI form: the system prompt becomes a leading system message.
pub open spec fn request_to_openai(r: RequestModel) -> ChatRequestModel {
    ChatRequestModel {
        model: r.model,
        messages: match r.system {
            Some(s) => seq![system_message(s)],
            None => Seq::empty(),
        } + r.messages.map_values(|m: MessageModel| message_to_openai(m)),
        temperature: r.temperature,
        max_tokens: r.max_tokens,
        top_p: r.top_p,
        frequency_penalty: r.frequency_penalty,
        presence_penalty: r.presence_penalty,
        stop: r.stop_sequences,
        stream: r.stream,
        tools: match r.tools {
            Some(ts) => Some(ts.map_values(|t: FunctionModel| tool_to_openai(t))),
            None => None,
        },
        tool_choice: match r.tool_choice {
            Some(c) => Some(tool_choice_to_openai(c)),
            None => None,
        },
        parallel_tool_calls: r.parallel_tool_calls,
    }
}

pub open spec fn finish_to_openai(f: UnifiedFinishReason) -> FinishReasonModel {
    match f {
        UnifiedFinishReason::Stop => FinishReasonModel::Stop,
        UnifiedFinishReason::Length => FinishReasonModel::Length,
        UnifiedFinishReason::ContentFilter => FinishReasonModel::ContentFilter,
        UnifiedFinishReason::ToolCalls => FinishReasonModel::ToolCalls,
    }
}

/// A choice in OpenAI form; a missing finish reason becomes `stop`.
pub open spec fn choice_to_openai(c: ChoiceModel) -> ChatChoiceModel {
    ChatChoiceModel {
        index: c.index,
        message: message_to_openai(c.message),
        finish_reason: match c.finish_reason {
            Some(f) => finish_to_openai(f),
            None => FinishReasonModel::Stop,
        },
    }
}

pub open spec fn response_to_openai(r: ResponseModel) -> ChatResponseModel {
    ChatResponseModel {
        id: r.id,
        object: ObjectType::ChatCompletion,
        created: r.created,
        model: r.model,
        choices: r.choices.map_values(|c: ChoiceModel| choice_to_openai(c)),
        usage: Usage {
            prompt_tokens: r.usage.prompt_tokens,
            completion_tokens: r.usage.completion_tokens,
            total_tokens: r.usage.total_tokens,
        },
    }
}

pub open spec fn streaming_call_to_openai(c: StreamingToolCallModel) -> StreamingCallModel {
    match c {
        StreamingToolCallModel::Start { index, id, name, arguments } => StreamingCallModel::Start {
            index,
            id,
            name,
            arguments,
        },
        StreamingToolCallModel::Delta { index, arguments } => StreamingCallModel::Delta {
            index,
            arguments,
        },
    }
}

pub open spec fn choice_delta_to_openai(c: ChoiceDeltaModel) -> ChatChoiceDeltaModel {
    ChatChoiceDeltaModel {
        index: c.index,
        logprobs: None,
        delta: ChatDeltaModel {
            role: match c.delta.role {
                Some(r) => Some(role_to_openai(r)),
                None => None,
            },
            content: c.delta.content,
            function_call: None,
            tool_calls: match c.delta.tool_calls {
                Some(cs) => Some(cs.map_values(|x: StreamingToolCallModel| streaming_call_to_openai(x))),
                None => None,
            },
        },
        finish_reason: match c.finish_reason {
            Some(f) => Some(finish_to_openai(f)),
            None => None,
        },
    }
}

pub open spec fn chunk_to_openai(c: ChunkModel) -> ChatChunkModel {
    ChatChunkModel {
        id: c.id,
        object: ObjectType::ChatCompletionChunk,
        created: c.created,
        model: c.model,
        system_fingerprint: None,
        choices: c.choices.map_values(|x: ChoiceDeltaModel| choice_delta_to_openai(x)),
        usage: match c.usage {
            Some(u) => Some(
                Usage {
                    prompt_tokens: u.prompt_tokens,
                    completion_tokens: u.completion_tokens,
                    total_tokens: u.total_tokens,
                },
            ),
            None => None,
        },
    }
}

pub open spec fn model_to_openai(m: ModelInfo) -> OpenAiModelInfo {
    OpenAiModelInfo { id: m.id, object: ObjectType::Model, created: m.created, owned_by: m.owned_by }
}

pub open spec fn models_to_openai(r: ModelsModel) -> OpenAiModelsModel {
    OpenAiModelsModel {
        object: ObjectType::List,
        data: r.models.map_values(|m: ModelInfo| model_to_openai(m)),
    }
}

impl ChatRole {
    pub fn from_unified(r: UnifiedRole) -> (c: ChatRole)
        ensures
            c.deep_view() == role_to_openai(r),
    {
        match r {
            UnifiedRole::System => ChatRole::System,
            UnifiedRole::User => ChatRole::User,
            UnifiedRole::Assistant => ChatRole::Assistant,
            UnifiedRole::Tool => ChatRole::Tool,
        }
    }
}

fn block_into_text(b: UnifiedContent) -> (r: Option<String>)
    ensures
        r.deep_view() == block_text(b.deep_view()),
{
    proof {
        reveal_strlit("\n");
    }
    match b {
        UnifiedContent::Text { text } => Some(text),
        UnifiedContent::ToolResult { content, .. } => match content {
            UnifiedToolResultContent::Text(t) => Some(t),
            UnifiedToolResultContent::Multiple(ts) => Some(join_strings(&ts, "\n")),
        },
        _ => None,
    }
}

/// The JSON text of tool arguments; a value is written with `serde_json`.
pub fn arguments_to_text(a: UnifiedArguments) -> (r: String)
    ensures
        r@ == arguments_text(a.deep_view()),
{
    match a {
        UnifiedArguments::String(s) => s,
        UnifiedArguments::Value(v) => to_json_text(&v),
    }
}

impl ChatMessage {
    /// The OpenAI form of a unified message.
    pub fn from_unified(m: UnifiedMessage) -> (r: ChatMessage)
        ensures
            r.deep_view() == message_to_openai(m.deep_view()),
    {
        proof {
            reveal_strlit("\n");
        }
        let role = ChatRole::from_unified(m.role);
        let content = match m.content {
            UnifiedContentContainer::Text(text) => Some(text),
            UnifiedContentContainer::Blocks(blocks) => {
                let ghost b0 = blocks;
                let ghost bs = blocks.deep_view();
                let ghost f = |b: ContentModel| block_text(b);
                let mut parts: Vec<String> = Vec::new();
                assert(bs.take(0) =~= Seq::<ContentModel>::empty());
                for b in it: blocks.into_iter()
                    invariant
                        it.seq() == b0@,
                        bs == b0.deep_view(),
                        f == (|b: ContentModel| block_text(b)),
                        parts.deep_view() == filter_map(bs.take(it.index() as int), f),
                {
                    proof {
                        lemma_filter_map_step(bs, f, it.index() as int);
                    }
                    match block_into_text(b) {
                        Some(t) => {
                            let ghost before = parts.deep_view();
                            parts.push(t);
                            assert(parts.deep_view() =~= before.push(t@));
                        },
                        None => {},
                    }
                }
                assert(bs.take(bs.len() as int) =~= bs);
                if parts.len() == 0 {
                    None
                } else {
                    Some(join_strings(&parts, "\n"))
                }
            },
        };
        let tool_calls = match m.tool_calls {
            Some(calls) => {
                let ghost c0 = calls;
                let mut out: Vec<ToolCall> = Vec::new();
                for c in it: calls.into_iter()
                    invariant
                        it.seq() == c0@,
                        out@.len() == it.index(),
                        forall|j: int|
                            0 <= j < it.index() ==> out@[j].deep_view() == call_to_openai(
                                c0@[j].deep_view(),
                            ),
                {
                    out.push(
                        ToolCall {
                            id: c.id,
                            tool_type: ToolCallType::Function,
                            function: FunctionCall {
                                name: c.function.name,
                                arguments: arguments_to_text(c.function.arguments),
                            },
                        },
                    );
                }
                assert(out.deep_view() =~= c0.deep_view().map_values(
                    |c: ToolCallModel| call_to_openai(c),
                ));
                Some(out)
            },
            None => None,
        };
        ChatMessage { role, content, tool_calls, tool_call_id: m.tool_call_id }
    }
}

impl Tool {
    pub fn from_unified(t: UnifiedTool) -> (r: Tool)
        ensures
            r.deep_view() == tool_to_openai(t.deep_view()),
    {
        Tool {
            tool_type: ToolCallType::Function,
            function: FunctionDefinition {
                name: t.function.name,
                description: t.function.description,
                parameters: t.function.parameters,
            },
        }
    }
}

impl ToolChoiceMode {
    pub fn from_unified(m: UnifiedToolChoiceMode) -> (r: ToolChoiceMode)
        ensures
            r.deep_view() == mode_to_openai(m),
    {
        match m {
            UnifiedToolChoiceMode::Disabled => ToolChoiceMode::Disabled,
            UnifiedToolChoiceMode::Auto => ToolChoiceMode::Auto,
            UnifiedToolChoiceMode::Required => ToolChoiceMode::Required,
        }
    }
}

impl ToolChoice {
    pub fn from_unified(c: UnifiedToolChoice) -> (r: ToolChoice)
        ensures
            r.deep_view() == tool_choice_to_openai(c.deep_view()),
    {
        match c {
            UnifiedToolChoice::Mode(m) => ToolChoice::Mode(ToolChoiceMode::from_unified(m)),
            UnifiedToolChoice::Specific { function } => ToolChoice::Specific {
                tool_type: ToolCallType::Function,
                function: ToolChoiceFunction { name: function.name },
            },
        }
    }
}

impl ChatCompletionRequest {
    /// The OpenAI form of a unified request; a system prompt becomes the
    /// first message.
    pub fn from_unified(req: UnifiedRequest) -> (r: ChatCompletionRequest)
        ensures
            r.deep_view() == request_to_openai(req.deep_view()),
    {
        let ghost q = req.deep_view();
        let mut messages: Vec<ChatMessage> = Vec::new();
        match req.system {
            Some(system) => {
                messages.push(
                    ChatMessage {
                        role: ChatRole::System,
                        content: Some(system),
                        tool_calls: None,
                        tool_call_id: None,
                    },
                );
            },
            None => {},
        }
        let ghost head = messages.deep_view();
        assert(head =~= match q.system {
            Some(s) => seq![system_message(s)],
            None => Seq::<ChatMessageModel>::empty(),
        });
        let ghost m0 = req.messages;
        for m in it: req.messages.into_iter()
            invariant
                it.seq() == m0@,
                messages@.len() == head.len() + it.index(),
                forall|j: int| 0 <= j < head.len() ==> messages@[j].deep_view() == head[j],
                forall|j: int|
                    0 <= j < it.index() ==> messages@[head.len() + j].deep_view() == message_to_openai(
                        m0@[j].deep_view(),
                    ),
        {
            messages.push(ChatMessage::from_unified(m));
        }
        assert(messages.deep_view() =~= request_to_openai(q).messages);
        let tools = match req.tools {
            Some(ts) => {
                let ghost t0 = ts;
                let mut out: Vec<Tool> = Vec::new();
                for t in it: ts.into_iter()
                    invariant
                        it.seq() == t0@,
                        out@.len() == it.index(),
                        forall|j: int|
                            0 <= j < it.index() ==> out@[j].deep_view() == tool_to_openai(
                                t0@[j].deep_view(),
                            ),
                {
                    out.push(Tool::from_unified(t));
                }
                assert(out.deep_view() =~= t0.deep_view().map_values(|t: FunctionModel| tool_to_openai(t)));
                Some(out)
            },
            None => None,
        };
        let tool_choice = match req.tool_choice {
            Some(c) => Some(ToolChoice::from_unified(c)),
            None => None,
        };
        ChatCompletionRequest {
            model: req.model,
            messages,
            temperature: req.temperature,
            max_tokens: req.max_tokens,
            top_p: req.top_p,
            frequency_penalty: req.frequency_penalty,
            presence_penalty: req.presence_penalty,
            stop: req.stop_sequences,
            stream: req.stream,
            tools,
            tool_choice,
            parallel_tool_calls: req.parallel_tool_calls,
        }
    }
}

impl FinishReason {
    pub fn from_unified(f: UnifiedFinishReason) -> (r: FinishReason)
        ensures
            r.deep_view() == finish_to_openai(f),
    {
        match f {
            UnifiedFinishReason::Stop => FinishReason::Stop,
            UnifiedFinishReason::Length => FinishReason::Length,
            UnifiedFinishReason::ContentFilter => FinishReason::ContentFilter,
            UnifiedFinishReason::ToolCalls => FinishReason::ToolCalls,
        }
    }
}

impl ChatCompletionResponse {
    /// The OpenAI form of a unified response.
    pub fn from_unified(resp: UnifiedResponse) -> (r: ChatCompletionResponse)
        ensures
            r.deep_view() == response_to_openai(resp.deep_view()),
    {
        let ghost c0 = resp.choices;
        let mut choices: Vec<ChatChoice> = Vec::new();
        for c in it: resp.choices.into_iter()
            invariant
                it.seq() == c0@,
                choices@.len() == it.index(),
                forall|j: int|
                    0 <= j < it.index() ==> choices@[j].deep_view() == choice_to_openai(
                        c0@[j].deep_view(),
                    ),
        {
            let finish_reason = match c.finish_reason {
                Some(f) => FinishReason::from_unified(f),
                None => FinishReason::Stop,
            };
            choices.push(
                ChatChoice { index: c.index, message: ChatMessage::from_unified(c.message), finish_reason },
            );
        }
        assert(choices.deep_view() =~= c0.deep_view().map_values(|c: ChoiceModel| choice_to_openai(c)));
        ChatCompletionResponse {
            id: resp.id,
            object: ObjectType::ChatCompletion,
            created: resp.created,
            model: resp.model,
            choices,
            usage: Usage {
                prompt_tokens: resp.usage.prompt_tokens,
                completion_tokens: resp.usage.completion_tokens,
                total_tokens: resp.usage.total_tokens,
            },
        }
    }
}

impl StreamingToolCall {
    pub fn from_unified(c: UnifiedStreamingToolCall) -> (r: StreamingToolCall)
        ensures
            r.deep_view() == streaming_call_to_openai(c.deep_view()),
    {
        match c {
            UnifiedStreamingToolCall::Start { index, id, function } => StreamingToolCall::Start {
                index,
                id,
                tool_type: ToolCallType::Function,
                function: FunctionStart { name: function.name, arguments: function.arguments },
            },
            UnifiedStreamingToolCall::Delta { index, function } => StreamingToolCall::Delta {
                index,
                function: FunctionDelta { arguments: function.arguments },
            },
        }
    }
}

fn choice_delta_to(c: crate::messages::unified::UnifiedChoiceDelta) -> (r: ChatChoiceDelta)
    ensures
        r.deep_view() == choice_delta_to_openai(c.deep_view()),
{
    let role = match c.delta.role {
        Some(r) => Some(ChatRole::from_unified(r)),
        None => None,
    };
    let tool_calls = match c.delta.tool_calls {
        Some(calls) => {
            let ghost c0 = calls;
            let mut out: Vec<StreamingToolCall> = Vec::new();
            for x in it: calls.into_iter()
                invariant
                    it.seq() == c0@,
                    out@.len() == it.index(),
                    forall|j: int|
                        0 <= j < it.index() ==> out@[j].deep_view() == streaming_call_to_openai(
                            c0@[j].deep_view(),
                        ),
            {
                out.push(StreamingToolCall::from_unified(x));
            }
            assert(out.deep_view() =~= c0.deep_view().map_values(
                |x: StreamingToolCallModel| streaming_call_to_openai(x),
            ));
            Some(out)
        },
        None => None,
    };
    let finish_reason = match c.finish_reason {
        Some(f) => Some(FinishReason::from_unified(f)),
        None => None,
    };
    ChatChoiceDelta {
        index: c.index,
        logprobs: None,
        delta: ChatMessageDelta { role, content: c.delta.content, function_call: None, tool_calls },
        finish_reason,
    }
}

impl ChatCompletionChunk {
    /// The OpenAI form of a unified chunk.
    pub fn from_unified(chunk: UnifiedChunk) -> (r: ChatCompletionChunk)
        ensures
            r.deep_view() == chunk_to_openai(chunk.deep_view()),
    {
        let ghost c0 = chunk.choices;
        let mut choices: Vec<ChatChoiceDelta> = Vec::new();
        for c in it: chunk.choices.into_iter()
            invariant
                it.seq() == c0@,
                choices@.len() == it.index(),
                forall|j: int|
                    0 <= j < it.index() ==> choices@[j].deep_view() == choice_delta_to_openai(
                        c0@[j].deep_view(),
                    ),
        {
            choices.push(choice_delta_to(c));
        }
        assert(choices.deep_view() =~= c0.deep_view().map_values(
            |x: ChoiceDeltaModel| choice_delta_to_openai(x),
        ));
        let usage = match chunk.usage {
            Some(u) => Some(
                Usage {
                    prompt_tokens: u.prompt_tokens,
                    completion_tokens: u.completion_tokens,
                    total_tokens: u.total_tokens,
                },
            ),
            None => None,
        };
        ChatCompletionChunk {
            id: chunk.id,
            object: ObjectType::ChatCompletionChunk,
            created: chunk.created,
            model: chunk.model,
            system_fingerprint: None,
            choices,
            usage,
        }
    }
}

impl Model {
    pub fn from_unified(m: UnifiedModel) -> (r: Model)
        ensures
            r.deep_view() == model_to_openai(m.deep_view()),
    {
        Model { id: m.id, object: ObjectType::Model, created: m.created, owned_by: m.owned_by }
    }
}

impl ModelsResponse {
    pub fn from_unified(r: UnifiedModelsResponse) -> (o: ModelsResponse)
        ensures
            o.deep_view() == models_to_openai(r.deep_view()),
    {
        let ghost m0 = r.models;
        let mut data: Vec<Model> = Vec::new();
        for m in it: r.models.into_iter()
            invariant
                it.seq() == m0@,
                data@.len() == it.index(),
                forall|j: int|
                    0 <= j < it.index() ==> data@[j].deep_view() == model_to_openai(m0@[j].deep_view()),
        {
            data.push(Model::from_unified(m));
        }
        assert(data.deep_view() =~= m0.deep_view().map_values(|m: ModelInfo| model_to_openai(m)));
        ModelsResponse { object: ObjectType::List, data }
    }
}

} // verus!
