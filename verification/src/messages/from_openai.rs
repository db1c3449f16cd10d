//! Conversions from OpenAI protocol types to the unified types.
use vstd::prelude::*;

use crate::messages::openai::{
    ChatChoiceModel, ChatChunkModel, ChatChoiceDeltaModel, ChatCompletionChunk,
    ChatCompletionRequest, ChatCompletionResponse, ChatMessage, ChatMessageModel,
    ChatRequestModel, ChatResponseModel, ChatRole, ChatRoleModel, FinishReason,
    FinishReasonModel, OpenAiToolChoiceModel, StreamingCallModel, StreamingToolCall, Tool,
    ToolChoice, ToolChoiceMode, ToolChoiceModeModel, ToolModel, ToolCallInfo,
};
use crate::messages::unified::{
    ArgumentsModel, ChoiceDeltaModel, ChoiceModel, ChunkModel, ContainerModel, FunctionCallModel,
    FunctionModel, MessageDeltaModel, MessageModel, RequestModel, ResponseModel,
    StreamingToolCallModel, ToolCallModel, ToolChoiceModel, UnifiedArguments, UnifiedChoice,
    UnifiedChoiceDelta, UnifiedChunk, UnifiedContentContainer, UnifiedFinishReason,
    UnifiedFunction, UnifiedFunctionCall, UnifiedFunctionChoice, UnifiedFunctionDelta,
    UnifiedFunctionStart, UnifiedMessage, UnifiedMessageDelta, UnifiedRequest, UnifiedResponse,
    UnifiedRole, UnifiedStreamingToolCall, UnifiedTool, UnifiedToolCall, UnifiedToolChoice,
    UnifiedToolChoiceMode, UnifiedUsage,
};
use crate::seqs::{filter_map, join, join_strings, lemma_filter_map_step};

verus! {

broadcast use vstd::std_specs::vec::group_vec_axioms;

/// A role in unified form; unknown roles become `assistant`.
pub open spec fn role_from_openai(r: ChatRoleModel) -> UnifiedRole {
    match r {
        ChatRoleModel::System => UnifiedRole::System,
        ChatRoleModel::User => UnifiedRole::User,
        ChatRoleModel::Assistant => UnifiedRole::Assistant,
        ChatRoleModel::Tool => UnifiedRole::Tool,
        ChatRoleModel::Other(_) => UnifiedRole::Assistant,
    }
}

pub open spec fn call_from_openai(c: ToolCallInfo) -> ToolCallModel {
    ToolCallModel {
        id: c.id,
        function: FunctionCallModel { name: c.name, arguments: ArgumentsModel::String(c.arguments) },
    }
}

/// A message in unified form: its text, or no blocks when it has none;
/// tool-call arguments stay text.
pub open spec fn message_from_openai(m: ChatMessageModel) -> MessageModel {
    MessageModel {
        role: role_from_openai(m.role),
        content: match m.content {
            Some(t) => ContainerModel::Text(t),
            None => ContainerModel::Blocks(Seq::empty()),
        },
        tool_calls: match m.tool_calls {
            Some(cs) => Some(cs.map_values(|c: ToolCallInfo| call_from_openai(c))),
            None => None,
        },
        tool_call_id: m.tool_call_id,
    }
}

pub open spec fn tool_from_openai(t: ToolModel) -> FunctionModel {
    FunctionModel { name: t.name, description: t.description, parameters: t.parameters, strict: None }
}

/// A tool-choice mode in unified form; `any` means `required`, unknown modes
/// become `auto`.
pub open spec fn mode_from_openai(m: ToolChoiceModeModel) -> UnifiedToolChoiceMode {
    match m {
        ToolChoiceModeModel::Disabled => UnifiedToolChoiceMode::Disabled,
        ToolChoiceModeModel::Auto => UnifiedToolChoiceMode::Auto,
        ToolChoiceModeModel::Required => UnifiedToolChoiceMode::Required,
        ToolChoiceModeModel::Any => UnifiedToolChoiceMode::Required,
        ToolChoiceModeModel::Other(_) => UnifiedToolChoiceMode::Auto,
    }
}

pub open spec fn tool_choice_from_openai(c: OpenAiToolChoiceModel) -> ToolChoiceModel {
    match c {
        OpenAiToolChoiceModel::Mode(m) => ToolChoiceModel::Mode(mode_from_openai(m)),
        OpenAiToolChoiceModel::Specific { name } => ToolChoiceModel::Specific { name },
    }
}

/// The text a system message contributes to the system prompt.
pub open spec fn system_text(m: ChatMessageModel) -> Option<Seq<char>> {
    match m.role {
        ChatRoleModel::System => m.content,
        _ => None,
    }
}

/// A message that stays a message: every one but system messages.
pub open spec fn kept_message(m: ChatMessageModel) -> Option<MessageModel> {
    match m.role {
        ChatRoleModel::System => None,
        _ => Some(message_from_openai(m)),
    }
}

/// A request in unified form: the texts of the system messages, joined with
/// newlines, become the system prompt; the other messages stay in order.
pub open spec fn request_from_openai(r: ChatRequestModel) -> RequestModel {
    let parts = filter_map(r.messages, |m: ChatMessageModel| system_text(m));
    RequestModel {
        model: r.model,
        messages: filter_map(r.messages, |m: ChatMessageModel| kept_message(m)),
        system: if parts.len() == 0 {
            None
        } else {
            Some(join(parts, "\n"@))
        },
        max_tokens: r.max_tokens,
        temperature: r.temperature,
        top_p: r.top_p,
        top_k: None,
        frequency_penalty: r.frequency_penalty,
        presence_penalty: r.presence_penalty,
        stop_sequences: r.stop,
        stream: r.stream,
        tools: match r.tools {
            Some(ts) => Some(ts.map_values(|t: ToolModel| tool_from_openai(t))),
            None => None,
        },
        tool_choice: match r.tool_choice {
            Some(c) => Some(tool_choice_from_openai(c)),
            None => None,
        },
        parallel_tool_calls: r.parallel_tool_calls,
        metadata: None,
    }
}

/// A finish reason in unified form; unknown reasons become `stop`.
pub open spec fn finish_from_openai(f: FinishReasonModel) -> UnifiedFinishReason {
    match f {
        FinishReasonModel::Stop => UnifiedFinishReason::Stop,
        FinishReasonModel::Length => UnifiedFinishReason::Length,
        FinishReasonModel::ContentFilter => UnifiedFinishReason::ContentFilter,
        FinishReasonModel::ToolCalls => UnifiedFinishReason::ToolCalls,
        FinishReasonModel::Other(_) => UnifiedFinishReason::Stop,
    }
}

pub open spec fn choice_from_openai(c: ChatChoiceModel) -> ChoiceModel {
    ChoiceModel {
        index: c.index,
        message: message_from_openai(c.message),
        finish_reason: Some(finish_from_openai(c.finish_reason)),
    }
}

pub open spec fn response_from_openai(r: ChatResponseModel) -> ResponseModel {
    ResponseModel {
        id: r.id,
        model: r.model,
        choices: r.choices.map_values(|c: ChatChoiceModel| choice_from_openai(c)),
        usage: UnifiedUsage {
            prompt_tokens: r.usage.prompt_tokens,
            completion_tokens: r.usage.completion_tokens,
            total_tokens: r.usage.total_tokens,
        },
        created: r.created,
        stop_reason: None,
        stop_sequence: None,
    }
}

pub open spec fn streaming_call_from_openai(c: StreamingCallModel) -> StreamingToolCallModel {
    match c {
        StreamingCallModel::Start { index, id, name, arguments } => StreamingToolCallModel::Start {
            index,
            id,
            name,
            arguments,
        },
        StreamingCallModel::Delta { index, arguments } => StreamingToolCallModel::Delta {
            index,
            arguments,
        },
    }
}

pub open spec fn choice_delta_from_openai(c: ChatChoiceDeltaModel) -> ChoiceDeltaModel {
    ChoiceDeltaModel {
        index: c.index,
        delta: MessageDeltaModel {
            role: match c.delta.role {
                Some(r) => Some(role_from_openai(r)),
                None => None,
            },
            content: c.delta.content,
            tool_calls: match c.delta.tool_calls {
                Some(cs) => Some(cs.map_values(|x: StreamingCallModel| streaming_call_from_openai(x))),
                None => None,
            },
        },
        finish_reason: match c.finish_reason {
            Some(f) => Some(finish_from_openai(f)),
            None => None,
        },
    }
}

pub open spec fn chunk_from_openai(c: ChatChunkModel) -> ChunkModel {
    ChunkModel {
        id: c.id,
        model: c.model,
        choices: c.choices.map_values(|x: ChatChoiceDeltaModel| choice_delta_from_openai(x)),
        usage: match c.usage {
            Some(u) => Some(
                UnifiedUsage {
                    prompt_tokens: u.prompt_tokens,
                    completion_tokens: u.completion_tokens,
                    total_tokens: u.total_tokens,
                },
            ),
            None => None,
        },
        created: c.created,
    }
}

impl UnifiedRole {
    pub fn from_openai(r: ChatRole) -> (u: UnifiedRole)
        ensures
            u == role_from_openai(r.deep_view()),
    {
        match r {
            ChatRole::System => UnifiedRole::System,
            ChatRole::User => UnifiedRole::User,
            ChatRole::Assistant => UnifiedRole::Assistant,
            ChatRole::Tool => UnifiedRole::Tool,
            ChatRole::Other(_) => UnifiedRole::Assistant,
        }
    }
}

impl UnifiedMessage {
    /// The unified form of a chat message.
    pub fn from_openai(m: ChatMessage) -> (r: UnifiedMessage)
        ensures
            r.deep_view() == message_from_openai(m.deep_view()),
    {
        let ghost mv = m.deep_view();
        let role = UnifiedRole::from_openai(m.role);
        let content = match m.content {
            Some(text) => UnifiedContentContainer::Text(text),
            None => {
                let v = Vec::new();
                assert(v.deep_view() =~= Seq::<crate::messages::unified::ContentModel>::empty());
                UnifiedContentContainer::Blocks(v)
            },
        };
        let tool_calls = match m.tool_calls {
            Some(calls) => {
                let ghost c0 = calls;
                let mut out: Vec<UnifiedToolCall> = Vec::new();
                for c in it: calls.into_iter()
                    invariant
                        it.seq() == c0@,
                        out@.len() == it.index(),
                        forall|j: int|
                            0 <= j < it.index() ==> out@[j].deep_view() == call_from_openai(
                                c0@[j].deep_view(),
                            ),
                {
                    out.push(
                        UnifiedToolCall {
                            id: c.id,
                            function: UnifiedFunctionCall {
                                name: c.function.name,
                                arguments: UnifiedArguments::String(c.function.arguments),
                            },
                        },
                    );
                }
                assert(out.deep_view() =~= c0.deep_view().map_values(
                    |c: ToolCallInfo| call_from_openai(c),
                ));
                Some(out)
            },
            None => None,
        };
        UnifiedMessage { role, content, tool_calls, tool_call_id: m.tool_call_id }
    }
}

impl UnifiedTool {
    pub fn from_openai(t: Tool) -> (r: UnifiedTool)
        ensures
            r.deep_view() == tool_from_openai(t.deep_view()),
    {
        UnifiedTool {
            function: UnifiedFunction {
                name: t.function.name,
                description: t.function.description,
                parameters: t.function.parameters,
                strict: None,
            },
        }
    }
}

impl UnifiedToolChoiceMode {
    pub fn from_openai(m: ToolChoiceMode) -> (r: UnifiedToolChoiceMode)
        ensures
            r == mode_from_openai(m.deep_view()),
    {
        match m {
            ToolChoiceMode::Disabled => UnifiedToolChoiceMode::Disabled,
            ToolChoiceMode::Auto => UnifiedToolChoiceMode::Auto,
            ToolChoiceMode::Required => UnifiedToolChoiceMode::Required,
            ToolChoiceMode::Any => UnifiedToolChoiceMode::Required,
            ToolChoiceMode::Other(_) => UnifiedToolChoiceMode::Auto,
        }
    }
}

impl UnifiedToolChoice {
    pub fn from_openai(c: ToolChoice) -> (r: UnifiedToolChoice)
        ensures
            r.deep_view() == tool_choice_from_openai(c.deep_view()),
    {
        match c {
            ToolChoice::Mode(m) => UnifiedToolChoice::Mode(UnifiedToolChoiceMode::from_openai(m)),
            ToolChoice::Specific { function, .. } => UnifiedToolChoice::Specific {
                function: UnifiedFunctionChoice { name: function.name },
            },
        }
    }
}

impl UnifiedRequest {
    /// The unified form of a chat-completions request: system messages with
    /// text become the system prompt, joined with newlines.
    pub fn from_openai(req: ChatCompletionRequest) -> (r: UnifiedRequest)
        ensures
            r.deep_view() == request_from_openai(req.deep_view()),
    {
        let ghost q = req.deep_view();
        let ghost m0 = req.messages;
        let ghost fs = |m: ChatMessageModel| system_text(m);
        let ghost fk = |m: ChatMessageModel| kept_message(m);
        let mut system_parts: Vec<String> = Vec::new();
        let mut messages: Vec<UnifiedMessage> = Vec::new();
        assert(q.messages.take(0) =~= Seq::<ChatMessageModel>::empty());
        for m in it: req.messages.into_iter()
            invariant
                it.seq() == m0@,
                q.messages == m0.deep_view(),
                fs == (|m: ChatMessageModel| system_text(m)),
                fk == (|m: ChatMessageModel| kept_message(m)),
                system_parts.deep_view() == filter_map(q.messages.take(it.index() as int), fs),
                messages.deep_view() == filter_map(q.messages.take(it.index() as int), fk),
        {
            proof {
                lemma_filter_map_step(q.messages, fs, it.index() as int);
                lemma_filter_map_step(q.messages, fk, it.index() as int);
            }
            let is_system = match m.role {
                ChatRole::System => true,
                _ => false,
            };
            if is_system {
                match m.content {
                    Some(c) => {
                        let ghost before = system_parts.deep_view();
                        system_parts.push(c);
                        assert(system_parts.deep_view() =~= before.push(c@));
                    },
                    None => {},
                }
            } else {
                let u = UnifiedMessage::from_openai(m);
                let ghost before = messages.deep_view();
                messages.push(u);
                assert(messages.deep_view() =~= before.push(u.deep_view()));
            }
        }
        assert(q.messages.take(q.messages.len() as int) =~= q.messages);
        proof {
            reveal_strlit("\n");
        }
        let system = if system_parts.len() == 0 {
            None
        } else {
            Some(join_strings(&system_parts, "\n"))
        };
        let tools = match req.tools {
            Some(ts) => {
                let ghost t0 = ts;
                let mut out: Vec<UnifiedTool> = Vec::new();
                for t in it: ts.into_iter()
                    invariant
                        it.seq() == t0@,
                        out@.len() == it.index(),
                        forall|j: int|
                            0 <= j < it.index() ==> out@[j].deep_view() == tool_from_openai(
                                t0@[j].deep_view(),
                            ),
                {
                    out.push(UnifiedTool::from_openai(t));
                }
                assert(out.deep_view() =~= t0.deep_view().map_values(|t: ToolModel| tool_from_openai(t)));
                Some(out)
            },
            None => None,
        };
        let tool_choice = match req.tool_choice {
            Some(c) => Some(UnifiedToolChoice::from_openai(c)),
            None => None,
        };
        UnifiedRequest {
            model: req.model,
            messages,
            system,
            max_tokens: req.max_tokens,
            temperature: req.temperature,
            top_p: req.top_p,
            top_k: None,
            frequency_penalty: req.frequency_penalty,
            presence_penalty: req.presence_penalty,
            stop_sequences: req.stop,
            stream: req.stream,
            tools,
            tool_choice,
            parallel_tool_calls: req.parallel_tool_calls,
            metadata: None,
        }
    }
}

impl UnifiedFinishReason {
    pub fn from_openai(f: FinishReason) -> (r: UnifiedFinishReason)
        ensures
            r == finish_from_openai(f.deep_view()),
    {
        match f {
            FinishReason::Stop => UnifiedFinishReason::Stop,
            FinishReason::Length => UnifiedFinishReason::Length,
            FinishReason::ContentFilter => UnifiedFinishReason::ContentFilter,
            FinishReason::ToolCalls => UnifiedFinishReason::ToolCalls,
            FinishReason::Other(_) => UnifiedFinishReason::Stop,
        }
    }
}

impl UnifiedResponse {
    /// The unified form of a chat-completions response.
    pub fn from_openai(resp: ChatCompletionResponse) -> (r: UnifiedResponse)
        ensures
            r.deep_view() == response_from_openai(resp.deep_view()),
    {
        let ghost c0 = resp.choices;
        let mut choices: Vec<UnifiedChoice> = Vec::new();
        for c in it: resp.choices.into_iter()
            invariant
                it.seq() == c0@,
                choices@.len() == it.index(),
                forall|j: int|
                    0 <= j < it.index() ==> choices@[j].deep_view() == choice_from_openai(
                        c0@[j].deep_view(),
                    ),
        {
            choices.push(
                UnifiedChoice {
                    index: c.index,
                    message: UnifiedMessage::from_openai(c.message),
                    finish_reason: Some(UnifiedFinishReason::from_openai(c.finish_reason)),
                },
            );
        }
        assert(choices.deep_view() =~= c0.deep_view().map_values(
            |c: ChatChoiceModel| choice_from_openai(c),
        ));
        UnifiedResponse {
            id: resp.id,
            model: resp.model,
            choices,
            usage: UnifiedUsage {
                prompt_tokens: resp.usage.prompt_tokens,
                completion_tokens: resp.usage.completion_tokens,
                total_tokens: resp.usage.total_tokens,
            },
            created: resp.created,
            stop_reason: None,
            stop_sequence: None,
        }
    }
}

impl UnifiedStreamingToolCall {
    pub fn from_openai(c: StreamingToolCall) -> (r: UnifiedStreamingToolCall)
        ensures
            r.deep_view() == streaming_call_from_openai(c.deep_view()),
    {
        match c {
            StreamingToolCall::Start { index, id, tool_type: _, function } => UnifiedStreamingToolCall::Start {
                index,
                id,
                function: UnifiedFunctionStart { name: function.name, arguments: function.arguments },
            },
            StreamingToolCall::Delta { index, function } => UnifiedStreamingToolCall::Delta {
                index,
                function: UnifiedFunctionDelta { arguments: function.arguments },
            },
        }
    }
}

fn choice_delta_from(c: crate::messages::openai::ChatChoiceDelta) -> (r: UnifiedChoiceDelta)
    ensures
        r.deep_view() == choice_delta_from_openai(c.deep_view()),
{
    let role = match c.delta.role {
        Some(r) => Some(UnifiedRole::from_openai(r)),
        None => None,
    };
    let tool_calls = match c.delta.tool_calls {
        Some(calls) => {
            let ghost c0 = calls;
            let mut out: Vec<UnifiedStreamingToolCall> = Vec::new();
            for x in it: calls.into_iter()
                invariant
                    it.seq() == c0@,
                    out@.len() == it.index(),
                    forall|j: int|
                        0 <= j < it.index() ==> out@[j].deep_view() == streaming_call_from_openai(
                            c0@[j].deep_view(),
                        ),
            {
                out.push(UnifiedStreamingToolCall::from_openai(x));
            }
            assert(out.deep_view() =~= c0.deep_view().map_values(
                |x: StreamingCallModel| streaming_call_from_openai(x),
            ));
            Some(out)
        },
        None => None,
    };
    let finish_reason = match c.finish_reason {
        Some(f) => Some(UnifiedFinishReason::from_openai(f)),
        None => None,
    };
    UnifiedChoiceDelta {
        index: c.index,
        delta: UnifiedMessageDelta { role, content: c.delta.content, tool_calls },
        finish_reason,
    }
}

impl UnifiedChunk {
    /// The unified form of a chat-completions chunk.
    pub fn from_openai(chunk: ChatCompletionChunk) -> (r: UnifiedChunk)
        ensures
            r.deep_view() == chunk_from_openai(chunk.deep_view()),
    {
        let ghost c0 = chunk.choices;
        let mut choices: Vec<UnifiedChoiceDelta> = Vec::new();
        for c in it: chunk.choices.into_iter()
            invariant
                it.seq() == c0@,
                choices@.len() == it.index(),
                forall|j: int|
                    0 <= j < it.index() ==> choices@[j].deep_view() == choice_delta_from_openai(
                        c0@[j].deep_view(),
                    ),
        {
            choices.push(choice_delta_from(c));
        }
        assert(choices.deep_view() =~= c0.deep_view().map_values(
            |x: ChatChoiceDeltaModel| choice_delta_from_openai(x),
        ));
        let usage = match chunk.usage {
            Some(u) => Some(
                UnifiedUsage {
                    prompt_tokens: u.prompt_tokens,
                    completion_tokens: u.completion_tokens,
                    total_tokens: u.total_tokens,
                },
            ),
            None => None,
        };
        UnifiedChunk { id: chunk.id, model: chunk.model, choices, usage, created: chunk.created }
    }
}

} // verus!
