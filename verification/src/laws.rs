//! Properties that hold across the library's functions: what a conversion
//! through the unified form keeps, and what the proxy's rules guarantee.
use vstd::prelude::*;
use vstd::relations::injective_on;

use crate::error::{status_error, ErrorModel};
use crate::messages::anthropic::{
    AnthropicMessageModel, AnthropicRequestModel, AnthropicResponseModel, AnthropicRole, BlockModel,
};
use crate::messages::from_anthropic::{
    content_from_anthropic, kept_in_response, message_from_anthropic, request_from_anthropic,
    response_from_anthropic, role_from_anthropic, stop_from_anthropic, tool_choice_from_anthropic,
    tool_result_from_items, usage_fits,
};
use crate::messages::from_openai::{
    chunk_from_openai, streaming_call_from_openai,
    finish_from_openai, kept_message, message_from_openai, request_from_openai, response_from_openai,
    system_text,
};
use crate::messages::openai::{
    ChatChunkModel, StreamingCallModel,
    ChatMessageModel, ChatRequestModel, ChatResponseModel, ObjectType, OpenAiModelInfo,
    OpenAiToolChoiceModel, Schema,
};
use crate::messages::to_anthropic::{
    extra_call_block, head_blocks, is_use_with_id,
    content_to_anthropic, items_from_tool_result, message_to_anthropic, request_to_anthropic,
    response_block, response_to_anthropic, role_to_anthropic, stop_to_anthropic,
    tool_choice_to_anthropic,
};
use crate::messages::to_openai::{
    chunk_to_openai, streaming_call_to_openai,
    finish_to_openai, message_to_openai, request_to_openai, response_to_openai, system_message,
};
use crate::messages::unified::{
    block_tool_call, ArgumentsModel, FunctionCallModel, ChunkModel, ContainerModel, ContentModel, MessageModel, StreamingToolCallModel, ToolCallModel,
};
use crate::json::Json;
use crate::provider::anthropic::output::{
    initial_state, process_step, start_position, text_or_empty, BuilderModel, EventModel, ProcessorState,
};
use crate::provider::bedrock::output::{chunk_of_converse, StreamEventModelB};
use crate::provider::bedrock::input::{
    bfold, bstep, conversion_of, messages_to_bedrock, normalize_doc, BMessage, BState, ConversionModel,
};
use crate::provider::google::input::{kept_format, stripped_schema};
use crate::provider::models::listing;
use crate::provider_mode::{
    choose_mode, client_key, own_key, supports_proxy, ModeChoice, SupportedProviderMode,
};
use crate::proxy::headers::{hop_by_hop, kept_headers, kept_headers_with_content, withheld};
use crate::seqs::{filter_map, flat_map, join};
use crate::provider::google::input::{
    conv_all, contents_with, generate_request, message_parts, st_calls, st_text, system_content, tool_message_parts,
    GConv, GState,
};
use crate::provider::google::output::{GContent, GPart, GoogleRole};
use crate::provider::anthropic::input::{lemma_pmessages_len, pmessage, pmessages, prequest, AnthropicRole as PRole};
use crate::provider::anthropic::output::{chat_of_response, unified_of_response, ProviderResponseModel};
use crate::provider::bedrock::input::{converse_request, message_blocks, ConversationRole};
use crate::provider::bedrock::output::{response_of_converse, ConverseResponseModel, ConverseTokenUsage};
use crate::messages::unified::{RequestModel, ResponseModel, UnifiedRole, UnifiedUsage};

verus! {

/// Whether an Anthropic content block has a unified form that gives it
/// back: an image must be given as base64 (a URL image becomes base64), a
/// tool result must hold only text items (an error item becomes text).
pub open spec fn block_keeps_form(b: BlockModel) -> bool {
    match b {
        BlockModel::Image { source } => source.source_type == "base64"@,
        BlockModel::ToolResult { content, .. } => forall|i: int|
            0 <= i < content.len() ==> (#[trigger] content[i]) is Text,
        _ => true,
    }
}

/// Whether every block of every message of a request keeps its form.
pub open spec fn request_keeps_form(r: AnthropicRequestModel) -> bool {
    forall|i: int, j: int|
        0 <= i < r.messages.len() && 0 <= j < r.messages[i].content.len() ==> block_keeps_form(
            #[trigger] r.messages[i].content[j],
        )
}

proof fn lemma_block_round_trip(b: BlockModel)
    requires
        block_keeps_form(b),
    ensures
        content_to_anthropic(content_from_anthropic(b)) == b,
{
    if let BlockModel::ToolResult { tool_use_id, content } = b {
        let back = items_from_tool_result(tool_result_from_items(content));
        if content.len() == 1 {
            assert(content[0] is Text);
            assert(back =~= content);
        } else {
            assert forall|i: int| 0 <= i < content.len() implies back[i] == content[i] by {
                assert(content[i] is Text);
            }
            assert(back =~= content);
        }
    }
}

proof fn lemma_message_round_trip(m: AnthropicMessageModel)
    requires
        forall|j: int| 0 <= j < m.content.len() ==> block_keeps_form(#[trigger] m.content[j]),
    ensures
        message_to_anthropic(message_from_anthropic(m)) == m,
{
    let back = message_to_anthropic(message_from_anthropic(m));
    assert forall|j: int| 0 <= j < m.content.len() implies back.content[j] == m.content[j] by {
        lemma_block_round_trip(m.content[j]);
    }
    assert(back.content =~= m.content);
    assert(role_to_anthropic(role_from_anthropic(m.role)) == m.role);
}

/// An Anthropic request passes through the unified form unchanged: the
/// conversion the library makes for every Anthropic request and the one it
/// makes for every request sent to Anthropic undo each other, where the
/// request's images are base64 and its tool results hold only text.
pub proof fn law_anthropic_request_round_trip(r: AnthropicRequestModel)
    requires
        request_keeps_form(r),
    ensures
        request_to_anthropic(request_from_anthropic(r)) == r,
{
    let back = request_to_anthropic(request_from_anthropic(r));
    assert forall|i: int| 0 <= i < r.messages.len() implies back.messages[i] == r.messages[i] by {
        assert forall|j: int| 0 <= j < r.messages[i].content.len() implies block_keeps_form(
            #[trigger] r.messages[i].content[j],
        ) by {}
        lemma_message_round_trip(r.messages[i]);
    }
    assert(back.messages =~= r.messages);
    if let Some(ts) = r.tools {
        assert(back.tools->0 =~= ts);
    }
    if let Some(c) = r.tool_choice {
        assert(tool_choice_to_anthropic(tool_choice_from_anthropic(c)) == c);
    }
}

proof fn lemma_filter_map_append<A, B>(s1: Seq<A>, s2: Seq<A>, f: spec_fn(A) -> Option<B>)
    ensures
        filter_map(s1 + s2, f) == filter_map(s1, f) + filter_map(s2, f),
    decreases s2.len(),
{
    if s2.len() == 0 {
        assert(s1 + s2 =~= s1);
        assert(filter_map(s1, f) + filter_map(s2, f) =~= filter_map(s1, f));
    } else {
        lemma_filter_map_append(s1, s2.drop_last(), f);
        assert((s1 + s2).drop_last() =~= s1 + s2.drop_last());
        assert((s1 + s2).last() == s2.last());
        match f(s2.last()) {
            Some(b) => {
                assert(filter_map(s1, f) + filter_map(s2.drop_last(), f).push(b) =~= (filter_map(s1, f)
                    + filter_map(s2.drop_last(), f)).push(b));
            },
            None => {},
        }
    }
}

proof fn lemma_filter_map_single<A, B>(a: A, f: spec_fn(A) -> Option<B>)
    ensures
        filter_map(seq![a], f) == match f(a) {
            Some(b) => seq![b],
            None => Seq::<B>::empty(),
        },
{
    assert(seq![a].drop_last() =~= Seq::<A>::empty());
    assert(filter_map(Seq::<A>::empty(), f) == Seq::<B>::empty());
    match f(a) {
        Some(b) => {
            assert(Seq::<B>::empty().push(b) =~= seq![b]);
        },
        None => {},
    }
}

/// An OpenAI message whose role the unified form keeps and that stays a
/// message (a system message becomes the system prompt).
pub open spec fn openai_message_keeps_form(m: ChatMessageModel) -> bool {
    !(m.role is System) && !(m.role is Other)
}

/// The messages of a request after its leading system message, if any.
pub open spec fn after_system(ms: Seq<ChatMessageModel>) -> Seq<ChatMessageModel> {
    if ms.len() > 0 && ms[0].role is System {
        ms.drop_first()
    } else {
        ms
    }
}

/// Whether an OpenAI request has a unified form that gives it back: at most
/// one system message, leading, with text and nothing else; no other
/// message with a role outside the four known ones; and no tool-choice mode
/// that the unified form merges with another (`any` is `required` there,
/// an unknown mode `auto`).
pub open spec fn openai_request_keeps_form(r: ChatRequestModel) -> bool {
    &&& r.messages.len() > 0 && r.messages[0].role is System ==> {
        &&& r.messages[0].content is Some
        &&& r.messages[0].tool_calls is None
        &&& r.messages[0].tool_call_id is None
    }
    &&& forall|i: int|
        0 <= i < after_system(r.messages).len() ==> openai_message_keeps_form(
            #[trigger] after_system(r.messages)[i],
        )
    &&& match r.tool_choice {
        Some(OpenAiToolChoiceModel::Mode(m)) => !(m is Any) && !(m is Other),
        _ => true,
    }
}

proof fn lemma_openai_message_round_trip(m: ChatMessageModel)
    requires
        !(m.role is Other),
    ensures
        message_to_openai(message_from_openai(m)) == m,
{
    let back = message_to_openai(message_from_openai(m));
    if m.content is None {
        assert(filter_map(Seq::<ContentModel>::empty(), |b: ContentModel| crate::messages::to_openai::block_text(b)).len() == 0);
    }
    if let Some(cs) = m.tool_calls {
        assert(back.tool_calls->0 =~= cs);
    }
}

proof fn lemma_kept_messages(ms: Seq<ChatMessageModel>)
    requires
        forall|i: int| 0 <= i < ms.len() ==> openai_message_keeps_form(#[trigger] ms[i]),
    ensures
        filter_map(ms, |m: ChatMessageModel| kept_message(m)).map_values(
            |m: MessageModel| message_to_openai(m),
        ) == ms,
        filter_map(ms, |m: ChatMessageModel| system_text(m)) == Seq::<Seq<char>>::empty(),
    decreases ms.len(),
{
    if ms.len() > 0 {
        lemma_kept_messages(ms.drop_last());
        lemma_openai_message_round_trip(ms.last());
        let kept = filter_map(ms, |m: ChatMessageModel| kept_message(m));
        assert(kept == filter_map(ms.drop_last(), |m: ChatMessageModel| kept_message(m)).push(
            message_from_openai(ms.last()),
        ));
        let prev = filter_map(ms.drop_last(), |m: ChatMessageModel| kept_message(m));
        assert(kept.map_values(|m: MessageModel| message_to_openai(m)) =~= prev.map_values(
            |m: MessageModel| message_to_openai(m),
        ).push(message_to_openai(message_from_openai(ms.last()))));
        assert(ms =~= ms.drop_last().push(ms.last()));
    } else {
        assert(filter_map(ms, |m: ChatMessageModel| kept_message(m)).map_values(
            |m: MessageModel| message_to_openai(m),
        ) =~= ms);
    }
}

/// An OpenAI request passes through the unified form unchanged: the
/// conversion of every OpenAI request into the unified form and the one of
/// every unified request sent to an OpenAI-compatible API undo each other,
/// where the request has at most one system message, leading and with only
/// text, no message of an unknown role, and no tool-choice mode that the
/// unified form merges with another.
pub proof fn law_openai_request_round_trip(r: ChatRequestModel)
    requires
        openai_request_keeps_form(r),
    ensures
        request_to_openai(request_from_openai(r)) == r,
{
    let ms = r.messages;
    let rest = after_system(ms);
    let u = request_from_openai(r);
    let back = request_to_openai(u);
    lemma_kept_messages(rest);
    if ms.len() > 0 && ms[0].role is System {
        assert(ms =~= seq![ms[0]] + rest);
        lemma_filter_map_append(seq![ms[0]], rest, |m: ChatMessageModel| kept_message(m));
        lemma_filter_map_append(seq![ms[0]], rest, |m: ChatMessageModel| system_text(m));
        lemma_filter_map_single(ms[0], |m: ChatMessageModel| kept_message(m));
        lemma_filter_map_single(ms[0], |m: ChatMessageModel| system_text(m));
        let t = ms[0].content->0;
        let parts = filter_map(ms, |m: ChatMessageModel| system_text(m));
        assert(parts =~= seq![t]);
        assert(join(parts, "\n"@) == t);
        assert(system_message(t) == ms[0]);
        assert(u.messages =~= filter_map(rest, |m: ChatMessageModel| kept_message(m)));
        assert(back.messages =~= ms);
    } else {
        assert(back.messages =~= ms);
    }
    if let Some(ts) = r.tools {
        assert(back.tools->0 =~= ts);
    }
}

/// Whether an OpenAI response has a unified form that gives it back: it is
/// a chat completion, and no message has an unknown role or an unknown
/// finish reason (both are merged with known ones in the unified form).
pub open spec fn openai_response_keeps_form(r: ChatResponseModel) -> bool {
    &&& r.object == ObjectType::ChatCompletion
    &&& forall|i: int|
        0 <= i < r.choices.len() ==> {
            &&& !((#[trigger] r.choices[i]).message.role is Other)
            &&& !(r.choices[i].finish_reason is Other)
        }
}

/// An OpenAI response passes through the unified form unchanged, where it
/// is a chat completion without unknown roles or finish reasons.
pub proof fn law_openai_response_round_trip(r: ChatResponseModel)
    requires
        openai_response_keeps_form(r),
    ensures
        response_to_openai(response_from_openai(r)) == r,
{
    let back = response_to_openai(response_from_openai(r));
    assert forall|i: int| 0 <= i < r.choices.len() implies back.choices[i] == r.choices[i] by {
        let c = r.choices[i];
        lemma_openai_message_round_trip(c.message);
        assert(finish_to_openai(finish_from_openai(c.finish_reason)) == c.finish_reason);
    }
    assert(back.choices =~= r.choices);
}

/// No header that the proxy withholds reaches the upstream API, and every
/// other header does, in its order: the result is exactly the client's
/// headers without the withheld ones.
pub proof fn law_proxied_headers_withhold<V>(hs: Seq<(String, V)>)
    ensures
        forall|i: int| 0 <= i < kept_headers(hs).len() ==> !withheld(#[trigger] kept_headers(hs)[i].0@),
        forall|i: int| 0 <= i < hs.len() && !withheld(hs[i].0@) ==> kept_headers(hs).contains(#[trigger] hs[i]),
        forall|i: int|
            0 <= i < kept_headers_with_content(hs).len() ==> !hop_by_hop(
                #[trigger] kept_headers_with_content(hs)[i].0@,
            ),
{
    broadcast use vstd::seq_lib::group_filter_ensures;

    assert forall|i: int| 0 <= i < kept_headers(hs).len() implies !withheld(#[trigger] kept_headers(hs)[i].0@) by {
        hs.lemma_filter_pred(|h: (String, V)| !withheld(h.0@), i);
    }
    assert forall|i: int| 0 <= i < hs.len() && !withheld(hs[i].0@) implies kept_headers(hs).contains(#[trigger] hs[i]) by {
        hs.lemma_filter_contains(|h: (String, V)| !withheld(h.0@), i);
    }
    assert forall|i: int| 0 <= i < kept_headers_with_content(hs).len() implies !hop_by_hop(
        #[trigger] kept_headers_with_content(hs)[i].0@,
    ) by {
        hs.lemma_filter_pred(|h: (String, V)| !hop_by_hop(h.0@), i);
    }
}

proof fn lemma_filter_filter<A>(s: Seq<A>, p: spec_fn(A) -> bool, q: spec_fn(A) -> bool)
    requires
        forall|a: A| #[trigger] q(a) ==> p(a),
    ensures
        s.filter(p).filter(q) == s.filter(q),
    decreases s.len(),
{
    reveal(Seq::filter);
    if s.len() > 0 {
        lemma_filter_filter(s.drop_last(), p, q);
        let fp = s.filter(p);
        if p(s.last()) {
            assert(fp.drop_last() =~= s.drop_last().filter(p));
            assert(fp.last() == s.last());
        } else {
            assert(!q(s.last()));
        }
    }
}

/// Filtering headers is idempotent, and the pass-through that keeps
/// `Content-*` and `Accept-*` headers differs from the strict one in those
/// alone: applying the strict filter after it gives the strict result.
pub proof fn law_header_filters_compose<V>(hs: Seq<(String, V)>)
    ensures
        kept_headers(kept_headers(hs)) == kept_headers(hs),
        kept_headers_with_content(kept_headers_with_content(hs)) == kept_headers_with_content(hs),
        kept_headers(kept_headers_with_content(hs)) == kept_headers(hs),
{
    let w = |h: (String, V)| !withheld(h.0@);
    let hb = |h: (String, V)| !hop_by_hop(h.0@);
    lemma_filter_filter(hs, w, w);
    lemma_filter_filter(hs, hb, hb);
    lemma_filter_filter(hs, hb, w);
}

/// The text an error carries.
pub open spec fn error_text(e: ErrorModel) -> Option<Seq<char>> {
    match e {
        ErrorModel::AuthenticationFailed(m) => Some(m),
        ErrorModel::ConnectionError(m) => Some(m),
        ErrorModel::InsufficientQuota(m) => Some(m),
        ErrorModel::InternalError(m) => m,
        ErrorModel::InvalidRequest(m) => Some(m),
        ErrorModel::ModelNotFound(m) => Some(m),
        ErrorModel::ProviderApiError { message, .. } => Some(message),
        ErrorModel::RateLimitExceeded { message } => Some(message),
    }
}

/// A failed reply's body text is never lost: the error for any status
/// carries it; and a status without a variant of its own is kept.
pub proof fn law_status_error_keeps_reply(status: u16, text: Seq<char>)
    ensures
        error_text(status_error(status, text)) == Some(text),
        status != 400 && status != 401 && status != 403 && status != 404 && status != 429 && status
            != 500 ==> status_error(status, text) == (ErrorModel::ProviderApiError { status, message: text }),
{
}

/// The state a processor reaches after taking `es` in order.
pub open spec fn run_events(s: ProcessorState, es: Seq<EventModel>) -> ProcessorState
    decreases es.len(),
{
    if es.len() == 0 {
        s
    } else {
        process_step(run_events(s, es.drop_last()), es.last()).0
    }
}

/// The text of a text delta.
pub open spec fn delta_text(e: EventModel) -> Seq<char> {
    match e {
        EventModel::TextDelta { text, .. } => text,
        _ => Seq::empty(),
    }
}

/// The JSON text of a delta of the tool call at block `k`.
pub open spec fn delta_json(e: EventModel, k: u32) -> Seq<char> {
    match e {
        EventModel::JsonDelta { index, partial_json } => if index == k {
            partial_json
        } else {
            Seq::empty()
        },
        _ => Seq::empty(),
    }
}

/// Streamed deltas accumulate: across any run of text and JSON deltas, the
/// processor's text grows by the texts in order, and the arguments of a
/// tool call it has started grow by that call's JSON pieces in order.
pub proof fn law_stream_deltas_accumulate(s: ProcessorState, es: Seq<EventModel>, k: u32)
    requires
        s.tool_calls.contains_key(k),
        forall|i: int| 0 <= i < es.len() ==> (#[trigger] es[i] is TextDelta || es[i] is JsonDelta),
    ensures
        run_events(s, es).current_text == s.current_text + flat_map(es, |e: EventModel| delta_text(e)),
        run_events(s, es).tool_calls.contains_key(k),
        run_events(s, es).tool_calls[k].arguments == s.tool_calls[k].arguments + flat_map(
            es,
            |e: EventModel| delta_json(e, k),
        ),
        run_events(s, es).tool_calls[k].id == s.tool_calls[k].id,
        run_events(s, es).tool_calls[k].name == s.tool_calls[k].name,
    decreases es.len(),
{
    if es.len() == 0 {
        assert(s.current_text + Seq::<char>::empty() =~= s.current_text);
        assert(s.tool_calls[k].arguments + Seq::<char>::empty() =~= s.tool_calls[k].arguments);
    } else {
        let init = es.drop_last();
        assert forall|i: int| 0 <= i < init.len() implies (#[trigger] init[i] is TextDelta || init[i] is JsonDelta) by {
            assert(init[i] == es[i]);
        }
        law_stream_deltas_accumulate(s, init, k);
        let prev = run_events(s, init);
        let e = es.last();
        assert(es[es.len() - 1] is TextDelta || es[es.len() - 1] is JsonDelta);
        let texts = flat_map(init, |e: EventModel| delta_text(e));
        let jsons = flat_map(init, |e: EventModel| delta_json(e, k));
        assert(s.current_text + texts + delta_text(e) =~= s.current_text + (texts + delta_text(e)));
        assert(s.tool_calls[k].arguments + jsons + delta_json(e, k) =~= s.tool_calls[k].arguments + (
        jsons + delta_json(e, k)));
        if let EventModel::TextDelta { text, .. } = e {
            assert(delta_json(e, k) =~= Seq::<char>::empty());
            assert(jsons + delta_json(e, k) =~= jsons);
        } else if let EventModel::JsonDelta { index, partial_json } = e {
            assert(delta_text(e) =~= Seq::<char>::empty());
            assert(texts + delta_text(e) =~= texts);
            if index != k {
                assert(jsons + delta_json(e, k) =~= jsons);
            }
        }
    }
}

/// The id of the last message start among `es`, if there is one.
pub open spec fn last_message_id(es: Seq<EventModel>) -> Option<Seq<char>>
    decreases es.len(),
{
    if es.len() == 0 {
        None
    } else {
        match es.last() {
            EventModel::MessageStart { id, .. } => Some(id),
            _ => last_message_id(es.drop_last()),
        }
    }
}

/// The model of the last message start among `es`, if there is one.
pub open spec fn last_model(es: Seq<EventModel>) -> Option<Seq<char>>
    decreases es.len(),
{
    if es.len() == 0 {
        None
    } else {
        match es.last() {
            EventModel::MessageStart { model, .. } => Some(model),
            _ => last_model(es.drop_last()),
        }
    }
}

/// `provider/model` for the model of the last message start among `es`.
pub open spec fn provider_model(name: Seq<char>, es: Seq<EventModel>) -> Option<Seq<char>> {
    match last_model(es) {
        Some(m) => Some(name + "/"@ + m),
        None => None,
    }
}

/// The blocks at which `es` start a tool call.
pub open spec fn started_blocks(es: Seq<EventModel>) -> Set<u32>
    decreases es.len(),
{
    if es.len() == 0 {
        Set::empty()
    } else {
        match es.last() {
            EventModel::ToolBlockStart { index, .. } => started_blocks(es.drop_last()).insert(index),
            _ => started_blocks(es.drop_last()),
        }
    }
}

/// The tool calls being assembled are finitely many and have distinct
/// indices among the stream's calls, each below their number.
pub open spec fn positions_ok(m: Map<u32, BuilderModel>) -> bool {
    &&& m.dom().finite()
    &&& forall|k: u32| #[trigger] m.contains_key(k) ==> (m[k].position as int) < m.len()
    &&& forall|k1: u32, k2: u32|
        #[trigger] m.contains_key(k1) && #[trigger] m.contains_key(k2) && k1 != k2 ==> m[k1].position
            != m[k2].position
}

/// The tool calls a chunk carries, if any.
pub open spec fn chunk_calls(c: Option<ChunkModel>) -> Option<Seq<StreamingToolCallModel>> {
    match c {
        Some(c) => c.choices[0].delta.tool_calls,
        None => None,
    }
}

/// A set of `u32` values that leaves one out has fewer than 2^32 members.
proof fn lemma_u32_set_len(d: Set<u32>, k: u32)
    requires
        d.finite(),
        !d.contains(k),
    ensures
        d.len() <= 0xffff_ffff,
{
    let f = |x: u32| x as int;
    let y = d.map(f);
    assert(injective_on(f, d));
    vstd::set_lib::lemma_map_size(d, y, f);
    vstd::set_lib::lemma_int_range(0, 0x1_0000_0000);
    let r = vstd::set_lib::set_int_range(0, 0x1_0000_0000).remove(k as int);
    assert forall|v: int| y.contains(v) implies r.contains(v) by {
        let x = choose|x: u32| d.contains(x) && f(x) == v;
    }
    vstd::set_lib::lemma_len_subset(y, r);
}

/// A stream step keeps the tool calls' indices: a call keeps the index it
/// started with, a new call gets the next free one, and the chunk for a
/// call's start or for a piece of its arguments carries the call's index.
pub proof fn law_stream_tool_call_indices(s: ProcessorState, e: EventModel)
    requires
        positions_ok(s.tool_calls),
    ensures
        positions_ok(process_step(s, e).0.tool_calls),
        process_step(s, e).0.tool_calls.len() <= s.tool_calls.len() + 1,
        forall|k: u32| #[trigger]
            s.tool_calls.contains_key(k) ==> process_step(s, e).0.tool_calls.contains_key(k)
                && process_step(s, e).0.tool_calls[k].position == s.tool_calls[k].position,
        e matches EventModel::ToolBlockStart { index, id, name } ==> {
            &&& !s.tool_calls.contains_key(index) ==> process_step(s, e).0.tool_calls[index].position
                == s.tool_calls.len()
            &&& chunk_calls(process_step(s, e).1) == Some(
                seq![
                    StreamingToolCallModel::Start {
                        index: process_step(s, e).0.tool_calls[index].position,
                        id,
                        name,
                        arguments: Seq::empty(),
                    },
                ],
            )
        },
        e matches EventModel::JsonDelta { index, partial_json } ==> (s.tool_calls.contains_key(index)
            ==> chunk_calls(process_step(s, e).1) == Some(
            seq![StreamingToolCallModel::Delta { index: s.tool_calls[index].position, arguments: partial_json }],
        )),
{
    let m = s.tool_calls;
    let (s2, c) = process_step(s, e);
    let m2 = s2.tool_calls;
    match e {
        EventModel::ToolBlockStart { index, id, name } => {
            let pos = start_position(s, index);
            if m.contains_key(index) {
                assert(m2.dom() =~= m.dom());
            } else {
                lemma_u32_set_len(m.dom(), index);
                assert(m2.dom() =~= m.dom().insert(index));
                assert(pos == m.len());
            }
            let call = StreamingCallModel::Start { index: pos, id, name, arguments: Seq::empty() };
            assert(seq![call].map_values(|x: StreamingCallModel| streaming_call_from_openai(x)) =~= seq![
                streaming_call_from_openai(call),
            ]);
        },
        EventModel::JsonDelta { index, partial_json } => {
            if m.contains_key(index) {
                assert(m2.dom() =~= m.dom());
                let call = StreamingCallModel::Delta { index: m[index].position, arguments: partial_json };
                assert(seq![call].map_values(|x: StreamingCallModel| streaming_call_from_openai(x))
                    =~= seq![streaming_call_from_openai(call)]);
            }
        },
        _ => {},
    }
}

/// What a stream processor holds after any run of events from its start:
/// the provider and time stamp it was made with; the id and
/// `provider/model` of the last message start it took (none before the
/// first); a tool call for exactly the blocks at which one was started, at
/// most one per event; and distinct indices for those calls.
pub proof fn law_stream_processor_state(name: Seq<char>, created: u64, es: Seq<EventModel>)
    ensures
        run_events(initial_state(name, created), es).provider_name == name,
        run_events(initial_state(name, created), es).created == created,
        run_events(initial_state(name, created), es).message_id == last_message_id(es),
        run_events(initial_state(name, created), es).model == provider_model(name, es),
        run_events(initial_state(name, created), es).tool_calls.dom() == started_blocks(es),
        run_events(initial_state(name, created), es).tool_calls.len() <= es.len(),
        positions_ok(run_events(initial_state(name, created), es).tool_calls),
    decreases es.len(),
{
    let s0 = initial_state(name, created);
    if es.len() == 0 {
        assert(s0.tool_calls.dom() =~= Set::<u32>::empty());
    } else {
        let init = es.drop_last();
        law_stream_processor_state(name, created, init);
        let prev = run_events(s0, init);
        law_stream_tool_call_indices(prev, es.last());
        let next = run_events(s0, es);
        match es.last() {
            EventModel::ToolBlockStart { index, .. } => {
                assert(next.tool_calls.dom() =~= prev.tool_calls.dom().insert(index));
            },
            EventModel::JsonDelta { index, .. } => {
                assert(next.tool_calls.dom() =~= prev.tool_calls.dom());
            },
            _ => {},
        }
    }
}

/// The chunk a processor made at `created` for `name` emits for the
/// `i`-th of `es`, after taking the ones before it.
pub open spec fn chunk_at(name: Seq<char>, created: u64, es: Seq<EventModel>, i: int) -> Option<ChunkModel> {
    process_step(run_events(initial_state(name, created), es.take(i)), es[i]).1
}

/// Every chunk of a stream carries one choice, at index 0, the time stamp
/// the processor was made with, and the id and `provider/model` of the last
/// message start taken so far, this event included (empty before the
/// first); a piece of a tool call's arguments gives no chunk exactly when no
/// tool call was started at its block before.
pub proof fn law_stream_chunks(name: Seq<char>, created: u64, es: Seq<EventModel>, i: int)
    requires
        0 <= i < es.len(),
    ensures
        chunk_at(name, created, es, i) matches Some(c) ==> {
            &&& c.created == created
            &&& c.choices.len() == 1
            &&& c.choices[0].index == 0
            &&& c.id == text_or_empty(last_message_id(es.take(i + 1)))
            &&& c.model == text_or_empty(provider_model(name, es.take(i + 1)))
        },
        es[i] matches EventModel::JsonDelta { index, .. } ==> (chunk_at(name, created, es, i) is None
            <==> !started_blocks(es.take(i)).contains(index)),
{
    law_stream_processor_state(name, created, es.take(i));
    let upto = es.take(i + 1);
    assert(upto.drop_last() =~= es.take(i));
    assert(upto.last() == es[i]);
    law_stream_processor_state(name, created, upto);
}

proof fn lemma_filter_map_total<A, B>(s: Seq<A>, f: spec_fn(A) -> Option<B>, g: spec_fn(A) -> B)
    requires
        forall|i: int| 0 <= i < s.len() ==> f(#[trigger] s[i]) == Some(g(s[i])),
    ensures
        filter_map(s, f) == s.map_values(g),
    decreases s.len(),
{
    if s.len() > 0 {
        assert forall|i: int| 0 <= i < s.drop_last().len() implies f(#[trigger] s.drop_last()[i]) == Some(
            g(s.drop_last()[i]),
        ) by {
            assert(s.drop_last()[i] == s[i]);
        }
        lemma_filter_map_total(s.drop_last(), f, g);
        assert(f(s[s.len() - 1]) == Some(g(s[s.len() - 1])));
        assert(s.map_values(g) =~= s.drop_last().map_values(g).push(g(s.last())));
    } else {
        assert(s.map_values(g) =~= Seq::<B>::empty());
    }
}

proof fn lemma_filter_map_none<A, B>(s: Seq<A>, f: spec_fn(A) -> Option<B>)
    requires
        forall|i: int| 0 <= i < s.len() ==> f(#[trigger] s[i]) is None,
    ensures
        filter_map(s, f) == Seq::<B>::empty(),
    decreases s.len(),
{
    if s.len() > 0 {
        assert forall|i: int| 0 <= i < s.drop_last().len() implies f(#[trigger] s.drop_last()[i]) is None by {
            assert(s.drop_last()[i] == s[i]);
        }
        lemma_filter_map_none(s.drop_last(), f);
        assert(f(s[s.len() - 1]) is None);
    }
}

proof fn lemma_filter_map_source<A, B>(s: Seq<A>, f: spec_fn(A) -> Option<B>, k: int)
    requires
        0 <= k < filter_map(s, f).len(),
    ensures
        exists|i: int| 0 <= i < s.len() && f(#[trigger] s[i]) == Some(filter_map(s, f)[k]),
    decreases s.len(),
{
    if s.len() > 0 {
        let init = s.drop_last();
        let prev = filter_map(init, f);
        if k < prev.len() {
            match f(s.last()) {
                Some(b) => assert(filter_map(s, f)[k] == prev[k]),
                None => {},
            }
            lemma_filter_map_source(init, f, k);
            let i = choose|i: int| 0 <= i < init.len() && f(#[trigger] init[i]) == Some(prev[k]);
            assert(s[i] == init[i]);
        } else {
            assert(f(s[s.len() - 1]) == Some(filter_map(s, f)[k]));
        }
    }
}

/// Whether an Anthropic response has a unified form that gives it back: a
/// `message` from the assistant whose blocks are text, base64 images and
/// tool uses. (A tool result is dropped; a URL image comes back as base64.)
pub open spec fn anthropic_response_keeps_form(r: AnthropicResponseModel) -> bool {
    &&& r.response_type == "message"@
    &&& r.role == AnthropicRole::Assistant
    &&& usage_fits(r.usage)
    &&& forall|i: int|
        0 <= i < r.content.len() ==> match #[trigger] r.content[i] {
            BlockModel::Text { .. } => true,
            BlockModel::Image { source } => source.source_type == "base64"@,
            BlockModel::ToolUse { .. } => true,
            _ => false,
        }
}

/// An Anthropic response passes through the unified form unchanged, where
/// it holds only text, base64 images and tool uses: each `tool_use` block
/// comes back once, though the unified form also lists it as a tool call.
pub proof fn law_anthropic_response_round_trip(r: AnthropicResponseModel)
    requires
        anthropic_response_keeps_form(r),
    ensures
        response_to_anthropic(response_from_anthropic(r)) == r,
{
    let u = response_from_anthropic(r);
    let back = response_to_anthropic(u);
    let g = |b: BlockModel| content_from_anthropic(b);
    lemma_filter_map_total(r.content, |b: BlockModel| kept_in_response(b), g);
    let cs = r.content.map_values(g);
    assert forall|i: int| 0 <= i < cs.len() implies (|c: ContentModel| response_block(c))(#[trigger] cs[i]) == Some(
        (|c: ContentModel| content_to_anthropic(c))(cs[i]),
    ) by {
        assert(cs[i] == content_from_anthropic(r.content[i]));
    }
    lemma_filter_map_total(cs, |c: ContentModel| response_block(c), |c: ContentModel| content_to_anthropic(c));
    assert forall|i: int| 0 <= i < r.content.len() implies back.content[i] == r.content[i] by {
        lemma_block_round_trip(r.content[i]);
    }
    let head = head_blocks(ContainerModel::Blocks(cs));
    assert forall|i: int| 0 <= i < r.content.len() implies head[i] == r.content[i] by {
        lemma_block_round_trip(r.content[i]);
    }
    assert(head =~= r.content);
    let calls = filter_map(cs, |c: ContentModel| block_tool_call(c));
    assert forall|k: int| 0 <= k < calls.len() implies (|c: ToolCallModel| extra_call_block(head, c))(
        #[trigger] calls[k],
    ) is None by {
        lemma_filter_map_source(cs, |c: ContentModel| block_tool_call(c), k);
        let i = choose|i: int| 0 <= i < cs.len() && (|c: ContentModel| block_tool_call(c))(#[trigger] cs[i])
            == Some(calls[k]);
        assert(cs[i] == content_from_anthropic(r.content[i]));
        assert(is_use_with_id(head[i], calls[k].id));
    }
    lemma_filter_map_none(calls, |c: ToolCallModel| extra_call_block(head, c));
    assert(back.content =~= r.content);
    let x = r.usage.input_tokens;
    let y = r.usage.output_tokens;
    assert(((x as u32) as i32) == x) by (bit_vector);
    assert(((y as u32) as i32) == y) by (bit_vector);
    if let Some(sr) = r.stop_reason {
        assert(stop_to_anthropic(stop_from_anthropic(sr)) == sr);
    }
}

proof fn lemma_filter_map_compose<A, B, C>(
    s: Seq<A>,
    f: spec_fn(A) -> Option<B>,
    g: spec_fn(B) -> Option<C>,
    h: spec_fn(A) -> Option<C>,
)
    requires
        forall|a: A|
            #[trigger] h(a) == match f(a) {
                Some(b) => g(b),
                None => None,
            },
    ensures
        filter_map(filter_map(s, f), g) == filter_map(s, h),
    decreases s.len(),
{
    if s.len() > 0 {
        lemma_filter_map_compose(s.drop_last(), f, g, h);
        let x = filter_map(s.drop_last(), f);
        assert(h(s.last()) == h(s.last()));
        match f(s.last()) {
            Some(b) => {
                assert(x.push(b).drop_last() =~= x);
                assert(x.push(b).last() == b);
            },
            None => {},
        }
    }
}

/// The tool call an Anthropic block makes: a tool use's id, name and input.
pub open spec fn anthropic_tool_call(b: BlockModel) -> Option<ToolCallModel> {
    match b {
        BlockModel::ToolUse { id, name, input } => Some(
            ToolCallModel { id, function: FunctionCallModel { name, arguments: ArgumentsModel::Value(input) } },
        ),
        _ => None,
    }
}

/// An Anthropic response in unified form has one choice, at index 0, whose
/// message holds the response's blocks other than tool results, in order,
/// and lists its tool uses, in order, as tool calls (none when there is no
/// tool use); the id, model and stop sequence are kept, and the creation
/// time is 0.
pub proof fn law_anthropic_response_tool_calls(r: AnthropicResponseModel)
    ensures
        response_from_anthropic(r).choices.len() == 1,
        response_from_anthropic(r).choices[0].index == 0,
        response_from_anthropic(r).choices[0].message.content == ContainerModel::Blocks(
            filter_map(r.content, |b: BlockModel| kept_in_response(b)),
        ),
        response_from_anthropic(r).choices[0].message.tool_calls == (if filter_map(
            r.content,
            |b: BlockModel| anthropic_tool_call(b),
        ).len() == 0 {
            None
        } else {
            Some(filter_map(r.content, |b: BlockModel| anthropic_tool_call(b)))
        }),
        response_from_anthropic(r).id == r.id,
        response_from_anthropic(r).model == r.model,
        response_from_anthropic(r).stop_sequence == r.stop_sequence,
        response_from_anthropic(r).created == 0,
{
    let f = |b: BlockModel| kept_in_response(b);
    let g = |c: ContentModel| block_tool_call(c);
    let t = |b: BlockModel| anthropic_tool_call(b);
    assert forall|a: BlockModel|
        #[trigger] t(a) == match f(a) {
            Some(c) => g(c),
            None => None,
        } by {}
    lemma_filter_map_compose(r.content, f, g, t);
}

/// Taking out what Gemini does not accept leaves nothing more to take out:
/// the stripping is idempotent, at every level of the schema.
pub proof fn law_strip_schema_idempotent(s: Schema)
    ensures
        stripped_schema(stripped_schema(s)) == stripped_schema(s),
    decreases s,
{
    let t = stripped_schema(s);
    if let Some(ps) = s.properties {
        let tps = t.properties->0;
        assert forall|i: int| 0 <= i < ps.len() implies (#[trigger] stripped_schema(stripped_schema(ps[i].1)))
            == stripped_schema(ps[i].1) by {
            law_strip_schema_idempotent(ps[i].1);
        }
        let back = stripped_schema(t).properties->0;
        assert forall|i: int| 0 <= i < tps.len() implies back[i] == tps[i] by {
            assert(tps[i] == (ps[i].0, stripped_schema(ps[i].1)));
            assert(stripped_schema(stripped_schema(ps[i].1)) == stripped_schema(ps[i].1));
        }
        assert(back =~= tps);
    }
    if let Some(b) = s.items {
        law_strip_schema_idempotent(*b);
    }
}

/// Whether a schema holds nothing Gemini rejects, at any level: no
/// `additionalProperties`, `$schema` or `default`, and a string's format, if
/// it has one, is `enum` or `date-time`.
pub open spec fn schema_clean(s: Schema) -> bool
    decreases s,
{
    &&& s.additional_properties is None
    &&& s.schema is None
    &&& s.default is None
    &&& (s.schema_type == Some("string"@) && s.format is Some) ==> (s.format->0 == "enum"@ || s.format->0
        == "date-time"@)
    &&& match s.properties {
        Some(ps) => properties_clean(ps),
        None => true,
    }
    &&& match s.items {
        Some(b) => schema_clean(*b),
        None => true,
    }
}

/// Whether every property's schema is clean.
pub open spec fn properties_clean(ps: Seq<(Seq<char>, Schema)>) -> bool
    decreases ps,
{
    proof {
        broadcast use vstd::seq::axiom_seq_index_decreases;
    }
    if ps.len() == 0 {
        true
    } else {
        properties_clean(ps.drop_last()) && schema_clean(ps[ps.len() - 1].1)
    }
}

proof fn lemma_properties_clean(ps: Seq<(Seq<char>, Schema)>)
    ensures
        properties_clean(ps) <==> forall|i: int| 0 <= i < ps.len() ==> #[trigger] schema_clean(ps[i].1),
    decreases ps.len(),
{
    broadcast use vstd::seq::axiom_seq_index_decreases;
    if ps.len() > 0 {
        let init = ps.drop_last();
        assert(decreases_to!(ps => ps[ps.len() - 1]));
        assert(decreases_to!(ps[ps.len() - 1] => ps[ps.len() - 1].1));
        assert(properties_clean(ps) == (properties_clean(init) && schema_clean(ps[ps.len() - 1].1)));
        lemma_properties_clean(init);
        assert forall|i: int| 0 <= i < init.len() implies init[i] == ps[i] by {}
        if forall|i: int| 0 <= i < ps.len() ==> #[trigger] schema_clean(ps[i].1) {
            assert forall|i: int| 0 <= i < init.len() implies #[trigger] schema_clean(init[i].1) by {
                assert(init[i] == ps[i]);
            }
        }
        if properties_clean(ps) {
            assert forall|i: int| 0 <= i < ps.len() implies #[trigger] schema_clean(ps[i].1) by {
                if i < ps.len() - 1 {
                    assert(init[i] == ps[i]);
                }
            }
        }
    }
}

/// Stripping leaves a clean schema at every level, and changes nothing
/// else: the type, description, required names and enum values stay, a
/// format goes only where it is an unsupported string format, and each
/// property, under its name and in order, and the items are stripped in the
/// same way.
pub proof fn law_strip_schema_clean(s: Schema)
    ensures
        schema_clean(stripped_schema(s)),
        stripped_schema(s).schema_type == s.schema_type,
        stripped_schema(s).description == s.description,
        stripped_schema(s).required == s.required,
        stripped_schema(s).enum_values == s.enum_values,
        stripped_schema(s).items is Some <==> s.items is Some,
        stripped_schema(s).properties is Some <==> s.properties is Some,
        stripped_schema(s).format == kept_format(s.schema_type, s.format),
        s.properties matches Some(ps) ==> {
            &&& stripped_schema(s).properties->0.len() == ps.len()
            &&& forall|i: int|
                0 <= i < ps.len() ==> #[trigger] stripped_schema(s).properties->0[i] == (
                    ps[i].0,
                    stripped_schema(ps[i].1),
                )
        },
        s.items matches Some(b) ==> *stripped_schema(s).items->0 == stripped_schema(*b),
    decreases s,
{
    let t = stripped_schema(s);
    if let Some(ps) = s.properties {
        let tps = t.properties->0;
        assert forall|i: int| 0 <= i < tps.len() implies #[trigger] schema_clean(tps[i].1) by {
            assert(tps[i] == (ps[i].0, stripped_schema(ps[i].1)));
            law_strip_schema_clean(ps[i].1);
        }
        lemma_properties_clean(tps);
    }
    if let Some(b) = s.items {
        law_strip_schema_clean(*b);
    }
}

/// Which way a request reaches a provider: a request with Anthropic
/// credentials is passed through or refused, never routed with a key; the
/// client's own key header comes before the configured key; the configured
/// key is used only where the client brings neither.
pub proof fn law_provider_mode_precedence(
    has_anthropic_authorization: bool,
    hs: Seq<(String, Vec<u8>)>,
    s: Seq<SupportedProviderMode>,
)
    ensures
        has_anthropic_authorization ==> (choose_mode(has_anthropic_authorization, hs, s) is Proxy
            <==> supports_proxy(s)),
        has_anthropic_authorization ==> !(choose_mode(has_anthropic_authorization, hs, s) is ClientKey)
            && !(choose_mode(has_anthropic_authorization, hs, s) is OwnKey),
        !has_anthropic_authorization && client_key(s, hs) is Some ==> choose_mode(
            has_anthropic_authorization,
            hs,
            s,
        ) == ModeChoice::ClientKey(client_key(s, hs)->0),
        choose_mode(has_anthropic_authorization, hs, s) is OwnKey ==> !has_anthropic_authorization
            && client_key(s, hs) is None && own_key(s) is Some,
{
}

/// A provider's listing always includes its configured models, each under
/// its id prefixed with the provider's name and `/`, after the models its
/// API reported, which keep their ids.
pub proof fn law_listing_includes_configured(
    provider: Seq<char>,
    discovered: Seq<OpenAiModelInfo>,
    configured: Seq<OpenAiModelInfo>,
)
    ensures
        listing(provider, discovered, configured).len() == discovered.len() + configured.len(),
        forall|i: int|
            0 <= i < discovered.len() ==> #[trigger] listing(provider, discovered, configured)[i]
                == discovered[i],
        forall|i: int|
            0 <= i < configured.len() ==> (#[trigger] listing(provider, discovered, configured)[discovered.len()
                + i]).id == provider + "/"@ + configured[i].id,
{
}

/// A tool input sent to Bedrock is always what Bedrock accepts: an object
/// or a string; and normalizing an object, a string or null again changes
/// nothing. (For booleans, numbers and arrays, which become their text, that
/// rests on what `serde_json` reads from that text, which is not stated.)
pub proof fn law_bedrock_tool_input_shape(v: Json)
    ensures
        normalize_doc(v) is Object || normalize_doc(v) is Str,
        !(v is Bool || v is Number || v is Array) ==> normalize_doc(normalize_doc(v)) == normalize_doc(v),
{
}

/// Whether no two neighbouring messages have the same role.
pub open spec fn roles_alternate(ms: Seq<BMessage>) -> bool {
    forall|i: int, j: int| #![trigger ms[i], ms[j]] 0 <= i && j == i + 1 && j < ms.len() ==> ms[i].role != ms[j].role
}

spec fn bstate_ok(s: BState) -> bool {
    &&& roles_alternate(s.messages)
    &&& forall|i: int| 0 <= i < s.messages.len() ==> (#[trigger] s.messages[i]).content.len() > 0
    &&& (s.role is Some <==> s.blocks.len() > 0)
    &&& s.role is Some && s.messages.len() > 0 ==> s.messages.last().role != s.role->0
    &&& s.role is None ==> s.messages.len() == 0
}

proof fn lemma_push_ok(ms: Seq<BMessage>, m: BMessage)
    requires
        roles_alternate(ms),
        forall|i: int| 0 <= i < ms.len() ==> (#[trigger] ms[i]).content.len() > 0,
        ms.len() > 0 ==> ms.last().role != m.role,
        m.content.len() > 0,
    ensures
        roles_alternate(ms.push(m)),
        forall|i: int| 0 <= i < ms.push(m).len() ==> (#[trigger] ms.push(m)[i]).content.len() > 0,
{
    let out = ms.push(m);
    assert forall|i: int, j: int| #![trigger out[i], out[j]] 0 <= i && j == i + 1 && j < out.len() implies out[i].role
        != out[j].role by {
        if j < ms.len() {
            assert(out[i] == ms[i] && out[j] == ms[j]);
        } else {
            assert(out[i] == ms.last());
        }
    }
    assert forall|i: int| 0 <= i < out.len() implies (#[trigger] out[i]).content.len() > 0 by {
        if i < ms.len() {
            assert(out[i] == ms[i]);
        }
    }
}

proof fn lemma_bstep_ok(s: BState, c: ConversionModel)
    requires
        bstate_ok(s),
        c matches ConversionModel::Conversation { blocks, .. } ==> blocks.len() > 0,
    ensures
        bstate_ok(bstep(s, c)),
{
    if let ConversionModel::Conversation { role, blocks } = c {
        let t = bstep(s, c);
        if s.role is Some && s.role->0 != role && s.blocks.len() > 0 {
            lemma_push_ok(s.messages, BMessage { role: s.role->0, content: s.blocks });
            assert(t.messages == s.messages.push(BMessage { role: s.role->0, content: s.blocks }));
            assert(t.messages.last().role == s.role->0);
            assert(t.blocks =~= blocks);
        } else {
            assert(t.messages == s.messages);
            assert(t.blocks.len() == s.blocks.len() + blocks.len());
        }
    }
}

proof fn lemma_bfold_ok(ms: Seq<MessageModel>)
    ensures
        bstate_ok(bfold(ms)),
    decreases ms.len(),
{
    if ms.len() > 0 {
        lemma_bfold_ok(ms.drop_last());
        lemma_bstep_ok(bfold(ms.drop_last()), conversion_of(ms.last()));
    }
}

/// The conversation sent to Bedrock alternates between the user and the
/// assistant, as the Converse API demands, and holds no empty message:
/// consecutive messages of one role are merged, and messages without
/// content are left out.
pub proof fn law_bedrock_roles_alternate(ms: Seq<MessageModel>)
    ensures
        roles_alternate(messages_to_bedrock(ms).1),
        forall|i: int|
            0 <= i < messages_to_bedrock(ms).1.len() ==> (#[trigger] messages_to_bedrock(ms).1[i]).content.len()
                > 0,
{
    lemma_bfold_ok(ms);
    let s = bfold(ms);
    if s.role is Some && s.blocks.len() > 0 {
        lemma_push_ok(s.messages, BMessage { role: s.role->0, content: s.blocks });
    }
}

/// Whether an OpenAI stream chunk has a unified form that gives it back: a
/// `chat.completion.chunk` without a system fingerprint, log probabilities
/// or a legacy `function_call` (the unified form has none of them), and
/// without an unknown role or finish reason.
pub open spec fn openai_chunk_keeps_form(c: ChatChunkModel) -> bool {
    &&& c.object == ObjectType::ChatCompletionChunk
    &&& c.system_fingerprint is None
    &&& forall|i: int|
        0 <= i < c.choices.len() ==> {
            &&& (#[trigger] c.choices[i]).logprobs is None
            &&& c.choices[i].delta.function_call is None
            &&& !(c.choices[i].delta.role matches Some(r) && r is Other)
            &&& !(c.choices[i].finish_reason matches Some(f) && f is Other)
        }
}

/// An OpenAI stream chunk passes through the unified form unchanged, where
/// it carries nothing the unified form lacks.
pub proof fn law_openai_chunk_round_trip(c: ChatChunkModel)
    requires
        openai_chunk_keeps_form(c),
    ensures
        chunk_to_openai(chunk_from_openai(c)) == c,
{
    let back = chunk_to_openai(chunk_from_openai(c));
    assert forall|i: int| 0 <= i < c.choices.len() implies back.choices[i] == c.choices[i] by {
        let d = c.choices[i];
        let b = back.choices[i];
        if let Some(cs) = d.delta.tool_calls {
            assert forall|k: int| 0 <= k < cs.len() implies streaming_call_to_openai(
                streaming_call_from_openai(#[trigger] cs[k]),
            ) == cs[k] by {}
            assert(b.delta.tool_calls->0 =~= cs);
        }
        if let Some(f) = d.finish_reason {
            assert(finish_to_openai(finish_from_openai(f)) == f);
        }
    }
    assert(back.choices =~= c.choices);
}

/// All chunks of one Converse stream carry the stream's id, the same model
/// and the same creation time.
pub proof fn law_converse_stream_chunks_agree(
    e1: StreamEventModelB,
    e2: StreamEventModelB,
    id: Seq<char>,
    created: u64,
)
    ensures
        chunk_of_converse(e1, id, created) matches Some(c1) ==> (chunk_of_converse(e2, id, created) matches Some(
            c2,
        ) ==> c1.id == id && c2.id == id && c1.model == c2.model && c1.created == created && c2.created
            == created),
{
}

proof fn lemma_st_calls_grows(s: GState, cs: Seq<ToolCallModel>)
    ensures
        st_calls(s, cs).parts.len() >= s.parts.len(),
    decreases cs.len(),
{
    if cs.len() > 0 {
        lemma_st_calls_grows(s, cs.drop_last());
    }
}

/// Gemini calls the assistant the model. Taking one more message adds at
/// most one entry to a request's contents, after the entries so far: an
/// assistant message's entry has the role `model`, a user's or a tool's the
/// role `user`; a system message adds none; a user, assistant or tool
/// message with non-empty text adds one.
pub proof fn law_gemini_turn_roles(r: RequestModel, m: MessageModel)
    ensures
        ({
            let before = generate_request(r).contents;
            let after = generate_request(RequestModel { messages: r.messages.push(m), ..r }).contents;
            &&& after.len() == before.len() || after.len() == before.len() + 1
            &&& after.take(before.len() as int) == before
            &&& m.role == UnifiedRole::System ==> after == before
            &&& after.len() == before.len() + 1 ==> after.last().role == (if m.role == UnifiedRole::Assistant {
                GoogleRole::Model
            } else {
                GoogleRole::User
            })
            &&& (m.role != UnifiedRole::System && (m.content matches ContainerModel::Text(t) && t.len() > 0))
                ==> after.len() == before.len() + 1
        }),
{
    let r2 = RequestModel { messages: r.messages.push(m), ..r };
    let c0 = GConv {
        contents: Seq::empty(),
        system: match r.system {
            Some(t) => Some(system_content(t)),
            None => None,
        },
        names: Seq::empty(),
    };
    assert(r2.messages.drop_last() =~= r.messages);
    assert(r2.messages.last() == m);
    let c = conv_all(c0, r.messages);
    let before = c.contents;
    assert(before.take(before.len() as int) =~= before);
    assert(before.push(GContent { parts: Seq::empty(), role: GoogleRole::User }).take(before.len() as int)
        =~= before);
    if m.role == UnifiedRole::User || m.role == UnifiedRole::Assistant {
        let s = message_parts(c.names, m);
        if let ContainerModel::Text(t) = m.content {
            let s0 = GState { parts: Seq::empty(), names: c.names };
            if let Some(cs) = m.tool_calls {
                lemma_st_calls_grows(st_text(s0, t), cs);
            }
        }
        assert(contents_with(before, s.parts, GoogleRole::User).take(before.len() as int) =~= before);
        assert(contents_with(before, s.parts, GoogleRole::Model).take(before.len() as int) =~= before);
    } else if m.role == UnifiedRole::Tool {
        let s = tool_message_parts(c.names, m);
        assert(contents_with(before, s.parts, GoogleRole::User).take(before.len() as int) =~= before);
    }
}

/// A Converse response's unified usage counts the prompt as Bedrock's input
/// tokens and the completion as its output tokens, each read as `u32`, with
/// Bedrock's total; without usage, all three are 0. A metadata event's
/// chunk carries the same counts.
pub proof fn law_converse_usage_counts(r: ConverseResponseModel, id: Seq<char>, created: u64, u: ConverseTokenUsage)
    ensures
        r.usage matches Some(v) ==> {
            &&& response_of_converse(r, id, created).usage.prompt_tokens == v.input_tokens as u32
            &&& response_of_converse(r, id, created).usage.completion_tokens == v.output_tokens as u32
            &&& response_of_converse(r, id, created).usage.total_tokens == v.total_tokens as u32
        },
        r.usage is None ==> response_of_converse(r, id, created).usage == (UnifiedUsage {
            prompt_tokens: 0,
            completion_tokens: 0,
            total_tokens: 0,
        }),
        chunk_of_converse(StreamEventModelB::Metadata { usage: Some(u) }, id, created) matches Some(c) && c.usage
            == Some(
            UnifiedUsage {
                prompt_tokens: u.input_tokens as u32,
                completion_tokens: u.output_tokens as u32,
                total_tokens: u.total_tokens as u32,
            },
        ),
{
}

/// An Anthropic provider response counts the prompt as its input tokens and
/// the completion as its output tokens, each read as `u32`, and the total as
/// their `i32` sum read as `u32`: in unified form and as an OpenAI chat
/// completion alike.
pub proof fn law_anthropic_usage_counts(r: ProviderResponseModel, created: u64, fresh: Seq<Seq<char>>)
    ensures
        unified_of_response(r).usage.prompt_tokens == r.usage.input_tokens as u32,
        unified_of_response(r).usage.completion_tokens == r.usage.output_tokens as u32,
        unified_of_response(r).usage.total_tokens == ((r.usage.input_tokens + r.usage.output_tokens) as i32) as u32,
        chat_of_response(r, created, fresh).usage.prompt_tokens == r.usage.input_tokens as u32,
        chat_of_response(r, created, fresh).usage.completion_tokens == r.usage.output_tokens as u32,
        chat_of_response(r, created, fresh).usage.total_tokens == ((r.usage.input_tokens + r.usage.output_tokens)
            as i32) as u32,
{
}

/// The request sent to Anthropic carries the unified request's model,
/// system prompt and sampling settings as they are, and its token limit,
/// or 4096 where it has none.
pub proof fn law_anthropic_request_settings(r: RequestModel)
    ensures
        prequest(r).model == r.model,
        prequest(r).system == r.system,
        prequest(r).temperature == r.temperature,
        prequest(r).top_p == r.top_p,
        prequest(r).top_k == r.top_k,
        prequest(r).stop_sequences == r.stop_sequences,
        prequest(r).max_tokens == (match r.max_tokens {
            Some(n) => n,
            None => 4096u32,
        }),
{
}

/// A Converse request carries the unified request's model and sampling
/// settings: temperature, top-p and stop sequences as they are and the
/// token limit read as `i32`; it has no inference configuration exactly
/// when the unified request sets none of them.
pub proof fn law_converse_request_settings(r: RequestModel)
    ensures
        converse_request(r).model_id == r.model,
        converse_request(r).inference_config is None <==> (r.temperature is None && r.max_tokens is None
            && r.top_p is None && r.stop_sequences is None),
        converse_request(r).inference_config matches Some(ic) ==> {
            &&& ic.temperature == r.temperature
            &&& ic.top_p == r.top_p
            &&& ic.stop_sequences == r.stop_sequences
            &&& ic.max_tokens == match r.max_tokens {
                Some(n) => Some(n as i32),
                None => None,
            }
        },
{
}

proof fn lemma_conv_keeps_system(c: GConv, ms: Seq<MessageModel>)
    requires
        forall|i: int| 0 <= i < ms.len() ==> (#[trigger] ms[i]).role != UnifiedRole::System,
    ensures
        conv_all(c, ms).system == c.system,
    decreases ms.len(),
{
    if ms.len() > 0 {
        let init = ms.drop_last();
        assert forall|i: int| 0 <= i < init.len() implies (#[trigger] init[i]).role != UnifiedRole::System by {
            assert(init[i] == ms[i]);
        }
        lemma_conv_keeps_system(c, init);
        assert(ms[ms.len() - 1] == ms.last());
    }
}

/// A Gemini request carries the unified request's sampling settings: the
/// temperature, top-p and stop sequences as they are, the token limit and
/// top-k read as `i32`, and one candidate. Where no message of the
/// conversation is a system message, the system instruction is the
/// request's system prompt as one text part.
pub proof fn law_gemini_request_settings(r: RequestModel)
    ensures
        generate_request(r).generation_config matches Some(g) && {
            &&& g.temperature == r.temperature
            &&& g.top_p == r.top_p
            &&& g.stop_sequences == r.stop_sequences
            &&& g.candidate_count == Some(1i32)
            &&& g.max_output_tokens == match r.max_tokens {
                Some(n) => Some(n as i32),
                None => None,
            }
            &&& g.top_k == match r.top_k {
                Some(k) => Some(k as i32),
                None => None,
            }
        },
        (forall|i: int| 0 <= i < r.messages.len() ==> (#[trigger] r.messages[i]).role != UnifiedRole::System)
            ==> generate_request(r).system_instruction == match r.system {
            Some(t) => Some(
                GContent {
                    parts: seq![GPart { text: Some(t), function_call: None, function_response: None }],
                    role: GoogleRole::User,
                },
            ),
            None => None,
        },
{
    let c0 = GConv {
        contents: Seq::empty(),
        system: match r.system {
            Some(t) => Some(system_content(t)),
            None => None,
        },
        names: Seq::empty(),
    };
    if forall|i: int| 0 <= i < r.messages.len() ==> (#[trigger] r.messages[i]).role != UnifiedRole::System {
        lemma_conv_keeps_system(c0, r.messages);
    }
}

/// Usage between the Anthropic and unified forms: the prompt is the input
/// tokens and the completion the output tokens, each way.
pub proof fn law_anthropic_usage_between_forms(a: AnthropicResponseModel, u: ResponseModel)
    ensures
        response_from_anthropic(a).usage.prompt_tokens == a.usage.input_tokens as u32,
        response_from_anthropic(a).usage.completion_tokens == a.usage.output_tokens as u32,
        response_to_anthropic(u).usage.input_tokens == u.usage.prompt_tokens as i32,
        response_to_anthropic(u).usage.output_tokens == u.usage.completion_tokens as i32,
{
}

/// The Messages API has two roles: an assistant message is sent as the
/// assistant's, every other message as the user's. Taking one more message
/// adds one request message after the ones so far, except that a tool reply
/// right after a tool reply joins the user message before it.
pub proof fn law_anthropic_provider_roles(ms: Seq<MessageModel>, m: MessageModel)
    ensures
        ({
            let before = pmessages(ms);
            let after = pmessages(ms.push(m));
            if m.role == UnifiedRole::Tool && ms.len() > 0 && ms.last().role == UnifiedRole::Tool {
                &&& after.len() == before.len()
                &&& after.take(before.len() - 1) == before.take(before.len() - 1)
                &&& after.last().role == PRole::User
            } else {
                &&& after.len() == before.len() + 1
                &&& after.take(before.len() as int) == before
                &&& after.last().role == (if m.role == UnifiedRole::Assistant {
                    PRole::Assistant
                } else {
                    PRole::User
                })
            }
        }),
{
    let ms2 = ms.push(m);
    assert(ms2.drop_last() =~= ms);
    assert(ms2.last() == m);
    let before = pmessages(ms);
    lemma_pmessages_len(ms);
    if m.role == UnifiedRole::Tool && ms.len() > 0 && ms.last().role == UnifiedRole::Tool {
        assert(ms2[ms2.len() - 2] == ms.last());
        let after = pmessages(ms2);
        assert(after.take(before.len() - 1) =~= before.take(before.len() - 1));
        lemma_pmessages_last_tool_role(ms);
    } else {
        if ms.len() > 0 {
            assert(ms2[ms2.len() - 2] == ms.last());
        }
        assert(before.push(pmessage(m)).take(before.len() as int) =~= before);
    }
}

/// After a tool reply, the last request message is the user's.
proof fn lemma_pmessages_last_tool_role(ms: Seq<MessageModel>)
    requires
        ms.len() > 0,
        ms.last().role == UnifiedRole::Tool,
    ensures
        pmessages(ms).len() > 0,
        pmessages(ms).last().role == PRole::User,
    decreases ms.len(),
{
    lemma_pmessages_len(ms);
    let init = ms.drop_last();
    if ms.len() >= 2 && ms[ms.len() - 2].role == UnifiedRole::Tool {
        assert(init.last() == ms[ms.len() - 2]);
        lemma_pmessages_last_tool_role(init);
    }
}

/// Converse has two roles: after a conversation that ends with a user,
/// assistant or tool message with non-empty text, the last Converse message
/// is the assistant's exactly when that message is, else the user's, and
/// its content ends with that message's blocks.
pub proof fn law_bedrock_message_roles(ms: Seq<MessageModel>, m: MessageModel)
    requires
        m.role != UnifiedRole::System,
        m.content matches ContainerModel::Text(t) && t.len() > 0,
    ensures
        messages_to_bedrock(ms.push(m)).1.len() > 0,
        messages_to_bedrock(ms.push(m)).1.last().role == (if m.role == UnifiedRole::Assistant {
            ConversationRole::Assistant
        } else {
            ConversationRole::User
        }),
        messages_to_bedrock(ms.push(m)).1.last().content.len() >= message_blocks(m).1.len(),
        messages_to_bedrock(ms.push(m)).1.last().content.subrange(
            messages_to_bedrock(ms.push(m)).1.last().content.len() - message_blocks(m).1.len(),
            messages_to_bedrock(ms.push(m)).1.last().content.len() as int,
        ) == message_blocks(m).1,
{
    let ms2 = ms.push(m);
    assert(ms2.drop_last() =~= ms);
    assert(ms2.last() == m);
    let (role, blocks) = message_blocks(m);
    assert(blocks.len() > 0);
    let s = bfold(ms);
    let f = if s.role is Some && s.role->0 != role && s.blocks.len() > 0 {
        BState { messages: s.messages.push(BMessage { role: s.role->0, content: s.blocks }), role: None, blocks: Seq::empty(), ..s }
    } else {
        s
    };
    let all = f.blocks + blocks;
    assert(all.subrange(all.len() - blocks.len(), all.len() as int) =~= blocks);
}

/// What a Converse stream chunk carries, in one choice at index 0: the
/// message start gives the assistant's role, a text piece its text, a tool
/// start the call's id and name, and a tool input piece the input.
pub proof fn law_converse_chunk_contents(e: StreamEventModelB, id: Seq<char>, created: u64)
    ensures
        ({
            let c = chunk_of_converse(e, id, created);
            &&& e is MessageStart ==> c is Some && c->0.choices.len() == 1 && c->0.choices[0].index == 0
                && c->0.choices[0].delta.role == Some(UnifiedRole::Assistant)
            &&& e is TextDelta ==> c is Some && c->0.choices.len() == 1 && c->0.choices[0].delta.content == Some(
                e->TextDelta_text,
            ) && c->0.choices[0].delta.role is None
            &&& e is ToolStart ==> c is Some && c->0.choices.len() == 1 && c->0.choices[0].delta.tool_calls == Some(
                seq![
                    StreamingToolCallModel::Start {
                        index: 0,
                        id: e->ToolStart_tool_use_id,
                        name: e->ToolStart_name,
                        arguments: Seq::empty(),
                    },
                ],
            )
            &&& e is ToolDelta ==> c is Some && c->0.choices.len() == 1 && c->0.choices[0].delta.tool_calls == Some(
                seq![StreamingToolCallModel::Delta { index: 0, arguments: e->ToolDelta_input }],
            )
        }),
{
}

/// What an Anthropic stream chunk carries: a message start gives the
/// assistant's role and no text, a text piece that text and no role.
pub proof fn law_stream_chunk_contents(s: ProcessorState, e: EventModel)
    ensures
        ({
            let c = process_step(s, e).1;
            &&& e is MessageStart ==> c is Some && c->0.choices.len() == 1 && c->0.choices[0].delta.role == Some(
                UnifiedRole::Assistant,
            ) && c->0.choices[0].delta.content is None
            &&& e is TextDelta ==> c is Some && c->0.choices.len() == 1 && c->0.choices[0].delta.content == Some(
                e->TextDelta_text,
            ) && c->0.choices[0].delta.role is None
        }),
{
}

} // verus!
