//! Conversion of unified requests into Gemini `generateContent` requests.
use vstd::prelude::*;

use vstd::string::StringExecFns;

use crate::json::{
    Json, JsonValue, member_insert, object_insert, parse_json, serde_json_parse, lemma_array_view,
    lemma_object_view, members_view,
};
use crate::messages::openai::{
    Tool, ToolModel, ToolChoiceMode, ToolChoiceModeModel, JsonSchema, Schema, lemma_properties_view, properties_view, schema_json, schema_view,
};
use crate::messages::unified::{
    ArgumentsModel, ContainerModel, ContentModel, FunctionModel, MessageModel, Real32,
    RequestModel, ToolCallModel, ToolChoiceModel, ToolResultModel, UnifiedArguments,
    UnifiedContent, UnifiedContentContainer, UnifiedMessage, UnifiedRequest, UnifiedRole,
    UnifiedTool, UnifiedToolCall, UnifiedToolChoice, UnifiedToolChoiceMode,
    UnifiedToolResultContent,
};
use crate::provider::google::output::{
    GContent, GPart, GoogleContent, GoogleFunctionCall, GoogleFunctionResponse, GooglePart,
    GoogleRole,
};
use crate::seqs::join;
use crate::text::str_eq;

verus! {

broadcast use vstd::std_specs::vec::group_vec_axioms;

/// The format a Gemini schema keeps: string formats other than `enum` and
/// `date-time` are dropped.
pub open spec fn kept_format(schema_type: Option<Seq<char>>, format: Option<Seq<char>>) -> Option<
    Seq<char>,
> {
    if schema_type == Some("string"@) && format is Some && format->0 != "enum"@ && format->0
        != "date-time"@ {
        None
    } else {
        format
    }
}

/// A schema with what Gemini does not accept taken out, at every level:
/// `additionalProperties`, `$schema`, `default`, and unsupported string formats.
pub open spec fn stripped_schema(s: Schema) -> Schema
    decreases s,
{
    proof {
        broadcast use vstd::seq::axiom_seq_index_decreases;
    }
    Schema {
        additional_properties: None,
        schema: None,
        default: None,
        format: kept_format(s.schema_type, s.format),
        properties: match s.properties {
            Some(ps) => Some(
                Seq::new(
                    ps.len(),
                    |i: int|
                        if 0 <= i < ps.len() {
                            (ps[i].0, stripped_schema(ps[i].1))
                        } else {
                            ps[i]
                        },
                ),
            ),
            None => None,
        },
        items: match s.items {
            Some(b) => Some(Box::new(stripped_schema(*b))),
            None => None,
        },
        ..s
    }
}

/// Removes from a tool's parameter schema, at every level, the keywords
/// Gemini rejects.
pub fn strip_unsupported_schema_fields(schema: JsonSchema) -> (r: JsonSchema)
    ensures
        r.deep_view() == stripped_schema(schema.deep_view()),
    decreases schema, 1nat,
{
    let ghost s0 = schema;
    proof {
        lemma_properties_view(schema);
        reveal_strlit("string");
        reveal_strlit("enum");
        reveal_strlit("date-time");
    }
    let JsonSchema {
        schema_type,
        description,
        properties,
        required,
        items,
        enum_values,
        additional_properties: _,
        schema: _,
        default: _,
        format,
    } = schema;
    let is_string = match &schema_type {
        Some(t) => str_eq(t.as_str(), "string"),
        None => false,
    };
    let format = match format {
        Some(f) => {
            if is_string && !str_eq(f.as_str(), "enum") && !str_eq(f.as_str(), "date-time") {
                None
            } else {
                Some(f)
            }
        },
        None => None,
    };
    let properties = match properties {
        Some(ps) => Some(strip_properties(ps)),
        None => None,
    };
    let items = match items {
        Some(b) => Some(Box::new(strip_unsupported_schema_fields(*b))),
        None => None,
    };
    let r = JsonSchema {
        schema_type,
        description,
        properties,
        required,
        items,
        enum_values,
        additional_properties: None,
        schema: None,
        default: None,
        format,
    };
    proof {
        lemma_properties_view(r);
        let a = schema_view(r);
        let b = stripped_schema(schema_view(s0));
        if let Some(ps) = s0.properties {
            assert(a.properties->0 =~= b.properties->0);
        }
    }
    r
}

fn strip_properties(ps: Vec<(String, JsonSchema)>) -> (r: Vec<(String, JsonSchema)>)
    ensures
        properties_view(r@) == Seq::new(
            ps@.len(),
            |i: int| (ps@[i].0@, stripped_schema(schema_view(ps@[i].1))),
        ),
    decreases ps, 0nat,
{
    let ghost p0 = ps;
    let n = ps.len();
    let mut out: Vec<(String, JsonSchema)> = Vec::new();
    let mut rest = ps;
    let mut k: usize = 0;
    while rest.len() > 0
        invariant
            p0 == ps,
            n == p0@.len(),
            k + rest@.len() == p0@.len(),
            rest@ == p0@.subrange(k as int, p0@.len() as int),
            out@.len() == k,
            forall|j: int|
                0 <= j < k ==> out@[j].0@ == p0@[j].0@ && schema_view(out@[j].1) == stripped_schema(
                    schema_view(p0@[j].1),
                ),
        decreases rest@.len(),
    {
        let (name, sub) = rest.remove(0);
        proof {
            assert(p0@[k as int] == (name, sub));
            vstd::std_specs::vec::axiom_vec_index_decreases(p0, k as int);
            assert(decreases_to!(p0@[k as int] => p0@[k as int].1));
            assert(rest@ =~= p0@.subrange(k + 1, p0@.len() as int));
        }
        let stripped = strip_unsupported_schema_fields(sub);
        out.push((name, stripped));
        k = k + 1;
    }
    assert(properties_view(out@) =~= Seq::new(
        p0@.len(),
        |i: int| (p0@[i].0@, stripped_schema(schema_view(p0@[i].1))),
    ));
    out
}

/// The ids and function names of the tool calls seen so far, in order; a
/// later entry for an id wins.
///
/// A list of pairs stands in for a map from id to name: vstd specifies std's
/// `HashMap` only for keys whose hashing and equality it models, and
/// `String` is not among them. Looking up the last entry for an id gives
/// what a map's latest `insert` for that id would.
pub struct ToolCallNames {
    entries: Vec<(String, String)>,
}

impl View for ToolCallNames {
    type V = Seq<(Seq<char>, Seq<char>)>;

    closed spec fn view(&self) -> Seq<(Seq<char>, Seq<char>)> {
        Seq::new(self.entries@.len(), |i: int| (self.entries@[i].0@, self.entries@[i].1@))
    }
}

/// The function name last recorded for a tool call id.
pub open spec fn lookup_name(names: Seq<(Seq<char>, Seq<char>)>, id: Seq<char>) -> Option<Seq<char>>
    decreases names.len(),
{
    if names.len() == 0 {
        None
    } else if names.last().0 == id {
        Some(names.last().1)
    } else {
        lookup_name(names.drop_last(), id)
    }
}

impl ToolCallNames {
    pub fn new() -> (r: ToolCallNames)
        ensures
            r@ == Seq::<(Seq<char>, Seq<char>)>::empty(),
    {
        let r = ToolCallNames { entries: Vec::new() };
        assert(r@ =~= Seq::<(Seq<char>, Seq<char>)>::empty());
        r
    }

    /// Records the function name of a tool call.
    pub fn insert(&mut self, id: String, name: String)
        ensures
            final(self)@ == old(self)@.push((id@, name@)),
    {
        let ghost before = self@;
        let ghost e = (id@, name@);
        self.entries.push((id, name));
        assert(self@ =~= before.push(e));
    }

    /// The function name recorded last for a tool call id.
    pub fn get(&self, id: &str) -> (r: Option<String>)
        ensures
            r.deep_view() == lookup_name(self@, id@),
    {
        let ghost v = self@;
        let mut k: usize = self.entries.len();
        assert(v.take(k as int) =~= v);
        while k > 0
            invariant
                0 <= k <= self.entries@.len(),
                v == self@,
                lookup_name(v, id@) == lookup_name(v.take(k as int), id@),
            decreases k,
        {
            let ghost t = v.take(k as int);
            assert(t.drop_last() =~= v.take(k - 1));
            assert(t.last() == v[k - 1]);
            if str_eq(self.entries[k - 1].0.as_str(), id) {
                return Some(self.entries[k - 1].1.clone());
            }
            k = k - 1;
        }
        None
    }
}

pub open spec fn text_part(t: Seq<char>) -> GPart {
    GPart { text: Some(t), function_call: None, function_response: None }
}

/// Parts with a text part added, unless the text is empty.
pub open spec fn parts_with_text(ps: Seq<GPart>, t: Seq<char>) -> Seq<GPart> {
    if t.len() == 0 {
        ps
    } else {
        ps.push(text_part(t))
    }
}

/// Parts being built for one message, and the tool call names so far.
pub struct GState {
    pub parts: Seq<GPart>,
    pub names: Seq<(Seq<char>, Seq<char>)>,
}

pub open spec fn st_text(s: GState, t: Seq<char>) -> GState {
    GState { parts: parts_with_text(s.parts, t), names: s.names }
}

/// A function call part; the call's name is recorded for its id.
pub open spec fn st_call(s: GState, id: Seq<char>, name: Seq<char>, args: Json) -> GState {
    GState {
        parts: s.parts.push(GPart { text: None, function_call: Some((name, args)), function_response: None }),
        names: s.names.push((id, name)),
    }
}

/// A function response part, named by the recorded call name, or by the id
/// when no call with that id was seen.
pub open spec fn st_response(s: GState, id: Seq<char>, response: Json) -> GState {
    GState {
        parts: s.parts.push(
            GPart {
                text: None,
                function_call: None,
                function_response: Some(
                    (
                        match lookup_name(s.names, id) {
                            Some(n) => n,
                            None => id,
                        },
                        response,
                    ),
                ),
            },
        ),
        names: s.names,
    }
}

pub open spec fn result_object(v: Json) -> Json {
    Json::Object(seq![("result"@, v)])
}

/// The response body for a tool's text, given what `serde_json` read from
/// it: a JSON object as is, another JSON value or unreadable text under `result`.
pub open spec fn text_result_json(text: Seq<char>, parsed: Option<Json>) -> Json {
    match parsed {
        Some(Json::Object(ms)) => Json::Object(ms),
        Some(other) => result_object(other),
        None => result_object(Json::Str(text)),
    }
}

/// The response body for a tool result; an error flag is added to an object
/// body as `is_error`.
pub open spec fn tool_result_json(c: ToolResultModel, is_error: Option<bool>) -> Json {
    let base = match c {
        ToolResultModel::Text(t) => text_result_json(t, serde_json_parse(t)),
        ToolResultModel::Multiple(vs) => result_object(Json::Array(vs.map_values(|v: Seq<char>| Json::Str(v)))),
    };
    match is_error {
        Some(f) => match base {
            Json::Object(ms) => Json::Object(member_insert(ms, "is_error"@, Json::Bool(f))),
            _ => base,
        },
        None => base,
    }
}

/// The arguments of a tool call as JSON: text is read as JSON, an empty
/// object where it is not JSON.
pub open spec fn call_args_json(a: ArgumentsModel) -> Json {
    match a {
        ArgumentsModel::String(raw) => match serde_json_parse(raw) {
            Some(v) => v,
            None => Json::Object(Seq::empty()),
        },
        ArgumentsModel::Value(v) => v,
    }
}

pub open spec fn image_note() -> Seq<char> {
    "[Image content not supported]"@
}

/// One block of a user or assistant message.
pub open spec fn st_block(s: GState, b: ContentModel) -> GState {
    match b {
        ContentModel::Text { text } => st_text(s, text),
        ContentModel::ToolUse { id, name, input } => st_call(s, id, name, input),
        ContentModel::ToolResult { tool_use_id, content, is_error } => st_response(
            s,
            tool_use_id,
            tool_result_json(content, is_error),
        ),
        ContentModel::Image { .. } => st_text(s, image_note()),
    }
}

pub open spec fn st_blocks(s: GState, bs: Seq<ContentModel>) -> GState
    decreases bs.len(),
{
    if bs.len() == 0 {
        s
    } else {
        st_block(st_blocks(s, bs.drop_last()), bs.last())
    }
}

/// One block of a tool message: text is the response to the message's call
/// (`unknown_function` without a call id).
pub open spec fn st_tool_block(s: GState, b: ContentModel, call_id: Option<Seq<char>>) -> GState {
    match b {
        ContentModel::Text { text } => st_response(
            s,
            match call_id {
                Some(i) => i,
                None => "unknown_function"@,
            },
            tool_result_json(ToolResultModel::Text(text), None),
        ),
        _ => st_block(s, b),
    }
}

pub open spec fn st_tool_blocks(s: GState, bs: Seq<ContentModel>, call_id: Option<Seq<char>>) -> GState
    decreases bs.len(),
{
    if bs.len() == 0 {
        s
    } else {
        st_tool_block(st_tool_blocks(s, bs.drop_last(), call_id), bs.last(), call_id)
    }
}

pub open spec fn st_calls(s: GState, cs: Seq<ToolCallModel>) -> GState
    decreases cs.len(),
{
    if cs.len() == 0 {
        s
    } else {
        let c = cs.last();
        st_call(st_calls(s, cs.drop_last()), c.id, c.function.name, call_args_json(c.function.arguments))
    }
}

/// The parts of a user or assistant message: its content, then its tool calls.
pub open spec fn message_parts(names: Seq<(Seq<char>, Seq<char>)>, m: MessageModel) -> GState {
    let s0 = GState { parts: Seq::empty(), names };
    let s1 = match m.content {
        ContainerModel::Text(t) => st_text(s0, t),
        ContainerModel::Blocks(bs) => st_blocks(s0, bs),
    };
    match m.tool_calls {
        Some(cs) => st_calls(s1, cs),
        None => s1,
    }
}

/// The parts of a tool message; its tool calls are not used.
pub open spec fn tool_message_parts(names: Seq<(Seq<char>, Seq<char>)>, m: MessageModel) -> GState {
    let s0 = GState { parts: Seq::empty(), names };
    match m.content {
        ContainerModel::Text(t) => match m.tool_call_id {
            Some(id) => st_response(s0, id, tool_result_json(ToolResultModel::Text(t), None)),
            None => st_text(s0, t),
        },
        ContainerModel::Blocks(bs) => st_tool_blocks(s0, bs, m.tool_call_id),
    }
}

/// Contents with a new entry when there are parts.
pub open spec fn contents_with(cs: Seq<GContent>, parts: Seq<GPart>, role: GoogleRole) -> Seq<GContent> {
    if parts.len() > 0 {
        cs.push(GContent { parts, role })
    } else {
        cs
    }
}

/// The text of a system message: plain text, or its text blocks joined with
/// newlines (none without text blocks).
pub open spec fn system_text_of(c: ContainerModel) -> Option<Seq<char>> {
    match c {
        ContainerModel::Text(t) => Some(t),
        ContainerModel::Blocks(bs) => {
            let texts = crate::seqs::filter_map(
                bs,
                |b: ContentModel|
                    match b {
                        ContentModel::Text { text } => Some(text),
                        _ => None,
                    },
            );
            if texts.len() == 0 {
                None
            } else {
                Some(join(texts, "\n"@))
            }
        },
    }
}

pub open spec fn system_content(t: Seq<char>) -> GContent {
    GContent { parts: seq![text_part(t)], role: GoogleRole::User }
}

/// The conversation built so far.
pub struct GConv {
    pub contents: Seq<GContent>,
    pub system: Option<GContent>,
    pub names: Seq<(Seq<char>, Seq<char>)>,
}

/// One message of the conversation: a system message with text replaces the
/// system instruction; user and tool messages give user entries, assistant
/// messages model entries; messages without parts give none.
pub open spec fn conv_step(c: GConv, m: MessageModel) -> GConv {
    match m.role {
        UnifiedRole::System => match system_text_of(m.content) {
            Some(t) => GConv { system: Some(system_content(t)), ..c },
            None => c,
        },
        UnifiedRole::User => {
            let s = message_parts(c.names, m);
            GConv { contents: contents_with(c.contents, s.parts, GoogleRole::User), names: s.names, ..c }
        },
        UnifiedRole::Assistant => {
            let s = message_parts(c.names, m);
            GConv { contents: contents_with(c.contents, s.parts, GoogleRole::Model), names: s.names, ..c }
        },
        UnifiedRole::Tool => {
            let s = tool_message_parts(c.names, m);
            GConv { contents: contents_with(c.contents, s.parts, GoogleRole::User), names: s.names, ..c }
        },
    }
}

pub open spec fn conv_all(c: GConv, ms: Seq<MessageModel>) -> GConv
    decreases ms.len(),
{
    if ms.len() == 0 {
        c
    } else {
        conv_step(conv_all(c, ms.drop_last()), ms.last())
    }
}

/// Adds a text part, unless the text is empty.
pub fn push_text_part(parts: &mut Vec<GooglePart>, text: String)
    ensures
        final(parts).deep_view() == parts_with_text(old(parts).deep_view(), text@),
{
    if text.as_str().is_empty() {
        return;
    }
    let ghost before = parts.deep_view();
    let ghost t = text@;
    parts.push(GooglePart { text: Some(text), function_call: None, function_response: None });
    assert(parts.deep_view() =~= before.push(text_part(t)));
}

/// Adds a function call part and records the call's name for its id.
pub fn push_function_call(
    parts: &mut Vec<GooglePart>,
    id: String,
    name: String,
    args: JsonValue,
    tool_call_names: &mut ToolCallNames,
)
    ensures
        (GState { parts: final(parts).deep_view(), names: final(tool_call_names)@ }) == st_call(
            GState { parts: old(parts).deep_view(), names: old(tool_call_names)@ },
            id@,
            name@,
            args.deep_view(),
        ),
{
    let ghost before = parts.deep_view();
    let ghost (n, a) = (name@, args.deep_view());
    tool_call_names.insert(id, name.clone());
    parts.push(
        GooglePart {
            text: None,
            function_call: Some(GoogleFunctionCall { name, args, thought_signature: None }),
            function_response: None,
        },
    );
    assert(parts.deep_view() =~= before.push(
        GPart { text: None, function_call: Some((n, a)), function_response: None },
    ));
}

/// Adds a function response part, named by the call it answers (the id
/// itself when that call was not seen).
pub fn push_function_response(
    parts: &mut Vec<GooglePart>,
    tool_use_id: String,
    response: JsonValue,
    tool_call_names: &ToolCallNames,
)
    ensures
        final(parts).deep_view() == st_response(
            GState { parts: old(parts).deep_view(), names: tool_call_names@ },
            tool_use_id@,
            response.deep_view(),
        ).parts,
{
    let ghost before = parts.deep_view();
    let ghost r = response.deep_view();
    let name = match tool_call_names.get(tool_use_id.as_str()) {
        Some(n) => n,
        None => tool_use_id,
    };
    let ghost nv = name@;
    parts.push(
        GooglePart {
            text: None,
            function_call: None,
            function_response: Some(GoogleFunctionResponse { name, response }),
        },
    );
    assert(parts.deep_view() =~= before.push(
        GPart { text: None, function_call: None, function_response: Some((nv, r)) },
    ));
}

fn result_object_of(v: JsonValue) -> (r: JsonValue)
    ensures
        r.deep_view() == result_object(v.deep_view()),
{
    proof {
        reveal_strlit("result");
    }
    let ghost vv = v.deep_view();
    let mut ms: Vec<(String, JsonValue)> = Vec::new();
    ms.push((String::from_str("result"), v));
    proof {
        lemma_object_view(ms);
        assert(members_view(ms@) =~= seq![("result"@, vv)]);
    }
    JsonValue::Object(ms)
}

/// The response body for a tool's text, given what `serde_json` read from it
/// (see `text_result_json`).
pub fn text_result_value(text: String, parsed: Option<JsonValue>) -> (r: JsonValue)
    ensures
        r.deep_view() == text_result_json(text@, parsed.deep_view()),
{
    match parsed {
        Some(JsonValue::Object(ms)) => JsonValue::Object(ms),
        Some(other) => result_object_of(other),
        None => result_object_of(JsonValue::Str(text)),
    }
}

/// The response body Gemini gets for a tool result (see `tool_result_json`).
pub fn tool_result_value(content: UnifiedToolResultContent, is_error: Option<bool>) -> (r: JsonValue)
    ensures
        r.deep_view() == tool_result_json(content.deep_view(), is_error),
{
    let ghost cv = content.deep_view();
    let base = match content {
        UnifiedToolResultContent::Text(text) => {
            let parsed = parse_json(text.as_str());
            text_result_value(text, parsed)
        },
        UnifiedToolResultContent::Multiple(values) => {
            let ghost v0 = values;
            let mut items: Vec<JsonValue> = Vec::new();
            for v in it: values.into_iter()
                invariant
                    it.seq() == v0@,
                    items@.len() == it.index(),
                    forall|j: int| 0 <= j < it.index() ==> items@[j].deep_view() == Json::Str(v0@[j]@),
            {
                items.push(JsonValue::Str(v));
            }
            proof {
                lemma_array_view(items);
                assert(items.deep_view() =~= v0.deep_view().map_values(|v: Seq<char>| Json::Str(v)));
            }
            result_object_of(JsonValue::Array(items))
        },
    };
    proof {
        reveal_strlit("is_error");
    }
    match is_error {
        Some(flag) => object_insert(base, String::from_str("is_error"), JsonValue::Bool(flag)),
        None => base,
    }
}

/// The arguments of a tool call as JSON (see `call_args_json`).
pub fn arguments_json_value(arguments: UnifiedArguments) -> (r: JsonValue)
    ensures
        r.deep_view() == call_args_json(arguments.deep_view()),
{
    match arguments {
        UnifiedArguments::String(raw) => match parse_json(raw.as_str()) {
            Some(v) => v,
            None => JsonValue::empty_object(),
        },
        UnifiedArguments::Value(v) => v,
    }
}

fn add_block(parts: &mut Vec<GooglePart>, names: &mut ToolCallNames, block: UnifiedContent)
    ensures
        (GState { parts: final(parts).deep_view(), names: final(names)@ }) == st_block(
            GState { parts: old(parts).deep_view(), names: old(names)@ },
            block.deep_view(),
        ),
{
    proof {
        reveal_strlit("[Image content not supported]");
    }
    match block {
        UnifiedContent::Text { text } => push_text_part(parts, text),
        UnifiedContent::ToolUse { id, name, input } => push_function_call(parts, id, name, input, names),
        UnifiedContent::ToolResult { tool_use_id, content, is_error } => {
            let response = tool_result_value(content, is_error);
            push_function_response(parts, tool_use_id, response, names);
        },
        UnifiedContent::Image { .. } => push_text_part(parts, String::from_str("[Image content not supported]")),
    }
}

fn add_blocks(parts: &mut Vec<GooglePart>, names: &mut ToolCallNames, blocks: Vec<UnifiedContent>)
    ensures
        (GState { parts: final(parts).deep_view(), names: final(names)@ }) == st_blocks(
            GState { parts: old(parts).deep_view(), names: old(names)@ },
            blocks.deep_view(),
        ),
{
    let ghost s0 = GState { parts: parts.deep_view(), names: names@ };
    let ghost b0 = blocks;
    let ghost bs = blocks.deep_view();
    assert(bs.take(0) =~= Seq::<ContentModel>::empty());
    for b in it: blocks.into_iter()
        invariant
            it.seq() == b0@,
            bs == b0.deep_view(),
            (GState { parts: parts.deep_view(), names: names@ }) == st_blocks(s0, bs.take(it.index() as int)),
    {
        proof {
            assert(bs.take(it.index() + 1).drop_last() =~= bs.take(it.index() as int));
        }
        add_block(parts, names, b);
    }
    assert(bs.take(bs.len() as int) =~= bs);
}

fn add_tool_blocks(
    parts: &mut Vec<GooglePart>,
    names: &mut ToolCallNames,
    blocks: Vec<UnifiedContent>,
    tool_call_id: &Option<String>,
)
    ensures
        (GState { parts: final(parts).deep_view(), names: final(names)@ }) == st_tool_blocks(
            GState { parts: old(parts).deep_view(), names: old(names)@ },
            blocks.deep_view(),
            tool_call_id.deep_view(),
        ),
{
    let ghost s0 = GState { parts: parts.deep_view(), names: names@ };
    let ghost b0 = blocks;
    let ghost bs = blocks.deep_view();
    let ghost cid = tool_call_id.deep_view();
    assert(bs.take(0) =~= Seq::<ContentModel>::empty());
    proof {
        reveal_strlit("unknown_function");
    }
    for b in it: blocks.into_iter()
        invariant
            it.seq() == b0@,
            bs == b0.deep_view(),
            cid == tool_call_id.deep_view(),
            (GState { parts: parts.deep_view(), names: names@ }) == st_tool_blocks(
                s0,
                bs.take(it.index() as int),
                cid,
            ),
    {
        proof {
            assert(bs.take(it.index() + 1).drop_last() =~= bs.take(it.index() as int));
        }
        match b {
            UnifiedContent::Text { text } => {
                let response = tool_result_value(UnifiedToolResultContent::Text(text), None);
                let id = match tool_call_id {
                    Some(i) => i.clone(),
                    None => String::from_str("unknown_function"),
                };
                push_function_response(parts, id, response, names);
            },
            other => add_block(parts, names, other),
        }
    }
    assert(bs.take(bs.len() as int) =~= bs);
}

fn add_calls(parts: &mut Vec<GooglePart>, names: &mut ToolCallNames, calls: Vec<UnifiedToolCall>)
    ensures
        (GState { parts: final(parts).deep_view(), names: final(names)@ }) == st_calls(
            GState { parts: old(parts).deep_view(), names: old(names)@ },
            calls.deep_view(),
        ),
{
    let ghost s0 = GState { parts: parts.deep_view(), names: names@ };
    let ghost c0 = calls;
    let ghost cs = calls.deep_view();
    assert(cs.take(0) =~= Seq::<ToolCallModel>::empty());
    for call in it: calls.into_iter()
        invariant
            it.seq() == c0@,
            cs == c0.deep_view(),
            (GState { parts: parts.deep_view(), names: names@ }) == st_calls(s0, cs.take(it.index() as int)),
    {
        proof {
            assert(cs.take(it.index() + 1).drop_last() =~= cs.take(it.index() as int));
        }
        let UnifiedToolCall { id, function } = call;
        let args = arguments_json_value(function.arguments);
        push_function_call(parts, id, function.name, args, names);
    }
    assert(cs.take(cs.len() as int) =~= cs);
}

fn push_content(contents: &mut Vec<GoogleContent>, parts: Vec<GooglePart>, role: GoogleRole)
    ensures
        final(contents).deep_view() == contents_with(old(contents).deep_view(), parts.deep_view(), role),
{
    if parts.len() > 0 {
        let ghost before = contents.deep_view();
        let ghost pv = parts.deep_view();
        contents.push(GoogleContent { parts, role });
        assert(contents.deep_view() =~= before.push(GContent { parts: pv, role }));
    }
}

fn message_parts_into(message: UnifiedMessage, names: &mut ToolCallNames) -> (r: Vec<GooglePart>)
    ensures
        (GState { parts: r.deep_view(), names: final(names)@ }) == message_parts(old(names)@, message.deep_view()),
{
    let UnifiedMessage { role: _, content, tool_calls, tool_call_id: _ } = message;
    let mut parts: Vec<GooglePart> = Vec::new();
    assert(parts.deep_view() =~= Seq::<GPart>::empty());
    match content {
        UnifiedContentContainer::Text(text) => push_text_part(&mut parts, text),
        UnifiedContentContainer::Blocks(blocks) => add_blocks(&mut parts, names, blocks),
    }
    match tool_calls {
        Some(calls) => add_calls(&mut parts, names, calls),
        None => {},
    }
    parts
}

/// Adds a user message: its parts, if any, as a user entry.
pub fn handle_user_message(message: UnifiedMessage, contents: &mut Vec<GoogleContent>, tool_call_names: &mut ToolCallNames)
    ensures
        ({
            let s = message_parts(old(tool_call_names)@, message.deep_view());
            &&& final(contents).deep_view() == contents_with(old(contents).deep_view(), s.parts, GoogleRole::User)
            &&& final(tool_call_names)@ == s.names
        }),
{
    let parts = message_parts_into(message, tool_call_names);
    push_content(contents, parts, GoogleRole::User);
}

/// Adds an assistant message: its parts, if any, as a model entry.
pub fn handle_assistant_message(message: UnifiedMessage, contents: &mut Vec<GoogleContent>, tool_call_names: &mut ToolCallNames)
    ensures
        ({
            let s = message_parts(old(tool_call_names)@, message.deep_view());
            &&& final(contents).deep_view() == contents_with(old(contents).deep_view(), s.parts, GoogleRole::Model)
            &&& final(tool_call_names)@ == s.names
        }),
{
    let parts = message_parts_into(message, tool_call_names);
    push_content(contents, parts, GoogleRole::Model);
}

/// Adds a tool message: its parts, if any, as a user entry.
pub fn handle_tool_message(message: UnifiedMessage, contents: &mut Vec<GoogleContent>, tool_call_names: &mut ToolCallNames)
    ensures
        ({
            let s = tool_message_parts(old(tool_call_names)@, message.deep_view());
            &&& final(contents).deep_view() == contents_with(old(contents).deep_view(), s.parts, GoogleRole::User)
            &&& final(tool_call_names)@ == s.names
        }),
{
    let UnifiedMessage { role: _, content, tool_calls: _, tool_call_id } = message;
    let mut parts: Vec<GooglePart> = Vec::new();
    assert(parts.deep_view() =~= Seq::<GPart>::empty());
    match content {
        UnifiedContentContainer::Text(text) => match tool_call_id {
            Some(id) => {
                let response = tool_result_value(UnifiedToolResultContent::Text(text), None);
                push_function_response(&mut parts, id, response, tool_call_names);
            },
            None => push_text_part(&mut parts, text),
        },
        UnifiedContentContainer::Blocks(blocks) => add_tool_blocks(&mut parts, tool_call_names, blocks, &tool_call_id),
    }
    push_content(contents, parts, GoogleRole::User);
}

/// The text of a system message (see `system_text_of`).
pub fn extract_system_text(content: UnifiedContentContainer) -> (r: Option<String>)
    ensures
        r.deep_view() == system_text_of(content.deep_view()),
{
    proof {
        reveal_strlit("\n");
    }
    match content {
        UnifiedContentContainer::Text(text) => Some(text),
        UnifiedContentContainer::Blocks(blocks) => {
            let ghost b0 = blocks;
            let ghost bs = blocks.deep_view();
            let ghost f = |b: ContentModel|
                match b {
                    ContentModel::Text { text } => Some(text),
                    _ => None,
                };
            let mut collected: Vec<String> = Vec::new();
            assert(bs.take(0) =~= Seq::<ContentModel>::empty());
            assert(collected.deep_view() =~= crate::seqs::filter_map(bs.take(0), f));
            for b in it: blocks.into_iter()
                invariant
                    it.seq() == b0@,
                    bs == b0.deep_view(),
                    f == (|b: ContentModel|
                        match b {
                            ContentModel::Text { text } => Some(text),
                            _ => None,
                        }),
                    collected.deep_view() == crate::seqs::filter_map(bs.take(it.index() as int), f),
            {
                proof {
                    crate::seqs::lemma_filter_map_step(bs, f, it.index() as int);
                }
                match b {
                    UnifiedContent::Text { text } => {
                        let ghost before = collected.deep_view();
                        let ghost tv = text@;
                        collected.push(text);
                        assert(collected.deep_view() =~= before.push(tv));
                    },
                    _ => {},
                }
            }
            assert(bs.take(bs.len() as int) =~= bs);
            if collected.len() == 0 {
                None
            } else {
                Some(crate::seqs::join_strings(&collected, "\n"))
            }
        },
    }
}

fn system_content_of(text: String) -> (r: GoogleContent)
    ensures
        r.deep_view() == system_content(text@),
{
    let ghost t = text@;
    let mut parts: Vec<GooglePart> = Vec::new();
    parts.push(GooglePart { text: Some(text), function_call: None, function_response: None });
    assert(parts.deep_view() =~= seq![text_part(t)]);
    GoogleContent { parts, role: GoogleRole::User }
}

/// The conversation's entries and system instruction (see `conv_all`).
pub fn convert_unified_messages(messages: Vec<UnifiedMessage>, system_instruction: Option<GoogleContent>) -> (r: (
    Vec<GoogleContent>,
    Option<GoogleContent>,
))
    ensures
        ({
            let c = conv_all(
                GConv { contents: Seq::empty(), system: system_instruction.deep_view(), names: Seq::empty() },
                messages.deep_view(),
            );
            r.0.deep_view() == c.contents && r.1.deep_view() == c.system
        }),
{
    let ghost c0 = GConv { contents: Seq::empty(), system: system_instruction.deep_view(), names: Seq::empty() };
    let ghost m0 = messages;
    let ghost ms = messages.deep_view();
    let mut contents: Vec<GoogleContent> = Vec::new();
    let mut system_instruction = system_instruction;
    let mut names = ToolCallNames::new();
    assert(ms.take(0) =~= Seq::<MessageModel>::empty());
    assert(contents.deep_view() =~= Seq::<GContent>::empty());
    for message in it: messages.into_iter()
        invariant
            it.seq() == m0@,
            ms == m0.deep_view(),
            (GConv { contents: contents.deep_view(), system: system_instruction.deep_view(), names: names@ })
                == conv_all(c0, ms.take(it.index() as int)),
    {
        proof {
            assert(ms.take(it.index() + 1).drop_last() =~= ms.take(it.index() as int));
        }
        match message.role {
            UnifiedRole::System => {
                match extract_system_text(message.content) {
                    Some(text) => {
                        system_instruction = Some(system_content_of(text));
                    },
                    None => {},
                }
            },
            UnifiedRole::User => handle_user_message(message, &mut contents, &mut names),
            UnifiedRole::Assistant => handle_assistant_message(message, &mut contents, &mut names),
            UnifiedRole::Tool => handle_tool_message(message, &mut contents, &mut names),
        }
    }
    assert(ms.take(ms.len() as int) =~= ms);
    (contents, system_instruction)
}

/// A function the model may call, as Gemini declares it.
#[derive(Debug)]
pub struct GoogleFunctionDeclaration {
    pub name: String,
    pub description: Option<String>,
    /// The parameter schema as JSON.
    pub parameters: Option<JsonValue>,
}

pub struct GDecl {
    pub name: Seq<char>,
    pub description: Option<Seq<char>>,
    pub parameters: Option<Json>,
}

impl DeepView for GoogleFunctionDeclaration {
    type V = GDecl;

    open spec fn deep_view(&self) -> GDecl {
        GDecl { name: self.name@, description: self.description.deep_view(), parameters: self.parameters.deep_view() }
    }
}

#[derive(Debug)]
pub struct GoogleTool {
    pub function_declarations: Option<Vec<GoogleFunctionDeclaration>>,
}

impl DeepView for GoogleTool {
    type V = Option<Seq<GDecl>>;

    open spec fn deep_view(&self) -> Option<Seq<GDecl>> {
        self.function_declarations.deep_view()
    }
}

/// How Gemini may call functions.
#[derive(Debug, Clone, Copy, PartialEq, Eq, Structural)]
pub enum GoogleFunctionCallingMode {
    /// `NONE`: no function may be called.
    Disabled,
    Auto,
    Any,
}

#[derive(Debug)]
pub struct GoogleFunctionCallingConfig {
    pub mode: GoogleFunctionCallingMode,
    pub allowed_function_names: Option<Vec<String>>,
}

#[derive(Debug)]
pub struct GoogleToolConfig {
    pub function_calling_config: Option<GoogleFunctionCallingConfig>,
}

impl DeepView for GoogleToolConfig {
    type V = Option<(GoogleFunctionCallingMode, Option<Seq<Seq<char>>>)>;

    open spec fn deep_view(&self) -> Option<(GoogleFunctionCallingMode, Option<Seq<Seq<char>>>)> {
        match &self.function_calling_config {
            Some(c) => Some((c.mode, c.allowed_function_names.deep_view())),
            None => None,
        }
    }
}

/// A safety threshold for a harm category.
#[derive(Debug)]
pub struct GoogleSafetySetting {
    category: String,
    threshold: String,
}

#[derive(Debug)]
pub struct GoogleGenerationConfig {
    pub stop_sequences: Option<Vec<String>>,
    pub response_mime_type: Option<String>,
    pub response_schema: Option<JsonValue>,
    pub candidate_count: Option<i32>,
    pub max_output_tokens: Option<i32>,
    pub temperature: Option<Real32>,
    pub top_p: Option<Real32>,
    pub top_k: Option<i32>,
}

pub struct GConfig {
    pub stop_sequences: Option<Seq<Seq<char>>>,
    pub response_mime_type: Option<Seq<char>>,
    pub response_schema: Option<Json>,
    pub candidate_count: Option<i32>,
    pub max_output_tokens: Option<i32>,
    pub temperature: Option<Real32>,
    pub top_p: Option<Real32>,
    pub top_k: Option<i32>,
}

impl DeepView for GoogleGenerationConfig {
    type V = GConfig;

    open spec fn deep_view(&self) -> GConfig {
        GConfig {
            stop_sequences: self.stop_sequences.deep_view(),
            response_mime_type: self.response_mime_type.deep_view(),
            response_schema: self.response_schema.deep_view(),
            candidate_count: self.candidate_count,
            max_output_tokens: self.max_output_tokens,
            temperature: self.temperature,
            top_p: self.top_p,
            top_k: self.top_k,
        }
    }
}

/// A `generateContent` request.
#[derive(Debug)]
pub struct GoogleGenerateRequest {
    pub contents: Vec<GoogleContent>,
    pub generation_config: Option<GoogleGenerationConfig>,
    pub safety_settings: Option<Vec<GoogleSafetySetting>>,
    pub tools: Option<Vec<GoogleTool>>,
    pub tool_config: Option<GoogleToolConfig>,
    pub system_instruction: Option<GoogleContent>,
}

pub struct GRequest {
    pub contents: Seq<GContent>,
    pub generation_config: Option<GConfig>,
    pub has_safety_settings: bool,
    pub tools: Option<Seq<Option<Seq<GDecl>>>>,
    pub tool_config: Option<Option<(GoogleFunctionCallingMode, Option<Seq<Seq<char>>>)>>,
    pub system_instruction: Option<GContent>,
}

impl DeepView for GoogleGenerateRequest {
    type V = GRequest;

    open spec fn deep_view(&self) -> GRequest {
        GRequest {
            contents: self.contents.deep_view(),
            generation_config: self.generation_config.deep_view(),
            has_safety_settings: self.safety_settings is Some,
            tools: self.tools.deep_view(),
            tool_config: self.tool_config.deep_view(),
            system_instruction: self.system_instruction.deep_view(),
        }
    }
}

/// A unified tool as a declaration: the parameter schema stripped of what
/// Gemini rejects, as JSON; an empty description is left out.
pub open spec fn decl_of(f: FunctionModel) -> GDecl {
    GDecl {
        name: f.name,
        description: if f.description.len() == 0 {
            None
        } else {
            Some(f.description)
        },
        parameters: Some(schema_json(stripped_schema(f.parameters))),
    }
}

/// An OpenAI tool as a declaration; the description is always given.
pub open spec fn decl_of_openai(t: ToolModel) -> GDecl {
    GDecl {
        name: t.name,
        description: Some(t.description),
        parameters: Some(schema_json(stripped_schema(t.parameters))),
    }
}

pub open spec fn gmode(m: UnifiedToolChoiceMode) -> GoogleFunctionCallingMode {
    match m {
        UnifiedToolChoiceMode::Disabled => GoogleFunctionCallingMode::Disabled,
        UnifiedToolChoiceMode::Auto => GoogleFunctionCallingMode::Auto,
        UnifiedToolChoiceMode::Required => GoogleFunctionCallingMode::Any,
    }
}

/// An OpenAI mode as a calling mode; `required` and `any` are `ANY`,
/// unknown modes `AUTO`.
pub open spec fn gmode_of_openai(m: ToolChoiceModeModel) -> GoogleFunctionCallingMode {
    match m {
        ToolChoiceModeModel::Disabled => GoogleFunctionCallingMode::Disabled,
        ToolChoiceModeModel::Auto => GoogleFunctionCallingMode::Auto,
        ToolChoiceModeModel::Required => GoogleFunctionCallingMode::Any,
        ToolChoiceModeModel::Any => GoogleFunctionCallingMode::Any,
        ToolChoiceModeModel::Other(_) => GoogleFunctionCallingMode::Auto,
    }
}

/// The tool configuration for a tool choice: a mode maps to a calling mode;
/// a specific function is `ANY` restricted to that function.
pub open spec fn tool_config_of(c: ToolChoiceModel) -> (GoogleFunctionCallingMode, Option<Seq<Seq<char>>>) {
    match c {
        ToolChoiceModel::Mode(m) => (gmode(m), None),
        ToolChoiceModel::Specific { name } => (GoogleFunctionCallingMode::Any, Some(seq![name])),
    }
}

/// A unified request as a `generateContent` request: the system prompt as
/// the initial system instruction, the conversation converted (see
/// `conv_all`), one tool holding all declarations, one candidate, and
/// `max_tokens` and `top_k` cast to `i32` as the output limit and `topK`.
pub open spec fn generate_request(r: RequestModel) -> GRequest {
    let c = conv_all(
        GConv {
            contents: Seq::empty(),
            system: match r.system {
                Some(t) => Some(system_content(t)),
                None => None,
            },
            names: Seq::empty(),
        },
        r.messages,
    );
    GRequest {
        contents: c.contents,
        generation_config: Some(
            GConfig {
                stop_sequences: r.stop_sequences,
                response_mime_type: None,
                response_schema: None,
                candidate_count: Some(1),
                max_output_tokens: match r.max_tokens {
                    Some(v) => Some(v as i32),
                    None => None,
                },
                temperature: r.temperature,
                top_p: r.top_p,
                top_k: match r.top_k {
                    Some(k) => Some(k as i32),
                    None => None,
                },
            },
        ),
        has_safety_settings: false,
        tools: match r.tools {
            Some(ts) => Some(seq![Some(ts.map_values(|t: FunctionModel| decl_of(t)))]),
            None => None,
        },
        tool_config: match r.tool_choice {
            Some(ch) => Some(Some(tool_config_of(ch))),
            None => None,
        },
        system_instruction: c.system,
    }
}

impl GoogleFunctionDeclaration {
    /// The declaration of a unified tool (see `decl_of`).
    pub fn from_unified(tool: UnifiedTool) -> (r: GoogleFunctionDeclaration)
        ensures
            r.deep_view() == decl_of(tool.deep_view()),
    {
        let cleaned = strip_unsupported_schema_fields(tool.function.parameters);
        let parameters = Some(cleaned.to_json());
        let description = if tool.function.description.as_str().is_empty() {
            None
        } else {
            Some(tool.function.description)
        };
        GoogleFunctionDeclaration { name: tool.function.name, description, parameters }
    }

    /// The declaration of an OpenAI tool (see `decl_of_openai`).
    pub fn from_openai(tool: Tool) -> (r: GoogleFunctionDeclaration)
        ensures
            r.deep_view() == decl_of_openai(tool.deep_view()),
    {
        let cleaned = strip_unsupported_schema_fields(tool.function.parameters);
        GoogleFunctionDeclaration {
            name: tool.function.name,
            description: Some(tool.function.description),
            parameters: Some(cleaned.to_json()),
        }
    }
}

impl GoogleFunctionCallingMode {
    pub fn from_unified(m: UnifiedToolChoiceMode) -> (r: GoogleFunctionCallingMode)
        ensures
            r == gmode(m),
    {
        match m {
            UnifiedToolChoiceMode::Disabled => GoogleFunctionCallingMode::Disabled,
            UnifiedToolChoiceMode::Auto => GoogleFunctionCallingMode::Auto,
            UnifiedToolChoiceMode::Required => GoogleFunctionCallingMode::Any,
        }
    }

    pub fn from_openai(m: ToolChoiceMode) -> (r: GoogleFunctionCallingMode)
        ensures
            r == gmode_of_openai(m.deep_view()),
    {
        match m {
            ToolChoiceMode::Disabled => GoogleFunctionCallingMode::Disabled,
            ToolChoiceMode::Auto => GoogleFunctionCallingMode::Auto,
            ToolChoiceMode::Required => GoogleFunctionCallingMode::Any,
            ToolChoiceMode::Any => GoogleFunctionCallingMode::Any,
            ToolChoiceMode::Other(_) => GoogleFunctionCallingMode::Auto,
        }
    }
}

impl GoogleGenerateRequest {
    /// The `generateContent` request for a unified request (see
    /// `generate_request`); the model is chosen by the provider beforehand.
    pub fn from_unified(request: UnifiedRequest) -> (r: GoogleGenerateRequest)
        ensures
            r.deep_view() == generate_request(request.deep_view()),
    {
        let ghost q = request.deep_view();
        let UnifiedRequest {
            model: _,
            messages,
            system,
            max_tokens,
            temperature,
            top_p,
            top_k,
            frequency_penalty: _,
            presence_penalty: _,
            stop_sequences,
            stream: _,
            tools,
            tool_choice,
            parallel_tool_calls: _,
            metadata: _,
        } = request;
        let system_instruction = match system {
            Some(text) => Some(system_content_of(text)),
            None => None,
        };
        let (contents, system_instruction) = convert_unified_messages(messages, system_instruction);
        let tools = match tools {
            Some(list) => {
                let ghost t0 = list;
                let mut decls: Vec<GoogleFunctionDeclaration> = Vec::new();
                for t in it: list.into_iter()
                    invariant
                        it.seq() == t0@,
                        decls@.len() == it.index(),
                        forall|j: int| 0 <= j < it.index() ==> decls@[j].deep_view() == decl_of(t0@[j].deep_view()),
                {
                    decls.push(GoogleFunctionDeclaration::from_unified(t));
                }
                let ghost dv = decls.deep_view();
                assert(dv =~= t0.deep_view().map_values(|t: FunctionModel| decl_of(t)));
                let mut v: Vec<GoogleTool> = Vec::new();
                v.push(GoogleTool { function_declarations: Some(decls) });
                assert(v.deep_view() =~= seq![Some(dv)]);
                Some(v)
            },
            None => None,
        };
        let tool_config = match tool_choice {
            Some(UnifiedToolChoice::Mode(mode)) => Some(
                GoogleToolConfig {
                    function_calling_config: Some(
                        GoogleFunctionCallingConfig {
                            mode: GoogleFunctionCallingMode::from_unified(mode),
                            allowed_function_names: None,
                        },
                    ),
                },
            ),
            Some(UnifiedToolChoice::Specific { function }) => {
                let ghost n = function.name@;
                let mut names: Vec<String> = Vec::new();
                names.push(function.name);
                assert(names.deep_view() =~= seq![n]);
                Some(
                    GoogleToolConfig {
                        function_calling_config: Some(
                            GoogleFunctionCallingConfig {
                                mode: GoogleFunctionCallingMode::Any,
                                allowed_function_names: Some(names),
                            },
                        ),
                    },
                )
            },
            None => None,
        };
        let max_output_tokens = match max_tokens {
            Some(v) => Some(v as i32),
            None => None,
        };
        let generation_config = GoogleGenerationConfig {
            stop_sequences,
            response_mime_type: None,
            response_schema: None,
            candidate_count: Some(1),
            max_output_tokens,
            temperature,
            top_p,
            top_k: match top_k {
                Some(k) => Some(k as i32),
                None => None,
            },
        };
        GoogleGenerateRequest {
            contents,
            generation_config: Some(generation_config),
            safety_settings: None,
            tools,
            tool_config,
            system_instruction,
        }
    }
}

} // verus!
