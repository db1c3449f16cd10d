//! What the providers decide around their API calls: which model a request
//! goes to, where it is sent, and how listings are assembled.
use vstd::prelude::*;
use vstd::string::StringExecFns;

use crate::error::{ErrorModel, LlmError};
use crate::messages::openai::{Model, ObjectType, OpenAiModelInfo};
use crate::text::{
    after_last_char, before_char, concat2, concat3, text_after_last_char, text_before_char,
    strip_prefix_or_keep, without_prefix,
};

verus! {

broadcast use vstd::std_specs::vec::group_vec_axioms;

/// The model a request is sent to, as a model: where the provider's model
/// filter matches the requested name, the name as it is; else the alias's
/// target where the name is a configured alias; else the name as it is where
/// there is no filter; else the name is refused.
pub open spec fn resolved_model(
    model: Seq<char>,
    filter_matches: Option<bool>,
    alias_target: Option<Seq<char>>,
) -> Result<Seq<char>, ErrorModel> {
    if filter_matches == Some(true) {
        Ok(model)
    } else if alias_target is Some {
        Ok(alias_target->0)
    } else if filter_matches is None {
        Ok(model)
    } else {
        Err(ErrorModel::ModelNotFound("Model '"@ + model + "' is not configured"@))
    }
}

/// The model a request for `model` is sent to.
///
/// `filter_matches` is whether the provider's model filter (a regular
/// expression of its configuration) matches `model`, `None` where it has
/// none; `alias_target` is the model that the configuration maps `model`
/// to, where it is a configured alias.
pub fn resolve_request_model(
    model: String,
    filter_matches: Option<bool>,
    alias_target: Option<String>,
) -> (r: Result<String, LlmError>)
    ensures
        match r {
            Ok(m) => resolved_model(model@, filter_matches, alias_target.deep_view()) == Ok::<
                Seq<char>,
                ErrorModel,
            >(m@),
            Err(e) => resolved_model(model@, filter_matches, alias_target.deep_view())
                == Err::<Seq<char>, ErrorModel>(e@),
        },
{
    if let Some(true) = filter_matches {
        return Ok(model);
    }
    if let Some(target) = alias_target {
        return Ok(target);
    }
    if filter_matches.is_none() {
        return Ok(model);
    }
    proof {
        reveal_strlit("Model '");
        reveal_strlit("' is not configured");
    }
    Err(LlmError::ModelNotFound(concat3("Model '", model.as_str(), "' is not configured")))
}

/// A model that a provider's listing API reported.
pub fn discovered_model(id: String, owned_by: String) -> (r: Model)
    ensures
        r.deep_view() == (OpenAiModelInfo { id: id@, object: ObjectType::Model, created: 0, owned_by: owned_by@ }),
{
    Model { id, object: ObjectType::Model, created: 0, owned_by }
}

/// The listing's id of a configured model: the provider's name, `/`, and
/// the model's own id.
pub open spec fn prefixed(provider: Seq<char>, m: OpenAiModelInfo) -> OpenAiModelInfo {
    OpenAiModelInfo { id: provider + "/"@ + m.id, ..m }
}

/// A provider's listing: the models its API reported, then the configured
/// models under ids prefixed with the provider's name.
pub open spec fn listing(
    provider: Seq<char>,
    discovered: Seq<OpenAiModelInfo>,
    configured: Seq<OpenAiModelInfo>,
) -> Seq<OpenAiModelInfo> {
    discovered + configured.map_values(|m: OpenAiModelInfo| prefixed(provider, m))
}

/// The models a provider lists.
pub fn list_models(provider: &str, discovered: Vec<Model>, configured: Vec<Model>) -> (r: Vec<Model>)
    ensures
        r.deep_view() == listing(provider@, discovered.deep_view(), configured.deep_view()),
{
    let ghost d0 = discovered@;
    let ghost c0 = configured@;
    let mut out = discovered;
    proof {
        reveal_strlit("/");
    }
    for m in it: configured.into_iter()
        invariant
            it.seq() == c0,
            out@.len() == d0.len() + it.index(),
            forall|j: int| 0 <= j < d0.len() ==> (#[trigger] out@[j]).deep_view() == d0[j].deep_view(),
            forall|j: int|
                0 <= j < it.index() ==> (#[trigger] out@[d0.len() + j]).deep_view() == prefixed(
                    provider@,
                    c0[j].deep_view(),
                ),
    {
        let Model { id, object, created, owned_by } = m;
        let id = concat3(provider, "/", id.as_str());
        out.push(Model { id, object, created, owned_by });
    }
    proof {
        let want = listing(provider@, discovered.deep_view(), configured.deep_view());
        assert forall|j: int| 0 <= j < out@.len() implies out.deep_view()[j] == want[j] by {
            if j >= d0.len() {
                assert(out@[d0.len() + (j - d0.len())].deep_view() == prefixed(provider@, c0[j - d0.len()].deep_view()));
            }
        }
        assert(out.deep_view() =~= want);
    }
    out
}

/// The id of a Google model from its resource name (`models/gemini-pro`
/// gives `gemini-pro`; a name without that prefix is kept).
pub fn google_model_id(name: &str) -> (r: String)
    ensures
        r@ == without_prefix(name@, "models/"@),
{
    proof {
        reveal_strlit("models/");
    }
    strip_prefix_or_keep(name, "models/")
}

/// The owner of a Bedrock inference profile from the ARN of its first
/// model: the vendor of the model id after the ARN's last `/` (the text
/// before the id's first `.`); the provider's own name where there is no ARN.
pub open spec fn profile_owner(model_arn: Option<Seq<char>>, provider: Seq<char>) -> Seq<char> {
    match model_arn {
        Some(arn) => before_char(after_last_char(arn, '/'), '.'),
        None => provider,
    }
}

/// The owner of a Bedrock inference profile.
pub fn bedrock_profile_owner(model_arn: Option<&str>, provider: &str) -> (r: String)
    ensures
        r@ == profile_owner(model_arn.deep_view(), provider@),
{
    match model_arn {
        Some(arn) => {
            let model_id = text_after_last_char(arn, '/');
            text_before_char(model_id.as_str(), '.')
        },
        None => String::from_str(provider),
    }
}

/// The URL of Google's `generateContent` for a model, with the API key.
pub fn google_generate_url(base_url: &str, model: &str, api_key: &str) -> (r: String)
    ensures
        r@ == base_url@ + "/models/"@ + model@ + ":generateContent?key="@ + api_key@,
{
    let mut r = concat3(base_url, "/models/", model);
    r.append(":generateContent?key=");
    r.append(api_key);
    r
}

/// The URL of Google's streaming `streamGenerateContent` (as server-sent
/// events) for a model, with the API key.
pub fn google_stream_url(base_url: &str, model: &str, api_key: &str) -> (r: String)
    ensures
        r@ == base_url@ + "/models/"@ + model@ + ":streamGenerateContent?alt=sse&key="@ + api_key@,
{
    let mut r = concat3(base_url, "/models/", model);
    r.append(":streamGenerateContent?alt=sse&key=");
    r.append(api_key);
    r
}

/// The URL of Google's model listing, with the API key.
pub fn google_models_url(base_url: &str, api_key: &str) -> (r: String)
    ensures
        r@ == base_url@ + "/models?key="@ + api_key@,
{
    concat3(base_url, "/models?key=", api_key)
}

/// The URL of an endpoint below an API's base URL: the base, then `path`
/// (`/messages`, `/messages/count_tokens`, `/chat/completions`, `/models`).
pub fn endpoint_url(base_url: &str, path: &str) -> (r: String)
    ensures
        r@ == base_url@ + path@,
{
    concat2(base_url, path)
}

} // verus!
