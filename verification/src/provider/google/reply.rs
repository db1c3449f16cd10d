//! Google Gemini: what a `generateContent` reply comes to.
use vstd::prelude::*;

use crate::error::{ErrorModel, LlmError};
use crate::messages::unified::{ResponseModel, UnifiedResponse};

verus! {

/// The response a completion answers with: the reply's, under the model name
/// the request was made for.
pub open spec fn completion_response(response: ResponseModel, model: Seq<char>) -> ResponseModel {
    ResponseModel { model, ..response }
}

/// The result of a completion whose reply held `candidates` candidates and
/// converts to `response`: an internal error, with no message, when there is
/// no candidate; else the response, named after the `model` the request
/// asked for.
pub fn completion_result(candidates: usize, response: UnifiedResponse, model: String) -> (r: Result<
    UnifiedResponse,
    LlmError,
>)
    ensures
        r is Err <==> candidates == 0,
        r matches Err(e) ==> e@ == ErrorModel::InternalError(None),
        r matches Ok(u) ==> u.deep_view() == completion_response(response.deep_view(), model@),
{
    if candidates == 0 {
        Err(LlmError::InternalError(None))
    } else {
        let mut response = response;
        response.model = model;
        Ok(response)
    }
}

} // verus!
