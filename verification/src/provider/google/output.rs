//! Gemini content types shared by requests and responses.
use vstd::prelude::*;

use crate::json::{Json, JsonValue};

verus! {

/// The author of a Gemini content entry.
#[derive(Debug, Clone, Copy, PartialEq, Eq, Structural)]
pub enum GoogleRole {
    User,
    Model,
}

/// A call of a function by the model.
#[derive(Debug)]
pub struct GoogleFunctionCall {
    pub name: String,
    pub args: JsonValue,
    pub thought_signature: Option<String>,
}

/// What a function call gave back.
#[derive(Debug)]
pub struct GoogleFunctionResponse {
    pub name: String,
    pub response: JsonValue,
}

/// One part of a content entry: text, a function call or a function response.
#[derive(Debug)]
pub struct GooglePart {
    pub text: Option<String>,
    pub function_call: Option<GoogleFunctionCall>,
    pub function_response: Option<GoogleFunctionResponse>,
}

pub struct GPart {
    pub text: Option<Seq<char>>,
    /// Name and arguments of the call.
    pub function_call: Option<(Seq<char>, Json)>,
    /// Name and body of the response.
    pub function_response: Option<(Seq<char>, Json)>,
}

impl DeepView for GooglePart {
    type V = GPart;

    open spec fn deep_view(&self) -> GPart {
        GPart {
            text: self.text.deep_view(),
            function_call: match &self.function_call {
                Some(c) => Some((c.name@, c.args.deep_view())),
                None => None,
            },
            function_response: match &self.function_response {
                Some(r) => Some((r.name@, r.response.deep_view())),
                None => None,
            },
        }
    }
}

/// A content entry of a conversation.
#[derive(Debug)]
pub struct GoogleContent {
    pub parts: Vec<GooglePart>,
    pub role: GoogleRole,
}

pub struct GContent {
    pub parts: Seq<GPart>,
    pub role: GoogleRole,
}

impl DeepView for GoogleContent {
    type V = GContent;

    open spec fn deep_view(&self) -> GContent {
        GContent { parts: self.parts.deep_view(), role: self.role }
    }
}

} // verus!
