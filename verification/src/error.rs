//! Errors of the LLM layer, and the rules that turn a provider's failure
//! into one of them.
use vstd::prelude::*;
use vstd::string::StringExecFns;

use crate::text::str_eq;

verus! {

/// An error that a provider call or a conversion reports.
#[derive(Debug, Clone)]
pub enum LlmError {
    /// The credentials were refused (HTTP 401).
    AuthenticationFailed(String),
    /// The provider could not be reached.
    ConnectionError(String),
    /// The account has no quota left (HTTP 403).
    InsufficientQuota(String),
    /// Something failed on this side or inside the provider (HTTP 500).
    InternalError(Option<String>),
    /// The request was malformed (HTTP 400).
    InvalidRequest(String),
    /// The model does not exist (HTTP 404).
    ModelNotFound(String),
    /// Any other failure status of the provider.
    ProviderApiError { status: u16, message: String },
    /// Too many requests (HTTP 429).
    RateLimitExceeded { message: String },
}

/// An error as a mathematical value: its variant and its texts.
pub enum ErrorModel {
    AuthenticationFailed(Seq<char>),
    ConnectionError(Seq<char>),
    InsufficientQuota(Seq<char>),
    InternalError(Option<Seq<char>>),
    InvalidRequest(Seq<char>),
    ModelNotFound(Seq<char>),
    ProviderApiError { status: u16, message: Seq<char> },
    RateLimitExceeded { message: Seq<char> },
}

impl View for LlmError {
    type V = ErrorModel;

    open spec fn view(&self) -> ErrorModel {
        match self {
            LlmError::AuthenticationFailed(m) => ErrorModel::AuthenticationFailed(m@),
            LlmError::ConnectionError(m) => ErrorModel::ConnectionError(m@),
            LlmError::InsufficientQuota(m) => ErrorModel::InsufficientQuota(m@),
            LlmError::InternalError(m) => ErrorModel::InternalError(
                match m {
                    Some(t) => Some(t@),
                    None => None,
                },
            ),
            LlmError::InvalidRequest(m) => ErrorModel::InvalidRequest(m@),
            LlmError::ModelNotFound(m) => ErrorModel::ModelNotFound(m@),
            LlmError::ProviderApiError { status, message } => ErrorModel::ProviderApiError {
                status: *status,
                message: message@,
            },
            LlmError::RateLimitExceeded { message } => ErrorModel::RateLimitExceeded {
                message: message@,
            },
        }
    }
}

/// The error for a failure status of a provider's HTTP API, with the body
/// text of the reply: 401, 403, 404, 429, 400 and 500 have variants of their
/// own, every other status is kept in `ProviderApiError`.
pub open spec fn status_error(status: u16, text: Seq<char>) -> ErrorModel {
    if status == 401 {
        ErrorModel::AuthenticationFailed(text)
    } else if status == 403 {
        ErrorModel::InsufficientQuota(text)
    } else if status == 404 {
        ErrorModel::ModelNotFound(text)
    } else if status == 429 {
        ErrorModel::RateLimitExceeded { message: text }
    } else if status == 400 {
        ErrorModel::InvalidRequest(text)
    } else if status == 500 {
        ErrorModel::InternalError(Some(text))
    } else {
        ErrorModel::ProviderApiError { status, message: text }
    }
}

/// The message of a Bedrock service error: its own, or `Unknown error`.
pub open spec fn service_message(message: Option<Seq<char>>) -> Seq<char> {
    match message {
        Some(m) => m,
        None => "Unknown error"@,
    }
}

/// The error for a Bedrock service error with the given error code.
pub open spec fn service_error(code: Option<Seq<char>>, message: Seq<char>) -> ErrorModel {
    match code {
        Some(c) => if c == "AccessDeniedException"@ {
            ErrorModel::AuthenticationFailed(message)
        } else if c == "ResourceNotFoundException"@ {
            ErrorModel::ModelNotFound(message)
        } else if c == "ThrottlingException"@ {
            ErrorModel::RateLimitExceeded { message }
        } else if c == "ValidationException"@ {
            ErrorModel::InvalidRequest(message)
        } else if c == "ModelTimeoutException"@ {
            ErrorModel::ProviderApiError { status: 504, message }
        } else if c == "ServiceUnavailableException"@ {
            ErrorModel::ProviderApiError { status: 503, message }
        } else if c == "InternalServerException"@ {
            ErrorModel::InternalError(Some(message))
        } else {
            ErrorModel::ProviderApiError { status: 500, message }
        },
        None => ErrorModel::ProviderApiError { status: 500, message },
    }
}

impl LlmError {
    /// The error for a reply whose status is not a success, with the reply's
    /// body text; the providers of HTTP APIs all map statuses this way.
    pub fn from_status(status: u16, text: String) -> (r: LlmError)
        ensures
            r@ == status_error(status, text@),
    {
        if status == 401 {
            LlmError::AuthenticationFailed(text)
        } else if status == 403 {
            LlmError::InsufficientQuota(text)
        } else if status == 404 {
            LlmError::ModelNotFound(text)
        } else if status == 429 {
            LlmError::RateLimitExceeded { message: text }
        } else if status == 400 {
            LlmError::InvalidRequest(text)
        } else if status == 500 {
            LlmError::InternalError(Some(text))
        } else {
            LlmError::ProviderApiError { status, message: text }
        }
    }

    /// The error for a service error that Bedrock answered, from its error
    /// code and its message (when it has them).
    pub fn from_bedrock_service_error(code: Option<&str>, message: Option<&str>) -> (r: LlmError)
        ensures
            r@ == service_error(
                match code {
                    Some(c) => Some(c@),
                    None => None,
                },
                service_message(
                    match message {
                        Some(m) => Some(m@),
                        None => None,
                    },
                ),
            ),
    {
        let message = match message {
            Some(m) => String::from_str(m),
            None => String::from_str("Unknown error"),
        };
        proof {
            reveal_strlit("Unknown error");
            reveal_strlit("AccessDeniedException");
            reveal_strlit("ResourceNotFoundException");
            reveal_strlit("ThrottlingException");
            reveal_strlit("ValidationException");
            reveal_strlit("ModelTimeoutException");
            reveal_strlit("ServiceUnavailableException");
            reveal_strlit("InternalServerException");
        }
        match code {
            Some(c) => if str_eq(c, "AccessDeniedException") {
                LlmError::AuthenticationFailed(message)
            } else if str_eq(c, "ResourceNotFoundException") {
                LlmError::ModelNotFound(message)
            } else if str_eq(c, "ThrottlingException") {
                LlmError::RateLimitExceeded { message }
            } else if str_eq(c, "ValidationException") {
                LlmError::InvalidRequest(message)
            } else if str_eq(c, "ModelTimeoutException") {
                LlmError::ProviderApiError { status: 504, message }
            } else if str_eq(c, "ServiceUnavailableException") {
                LlmError::ProviderApiError { status: 503, message }
            } else if str_eq(c, "InternalServerException") {
                LlmError::InternalError(Some(message))
            } else {
                LlmError::ProviderApiError { status: 500, message }
            },
            None => LlmError::ProviderApiError { status: 500, message },
        }
    }
}

} // verus!
