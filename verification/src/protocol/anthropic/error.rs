//! The error payload of the Anthropic API, which the proxy answers with.
use vstd::prelude::*;
use vstd::string::StringExecFns;

use crate::protocol::unknown_fields::UnknownFields;

verus! {

pub const ERROR_TYPE_INVALID_REQUEST: &'static str = "invalid_request_error";
pub const ERROR_TYPE_AUTHENTICATION: &'static str = "authentication_error";
pub const ERROR_TYPE_BILLING: &'static str = "billing_error";
pub const ERROR_TYPE_PERMISSION: &'static str = "permission_error";
pub const ERROR_TYPE_NOT_FOUND: &'static str = "not_found_error";
pub const ERROR_TYPE_RATE_LIMIT: &'static str = "rate_limit_error";
pub const ERROR_TYPE_TIMEOUT: &'static str = "timeout_error";
pub const ERROR_TYPE_API: &'static str = "api_error";
pub const ERROR_TYPE_OVERLOADED: &'static str = "overloaded_error";

/// An error reply: the request's id where there is one, and the error.
#[derive(Debug)]
pub struct ErrorResponse {
    pub request_id: Option<String>,
    pub error: Error,
}

/// The error payload of a 4XX or 5XX reply.
#[derive(Debug)]
pub struct Error {
    /// The error's type (`type` on the wire), such as `invalid_request_error`.
    pub error_type: String,
    /// A human-readable explanation.
    pub message: String,
    /// Members of the payload that the library does not model.
    pub unknown_fields: UnknownFields,
}

/// The kinds of error that the API documents, by their wire name.
pub enum ErrorKind {
    InvalidRequest,
    Authentication,
    Billing,
    Permission,
    NotFound,
    RateLimit,
    Timeout,
    Api,
    Overloaded,
}

/// The wire name of each kind of error.
pub open spec fn kind_type(k: ErrorKind) -> Seq<char> {
    match k {
        ErrorKind::InvalidRequest => "invalid_request_error"@,
        ErrorKind::Authentication => "authentication_error"@,
        ErrorKind::Billing => "billing_error"@,
        ErrorKind::Permission => "permission_error"@,
        ErrorKind::NotFound => "not_found_error"@,
        ErrorKind::RateLimit => "rate_limit_error"@,
        ErrorKind::Timeout => "timeout_error"@,
        ErrorKind::Api => "api_error"@,
        ErrorKind::Overloaded => "overloaded_error"@,
    }
}

impl Error {
    /// An error of kind `k` with `message` and no other members.
    pub open spec fn is_made(&self, k: ErrorKind, message: Seq<char>) -> bool {
        &&& self.error_type@ == kind_type(k)
        &&& self.message@ == message
        &&& self.unknown_fields.members().len() == 0
    }

    fn new(error_type: &str, message: String) -> (r: Error)
        ensures
            r.error_type@ == error_type@,
            r.message@ == message@,
            r.unknown_fields.members().len() == 0,
    {
        Error { error_type: String::from_str(error_type), message, unknown_fields: UnknownFields::empty() }
    }

    pub fn invalid_request_error(message: String) -> (r: Error)
        ensures
            r.is_made(ErrorKind::InvalidRequest, message@),
    {
        proof {
            reveal_strlit("invalid_request_error");
        }
        Self::new(ERROR_TYPE_INVALID_REQUEST, message)
    }

    pub fn authentication_error(message: String) -> (r: Error)
        ensures
            r.is_made(ErrorKind::Authentication, message@),
    {
        proof {
            reveal_strlit("authentication_error");
        }
        Self::new(ERROR_TYPE_AUTHENTICATION, message)
    }

    pub fn billing_error(message: String) -> (r: Error)
        ensures
            r.is_made(ErrorKind::Billing, message@),
    {
        proof {
            reveal_strlit("billing_error");
        }
        Self::new(ERROR_TYPE_BILLING, message)
    }

    pub fn permission_error(message: String) -> (r: Error)
        ensures
            r.is_made(ErrorKind::Permission, message@),
    {
        proof {
            reveal_strlit("permission_error");
        }
        Self::new(ERROR_TYPE_PERMISSION, message)
    }

    pub fn not_found_error(message: String) -> (r: Error)
        ensures
            r.is_made(ErrorKind::NotFound, message@),
    {
        proof {
            reveal_strlit("not_found_error");
        }
        Self::new(ERROR_TYPE_NOT_FOUND, message)
    }

    pub fn rate_limit_error(message: String) -> (r: Error)
        ensures
            r.is_made(ErrorKind::RateLimit, message@),
    {
        proof {
            reveal_strlit("rate_limit_error");
        }
        Self::new(ERROR_TYPE_RATE_LIMIT, message)
    }

    pub fn timeout_error(message: String) -> (r: Error)
        ensures
            r.is_made(ErrorKind::Timeout, message@),
    {
        proof {
            reveal_strlit("timeout_error");
        }
        Self::new(ERROR_TYPE_TIMEOUT, message)
    }

    pub fn api_error(message: String) -> (r: Error)
        ensures
            r.is_made(ErrorKind::Api, message@),
    {
        proof {
            reveal_strlit("api_error");
        }
        Self::new(ERROR_TYPE_API, message)
    }

    pub fn overloaded_error(message: String) -> (r: Error)
        ensures
            r.is_made(ErrorKind::Overloaded, message@),
    {
        proof {
            reveal_strlit("overloaded_error");
        }
        Self::new(ERROR_TYPE_OVERLOADED, message)
    }

    /// The error's type, which telemetry records.
    pub fn error_type(&self) -> (r: &str)
        ensures
            r@ == self.error_type@,
    {
        self.error_type.as_str()
    }
}

} // verus!
