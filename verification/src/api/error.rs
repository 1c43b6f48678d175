use vstd::prelude::*;
use vstd::string::StringExecFns;

use crate::rate_limiter::policy::PolicyError;

verus! {

/// The JSON body of an error reply.
#[derive(Debug)]
pub struct ErrorBody {
    pub message: String,
}

/// Why a request was refused.
#[derive(Debug)]
pub enum ApiError {
    BadRequest(String),
    Unauthorized,
    Forbidden(String),
    PolicyNotFound,
    Internal(anyhow::Error),
}

/// An error reply: HTTP status code and body.
#[derive(Debug)]
pub struct ErrorReply {
    pub status: u16,
    pub body: ErrorBody,
}

/// The status code that answers each error.
pub open spec fn error_status(e: ApiError) -> u16 {
    match e {
        ApiError::BadRequest(_) => 400,
        ApiError::Unauthorized => 401,
        ApiError::Forbidden(_) => 403,
        ApiError::PolicyNotFound => 404,
        ApiError::Internal(_) => 500,
    }
}

/// The message that answers each error: the carried text for bad requests
/// and refusals, a fixed text otherwise. An internal error's cause is not
/// shown to the caller.
pub open spec fn error_message(e: ApiError) -> Seq<char> {
    match e {
        ApiError::BadRequest(msg) => msg@,
        ApiError::Unauthorized => "unauthorized"@,
        ApiError::Forbidden(msg) => msg@,
        ApiError::PolicyNotFound => "policy not found"@,
        ApiError::Internal(_) => "internal server error"@,
    }
}

impl ApiError {
    /// The reply that reports this error.
    pub fn into_response(self) -> (reply: ErrorReply)
        ensures
            reply.status == error_status(self),
            reply.body.message@ == error_message(self),
    {
        match self {
            ApiError::BadRequest(msg) => ErrorReply { status: 400, body: ErrorBody { message: msg } },
            ApiError::Unauthorized => ErrorReply {
                status: 401,
                body: ErrorBody { message: String::from_str("unauthorized") },
            },
            ApiError::Forbidden(msg) => ErrorReply { status: 403, body: ErrorBody { message: msg } },
            ApiError::PolicyNotFound => ErrorReply {
                status: 404,
                body: ErrorBody { message: String::from_str("policy not found") },
            },
            ApiError::Internal(_) => ErrorReply {
                status: 500,
                body: ErrorBody { message: String::from_str("internal server error") },
            },
        }
    }

    /// The error that a failed store or limiter operation becomes: a missing
    /// policy (`is_policy_error`, the failure being a `PolicyError`) is
    /// reported as such, anything else as an internal error that keeps its
    /// cause.
    pub fn from_failure(err: anyhow::Error, is_policy_error: bool) -> (e: ApiError)
        ensures
            is_policy_error ==> e is PolicyNotFound,
            !is_policy_error ==> e == ApiError::Internal(err),
    {
        if is_policy_error {
            ApiError::PolicyNotFound
        } else {
            ApiError::Internal(err)
        }
    }
}

impl From<PolicyError> for ApiError {
    fn from(err: PolicyError) -> (e: ApiError) {
        match err {
            PolicyError::NotFound => ApiError::PolicyNotFound,
        }
    }
}

impl vstd::std_specs::convert::FromSpecImpl<PolicyError> for ApiError {
    open spec fn obeys_from_spec() -> bool {
        true
    }

    open spec fn from_spec(err: PolicyError) -> ApiError {
        match err {
            PolicyError::NotFound => ApiError::PolicyNotFound,
        }
    }
}

/// Every refusal is answered with a client-error or server-error status,
/// the server-error status being kept for internal failures; a missing
/// policy, however it arises, is answered 404 `policy not found`.
pub proof fn law_error_replies(e: ApiError, p: PolicyError)
    ensures
        400 <= error_status(e) <= 500,
        error_status(e) == 500 <==> e is Internal,
        error_status(<ApiError as vstd::std_specs::convert::FromSpec<PolicyError>>::from_spec(p)) == 404,
        error_message(<ApiError as vstd::std_specs::convert::FromSpec<PolicyError>>::from_spec(p))
            == "policy not found"@,
        error_status(e) == 400 <==> e is BadRequest,
        error_status(e) == 401 <==> e is Unauthorized,
        error_status(e) == 403 <==> e is Forbidden,
        error_status(e) == 404 <==> e is PolicyNotFound,
        e matches ApiError::BadRequest(m) ==> error_message(e) == m@,
        e matches ApiError::Forbidden(m) ==> error_message(e) == m@,
{
}

} // verus!
