//! The application error and its HTTP rendering: every error kind has a
//! status code and a stable error code.

use vstd::prelude::*;

verus! {

/// Errors of the application.
#[derive(Debug, Clone)]
pub enum AppError {
    NotFound(String),
    Conflict(String),
    BadRequest(String),
    Unauthorized,
    Forbidden,
    Sandbox(String),
    Agent(String),
    SecurityScan(String),
    Deployment(String),
    Internal(String),
}

/// An application error on its way to becoming an HTTP response.
#[derive(Debug)]
pub struct ApiError(pub AppError);

/// The HTTP status and the error code for an error kind.
pub open spec fn spec_status_and_code(e: AppError) -> (u16, Seq<char>) {
    match e {
        AppError::NotFound(_) => (404, "NOT_FOUND"@),
        AppError::Conflict(_) => (409, "CONFLICT"@),
        AppError::BadRequest(_) => (400, "BAD_REQUEST"@),
        AppError::Unauthorized => (401, "UNAUTHORIZED"@),
        AppError::Forbidden => (403, "FORBIDDEN"@),
        AppError::Sandbox(_) => (500, "SANDBOX_ERROR"@),
        AppError::Agent(_) => (500, "AGENT_ERROR"@),
        AppError::SecurityScan(_) => (422, "SECURITY_SCAN_FAIL"@),
        AppError::Deployment(_) => (500, "DEPLOYMENT_ERROR"@),
        AppError::Internal(_) => (500, "INTERNAL_ERROR"@),
    }
}

/// The error was caused by the request (a 4xx status belongs to it).
pub open spec fn is_client_error(e: AppError) -> bool {
    match e {
        AppError::NotFound(_) | AppError::Conflict(_) | AppError::BadRequest(_) | AppError::Unauthorized
        | AppError::Forbidden | AppError::SecurityScan(_) => true,
        _ => false,
    }
}

impl ApiError {
    /// Wraps an application error.
    pub fn from(e: AppError) -> (r: Self)
        ensures
            r.0 == e,
    {
        ApiError(e)
    }

    /// The HTTP status and the error code of the response.
    pub fn status_and_code(&self) -> (r: (u16, &'static str))
        ensures
            (r.0, r.1@) == spec_status_and_code(self.0),
    {
        match &self.0 {
            AppError::NotFound(_) => (404, "NOT_FOUND"),
            AppError::Conflict(_) => (409, "CONFLICT"),
            AppError::BadRequest(_) => (400, "BAD_REQUEST"),
            AppError::Unauthorized => (401, "UNAUTHORIZED"),
            AppError::Forbidden => (403, "FORBIDDEN"),
            AppError::Sandbox(_) => (500, "SANDBOX_ERROR"),
            AppError::Agent(_) => (500, "AGENT_ERROR"),
            AppError::SecurityScan(_) => (422, "SECURITY_SCAN_FAIL"),
            AppError::Deployment(_) => (500, "DEPLOYMENT_ERROR"),
            AppError::Internal(_) => (500, "INTERNAL_ERROR"),
        }
    }
}

impl AppError {
    /// The text the error carries, for the kinds that carry one.
    pub fn detail(&self) -> (d: Option<&str>)
        ensures
            d is None <==> (*self is Unauthorized || *self is Forbidden),
    {
        match self {
            AppError::NotFound(s) | AppError::Conflict(s) | AppError::BadRequest(s) | AppError::Sandbox(s)
            | AppError::Agent(s) | AppError::SecurityScan(s) | AppError::Deployment(s) | AppError::Internal(
                s,
            ) => Some(s.as_str()),
            AppError::Unauthorized | AppError::Forbidden => None,
        }
    }
}

/// Errors the request caused answer with a 4xx status, all others with 500.
pub proof fn law_status_classes(e: AppError)
    ensures
        is_client_error(e) ==> 400 <= spec_status_and_code(e).0 < 500,
        !is_client_error(e) ==> spec_status_and_code(e).0 == 500,
{
}

} // verus!
