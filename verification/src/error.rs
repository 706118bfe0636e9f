//! The application's error taxonomy and its mapping to user-facing
//! outcomes.
//!
//! Failures fall into two categories: internal faults, answered with a
//! redirect to the generic error page, and authorization failures, answered
//! with a redirect to the login page. Recoverable collaborator failures are
//! surfaced as page messages instead.

use vstd::prelude::*;

verus! {

/// A collaborator's classified failure: what the application services
/// (authentication, registration, search) report back to a handler.
#[derive(Debug)]
pub enum AppError {
    InternalError(String),
    AuthenticateError(String),
    RegisterError(String),
    SearchError(String),
}

/// The application's own error type. `InternalError` is a persistence or
/// system fault that must never leak detail to the client;
/// `AuthorizationError` is a missing, invalid or expired credential.
#[derive(Debug)]
pub enum WebAppError {
    InternalError(String),
    AuthorizationError(String),
}

impl WebAppError {
    /// The recoverable message of a collaborator failure, surfaced in the
    /// page; an internal failure is widened to `WebAppError::InternalError`
    /// and propagated instead.
    pub fn error_message(error: AppError) -> (r: Result<String, WebAppError>)
        ensures
            match error {
                AppError::InternalError(m) => r matches Err(WebAppError::InternalError(w)) && w
                    == m,
                AppError::AuthenticateError(m) => r matches Ok(w) && w == m,
                AppError::RegisterError(m) => r matches Ok(w) && w == m,
                AppError::SearchError(m) => r matches Ok(w) && w == m,
            },
    {
        match error {
            AppError::InternalError(m) => Err(WebAppError::InternalError(m)),
            AppError::AuthenticateError(m) => Ok(m),
            AppError::RegisterError(m) => Ok(m),
            AppError::SearchError(m) => Ok(m),
        }
    }

    /// The redirect target of the error response: an internal failure goes
    /// to the error page, an authorization failure back to login. Exactly
    /// one of the two is produced for every failing operation.
    pub fn redirect_path(&self) -> (r: &'static str)
        ensures
            r@ == redirect_path_spec(*self),
    {
        match self {
            WebAppError::InternalError(_) => "/web_sample/error",
            WebAppError::AuthorizationError(_) => "/web_sample/login",
        }
    }

    /// The underlying reason, for the log; never sent to the client.
    pub fn message(&self) -> (r: &String)
        ensures
            match self {
                WebAppError::InternalError(m) => r == m,
                WebAppError::AuthorizationError(m) => r == m,
            },
    {
        match self {
            WebAppError::InternalError(m) => m,
            WebAppError::AuthorizationError(m) => m,
        }
    }
}

/// Where each failure category redirects the client. The target depends
/// only on the category, never on the carried reason: all authorization
/// failures look alike from outside.
pub open spec fn redirect_path_spec(e: WebAppError) -> Seq<char> {
    match e {
        WebAppError::InternalError(_) => "/web_sample/error"@,
        WebAppError::AuthorizationError(_) => "/web_sample/login"@,
    }
}

} // verus!
