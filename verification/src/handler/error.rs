//! The handler layer's error type and its HTTP mapping.
//!
//! Handlers classify every failure as either a missing/failed
//! authentication or an internal fault, and answer with a status code and
//! a redirect; no raw fault ever reaches the client.

use vstd::prelude::*;

use crate::error::AppError;

verus! {

/// A handler failure: an unauthenticated request, or a persistence or
/// domain-rule fault.
#[derive(Debug)]
pub enum WebAppError {
    NotAuthenticateError(String),
    InternalError(String),
}

impl WebAppError {
    /// The recoverable message of a collaborator failure, surfaced in the
    /// page; an internal failure is widened and propagated instead.
    pub fn from(error: AppError) -> (r: Result<String, WebAppError>)
        ensures
            match error {
                AppError::InternalError(m) => r matches Err(WebAppError::InternalError(w)) && w
                    == m,
                AppError::SearchError(m) => r matches Ok(w) && w == m,
                AppError::RegisterError(m) => r matches Ok(w) && w == m,
                AppError::AuthenticateError(m) => r matches Ok(w) && w == m,
            },
    {
        match error {
            AppError::SearchError(m) => Ok(m),
            AppError::RegisterError(m) => Ok(m),
            AppError::AuthenticateError(m) => Ok(m),
            AppError::InternalError(m) => Err(WebAppError::InternalError(m)),
        }
    }

    /// The HTTP status of the error response: an internal fault is a
    /// server error, a failed authentication is unauthorized.
    pub fn status_code(&self) -> (r: u16)
        ensures
            match self {
                WebAppError::InternalError(_) => r == 500,
                WebAppError::NotAuthenticateError(_) => r == 401,
            },
    {
        match self {
            WebAppError::InternalError(_) => 500,
            WebAppError::NotAuthenticateError(_) => 401,
        }
    }

    /// The redirect target of the error response: an internal fault goes
    /// to the error page, a failed authentication back to login.
    pub fn redirect_path(&self) -> (r: &'static str)
        ensures
            match self {
                WebAppError::InternalError(_) => r@ == "/sample_web/error"@,
                WebAppError::NotAuthenticateError(_) => r@ == "/sample_web/login"@,
            },
    {
        match self {
            WebAppError::InternalError(_) => "/sample_web/error",
            WebAppError::NotAuthenticateError(_) => "/sample_web/login",
        }
    }

    /// The underlying reason, for the log; never sent to the client.
    pub fn message(&self) -> (r: &String)
        ensures
            match self {
                WebAppError::InternalError(m) => r == m,
                WebAppError::NotAuthenticateError(m) => r == m,
            },
    {
        match self {
            WebAppError::InternalError(m) => m,
            WebAppError::NotAuthenticateError(m) => m,
        }
    }
}

} // verus!
