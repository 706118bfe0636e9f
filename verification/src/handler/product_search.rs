//! The product-search handler's decision logic.
//!
//! The search service and the result page are the surrounding runtime's
//! work; decided here is which page context a search request leads to.
//! The result records themselves are opaque to the decision.

use vstd::prelude::*;

use crate::error::{AppError, WebAppError};

verus! {

/// The product keyword-search request handler.
pub struct ProductSearchHandler;

/// What a search request leads to: the search page, rendered with one of
/// these contexts.
#[derive(Debug)]
pub enum SearchAction<R> {
    /// The form did not validate: show the errors.
    ShowErrors { errors: Vec<String> },
    /// Show the matching records.
    ShowResults { results: Vec<R> },
    /// Show a recoverable message (nothing found).
    ShowMessage { message: String },
}

impl ProductSearchHandler {
    /// Decides the search response. The search service's verdict is only
    /// at hand when the form validated; a recoverable failure becomes a
    /// page message and an internal fault propagates.
    pub fn result<R>(
        validation_errors: Option<Vec<String>>,
        searched: Option<Result<Vec<R>, AppError>>,
    ) -> (r: Result<SearchAction<R>, WebAppError>)
        requires
            searched is Some <==> validation_errors is None,
        ensures
            match validation_errors {
                Some(errors) => r matches Ok(SearchAction::ShowErrors { errors: es }) && es
                    == errors,
                None => match searched {
                    Some(Ok(results)) => r matches Ok(SearchAction::ShowResults { results: rs })
                        && rs == results,
                    Some(Err(AppError::InternalError(m))) => r matches Err(
                        WebAppError::InternalError(w),
                    ) && w == m,
                    Some(Err(AppError::SearchError(m))) => r matches Ok(SearchAction::ShowMessage {
                        message,
                    }) && message == m,
                    Some(Err(AppError::RegisterError(m))) => r matches Ok(
                        SearchAction::ShowMessage { message },
                    ) && message == m,
                    Some(Err(AppError::AuthenticateError(m))) => r matches Ok(
                        SearchAction::ShowMessage { message },
                    ) && message == m,
                    None => true,
                },
            },
    {
        if let Some(errors) = validation_errors {
            return Ok(SearchAction::ShowErrors { errors });
        }
        match searched {
            Some(Ok(results)) => Ok(SearchAction::ShowResults { results }),
            Some(Err(error)) => match WebAppError::error_message(error) {
                Ok(message) => Ok(SearchAction::ShowMessage { message }),
                Err(w) => Err(w),
            },
            None => unreached(),
        }
    }
}

} // verus!
