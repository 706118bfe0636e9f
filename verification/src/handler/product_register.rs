//! The product-registration handler's decision logic.
//!
//! The handler alternates outside work (session reads, validation, the
//! persistence service) with decisions; the surrounding runtime performs
//! the outside work and hands the results here, and each function says
//! exactly which page action follows. The category and product records
//! themselves are opaque to these decisions.

use vstd::prelude::*;

use crate::error::{AppError, WebAppError};

verus! {

/// The product registration request handler.
pub struct ProductRegisterHandler;

/// What the input-form request leads to.
#[derive(Debug)]
pub enum EnterAction<C> {
    /// Show the input form over these categories; `store_in_session` says
    /// whether they were freshly fetched and are to be cached.
    ShowForm { categories: Vec<C>, store_in_session: bool },
}

/// What the registration request leads to.
#[derive(Debug)]
pub enum CompleteAction<C, P> {
    /// No cached categories: send the client back to the input form.
    RedirectEnter,
    /// Show the input form again, with validation errors for the page
    /// context.
    ShowErrors { categories: Vec<C>, errors: Vec<String> },
    /// Show the input form again, with a recoverable message (the product
    /// already exists, or another domain rule failed).
    ShowMessage { categories: Vec<C>, message: String },
    /// Store the new product in the session and redirect to the finish
    /// page.
    StoreAndFinish { product: P },
}

/// What the finish-page request leads to.
#[derive(Debug)]
pub enum FinishAction<P> {
    /// Show the finish page for the product just registered, and drop it
    /// from the session.
    ShowFinish { product: P },
    /// Nothing was registered in this session: send the client back to
    /// the input form.
    RedirectEnter,
}

impl ProductRegisterHandler {
    /// Decides the input-form response: cached categories are shown as
    /// they are; otherwise the freshly fetched ones are shown and cached,
    /// and a fetch fault is an internal failure.
    pub fn enter<C>(
        cached: Option<Vec<C>>,
        fetched: Option<Result<Vec<C>, String>>,
    ) -> (r: Result<EnterAction<C>, WebAppError>)
        requires
            cached is None <==> fetched is Some,
        ensures
            match cached {
                Some(categories) => r matches Ok(EnterAction::ShowForm {
                    categories: cs,
                    store_in_session,
                }) && cs == categories && !store_in_session,
                None => match fetched {
                    Some(Ok(categories)) => r matches Ok(EnterAction::ShowForm {
                        categories: cs,
                        store_in_session,
                    }) && cs == categories && store_in_session,
                    Some(Err(m)) => r matches Err(WebAppError::InternalError(w)) && w == m,
                    None => true,
                },
            },
    {
        match cached {
            Some(categories) => Ok(EnterAction::ShowForm { categories, store_in_session: false }),
            None => match fetched {
                Some(Ok(categories)) => Ok(
                    EnterAction::ShowForm { categories, store_in_session: true },
                ),
                Some(Err(m)) => Err(WebAppError::InternalError(m)),
                None => unreached(),
            },
        }
    }

    /// Decides the registration response. The persistence result is only
    /// at hand when the earlier gates passed: categories were cached and
    /// the form validated.
    pub fn complete<C, P>(
        cached: Option<Vec<C>>,
        validation_errors: Option<Vec<String>>,
        registered: Option<Result<P, AppError>>,
    ) -> (r: Result<CompleteAction<C, P>, WebAppError>)
        requires
            registered is Some <==> (cached is Some && validation_errors is None),
        ensures
            match cached {
                None => r matches Ok(CompleteAction::RedirectEnter),
                Some(categories) => match validation_errors {
                    Some(errors) => r matches Ok(CompleteAction::ShowErrors {
                        categories: cs,
                        errors: es,
                    }) && cs == categories && es == errors,
                    None => match registered {
                        Some(Ok(product)) => r matches Ok(CompleteAction::StoreAndFinish {
                            product: p,
                        }) && p == product,
                        Some(Err(AppError::InternalError(m))) => r matches Err(
                            WebAppError::InternalError(w),
                        ) && w == m,
                        Some(Err(AppError::RegisterError(m))) => r matches Ok(
                            CompleteAction::ShowMessage { categories: cs, message },
                        ) && cs == categories && message == m,
                        Some(Err(AppError::AuthenticateError(m))) => r matches Ok(
                            CompleteAction::ShowMessage { categories: cs, message },
                        ) && cs == categories && message == m,
                        Some(Err(AppError::SearchError(m))) => r matches Ok(
                            CompleteAction::ShowMessage { categories: cs, message },
                        ) && cs == categories && message == m,
                        None => true,
                    },
                },
            },
    {
        let categories = match cached {
            Some(categories) => categories,
            None => {
                return Ok(CompleteAction::RedirectEnter);
            },
        };
        if let Some(errors) = validation_errors {
            return Ok(CompleteAction::ShowErrors { categories, errors });
        }
        match registered {
            Some(Ok(product)) => Ok(CompleteAction::StoreAndFinish { product }),
            Some(Err(error)) => match WebAppError::error_message(error) {
                Ok(message) => Ok(CompleteAction::ShowMessage { categories, message }),
                Err(w) => Err(w),
            },
            None => unreached(),
        }
    }

    /// Decides the finish-page response from what the session holds.
    pub fn finish<P>(stored: Option<P>) -> (r: FinishAction<P>)
        ensures
            match stored {
                Some(product) => r matches FinishAction::ShowFinish { product: p } && p == product,
                None => r matches FinishAction::RedirectEnter,
            },
    {
        match stored {
            Some(product) => FinishAction::ShowFinish { product },
            None => FinishAction::RedirectEnter,
        }
    }
}

} // verus!
