//! The login handler's decision logic.
//!
//! Rendering the login page and running the authentication service are the
//! surrounding runtime's work; what is decided here is what a login
//! attempt leads to: a fresh credential cookie and a redirect to the menu,
//! the login page again with a recoverable message, or a propagated
//! internal failure.

use vstd::prelude::*;

use crate::error::{AppError, WebAppError};
use crate::jwt::{
    issue_cookie, jwt_cookie_key_spec, subject, token_of, ClaimsView, UserDto, WebClaims,
    WebCookie, WebJwt, TOKEN_TTL_SECONDS,
};

verus! {

/// The login request handler.
pub struct AuthenticateHandler;

/// What a login attempt leads to.
#[derive(Debug)]
pub enum LoginAction {
    /// Render the login page again, with a recoverable message for the
    /// page context.
    ShowLogin { message: String },
    /// Set the credential cookie and redirect to the menu.
    GrantAccess { cookie: WebCookie },
}

impl AuthenticateHandler {
    /// Decides the outcome of a login attempt from the authentication
    /// service's verdict. A verified principal gets a token minted from
    /// the process clock, carried in a cookie whose lifetime equals the
    /// claims TTL; a recoverable failure re-renders the login page; an
    /// internal failure propagates.
    pub fn authenticate(jwt: &WebJwt, auth: Result<UserDto, AppError>) -> (r: Result<
        LoginAction,
        WebAppError,
    >)
        ensures
            match auth {
                Ok(user) => r matches Ok(LoginAction::GrantAccess { cookie })
                    && cookie.name@ == jwt_cookie_key_spec() && cookie.max_age_seconds
                    == TOKEN_TTL_SECONDS && cookie.http_only && cookie.secure && (exists|
                    c: ClaimsView,
                |
                    #![auto]
                    cookie.value@ == token_of(jwt.signing_key(), c) && c.exp == c.iat
                        + TOKEN_TTL_SECONDS && c.sub == subject() && c.user_id == user.user_id@
                        && c.user_name == user.user_name@),
                Err(AppError::InternalError(m)) => r matches Err(WebAppError::InternalError(w))
                    && w == m,
                Err(AppError::AuthenticateError(m)) => r matches Ok(LoginAction::ShowLogin {
                    message,
                }) && message == m,
                Err(AppError::RegisterError(m)) => r matches Ok(LoginAction::ShowLogin { message })
                    && message == m,
                Err(AppError::SearchError(m)) => r matches Ok(LoginAction::ShowLogin { message })
                    && message == m,
            },
    {
        match auth {
            Ok(user) => {
                let claims = WebClaims::generate(&user);
                let token = jwt.encode(&claims);
                let cookie = issue_cookie(token);
                proof {
                    assert(cookie.value@ == token_of(jwt.signing_key(), claims@) && claims@.exp
                        == claims@.iat + TOKEN_TTL_SECONDS && claims@.sub == subject()
                        && claims@.user_id == user.user_id@ && claims@.user_name
                        == user.user_name@);
                }
                Ok(LoginAction::GrantAccess { cookie })
            },
            Err(error) => match WebAppError::error_message(error) {
                Ok(message) => Ok(LoginAction::ShowLogin { message }),
                Err(w) => Err(w),
            },
        }
    }
}

} // verus!
