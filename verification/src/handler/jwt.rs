//! The handler layer's claims and credential extraction.
//!
//! This layer keeps a reduced claims shape - identity without the display
//! name - and a decoder that only reads the credential cookie out of a
//! request; decoding the token itself is the codec's concern.

use vstd::prelude::*;
use vstd::string::StringExecFns;

use crate::handler::error::WebAppError;
use crate::jwt::{
    cookie_lookup, current_timestamp, jwt_cookie_key, jwt_cookie_key_spec, subject, CookiePair,
    UserDto, TOKEN_TTL_SECONDS,
};

verus! {

/// The claims carried inside a credential: issuance and expiry window,
/// the fixed subject, and the principal's identifier.
#[derive(Debug)]
pub struct WebClaims {
    iat: i64,
    exp: i64,
    sub: String,
    user_id: String,
}

/// The mathematical value of a `WebClaims`.
#[verifier::ext_equal]
pub ghost struct ClaimsView {
    pub iat: i64,
    pub exp: i64,
    pub sub: Seq<char>,
    pub user_id: Seq<char>,
}

impl View for WebClaims {
    type V = ClaimsView;

    closed spec fn view(&self) -> ClaimsView {
        ClaimsView { iat: self.iat, exp: self.exp, sub: self.sub@, user_id: self.user_id@ }
    }
}

impl WebClaims {
    /// Mints the claims for a principal as of the instant `now`.
    pub fn generate_at(user: &UserDto, now: i64) -> (r: WebClaims)
        requires
            now <= i64::MAX - TOKEN_TTL_SECONDS,
        ensures
            r@.iat == now,
            r@.exp == now + TOKEN_TTL_SECONDS,
            r@.sub == subject(),
            r@.user_id == user.user_id@,
    {
        WebClaims {
            iat: now,
            exp: now + TOKEN_TTL_SECONDS,
            sub: String::from_str("M.Furukawa"),
            user_id: user.user_id.clone(),
        }
    }

    /// Mints the claims for a principal as of the process clock.
    pub fn generate(user: &UserDto) -> (r: WebClaims)
        ensures
            r@.exp == r@.iat + TOKEN_TTL_SECONDS,
            r@.sub == subject(),
            r@.user_id == user.user_id@,
    {
        let now_raw = current_timestamp();
        let now = if now_raw > i64::MAX - TOKEN_TTL_SECONDS {
            i64::MAX - TOKEN_TTL_SECONDS
        } else {
            now_raw
        };
        Self::generate_at(user, now)
    }

    /// The principal's opaque identifier.
    pub fn user_id(&self) -> (r: &String)
        ensures
            r@ == self@.user_id,
    {
        &self.user_id
    }

    /// When the claims stop being valid.
    pub fn expires_at(&self) -> (r: i64)
        ensures
            r == self@.exp,
    {
        self.exp
    }
}

/// Reads the credential out of a request's cookies; decoding the token is
/// left to the codec.
pub struct WebTwtDecoder;

impl WebTwtDecoder {
    /// Looks the credential up by its fixed cookie name; a request without
    /// it is simply not authenticated.
    pub fn decode_header(&self, cookies: &Vec<CookiePair>) -> (r: Result<String, WebAppError>)
        ensures
            match r {
                Ok(t) => cookie_lookup(cookies@, jwt_cookie_key_spec()) == Some(t@),
                Err(e) => cookie_lookup(cookies@, jwt_cookie_key_spec()) is None && (
                e matches WebAppError::NotAuthenticateError(m) && m@ == "認証情報がない"@),
            },
    {
        let key: String = String::from_str(jwt_cookie_key());
        let mut i: usize = 0;
        assert(cookies@.skip(0) =~= cookies@);
        while i < cookies.len()
            invariant
                i <= cookies@.len(),
                key@ == jwt_cookie_key_spec(),
                cookie_lookup(cookies@, jwt_cookie_key_spec()) == cookie_lookup(
                    cookies@.skip(i as int),
                    jwt_cookie_key_spec(),
                ),
            decreases cookies@.len() - i,
        {
            proof {
                assert(cookies@.skip(i as int).first() == cookies@[i as int]);
            }
            if cookies[i].name == key {
                return Ok(cookies[i].value.clone());
            }
            proof {
                assert(cookies@.skip(i as int).drop_first() =~= cookies@.skip(i as int + 1));
            }
            i = i + 1;
        }
        proof {
            assert(cookies@.skip(i as int) =~= Seq::<CookiePair>::empty());
        }
        Err(WebAppError::NotAuthenticateError(String::from_str("認証情報がない")))
    }
}

} // verus!
