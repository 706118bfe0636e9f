use web_sample::error::{AppError, WebAppError};
use web_sample::handler::authenticate::{AuthenticateHandler, LoginAction};
use web_sample::jwt::{issue_cookie, jwt_cookie_key, CookiePair, UserDto, WebClaims, WebJwt};

fn test_key() -> Vec<u8> {
    b"a signing key for the test suite".to_vec()
}

fn principal() -> UserDto {
    UserDto {
        user_id: String::from("u1"),
        user_name: String::from("Alice"),
    }
}

#[test]
fn scenario_login_then_use_then_expire() {
    // A principal logs in at time T: the cookie carries a token valid
    // until T + 300 s. A request at T + 100 s succeeds and recovers the
    // principal; a request at T + 400 s fails and redirects to login.
    let jwt = WebJwt::new(test_key());
    let t: i64 = 1_700_000_000;
    let claims = WebClaims::generate_at(&principal(), t);
    let token = jwt.encode(&claims);
    let cookie = issue_cookie(token);
    assert_eq!(cookie.max_age_seconds, 300);
    let request_cookies = vec![CookiePair {
        name: cookie.name.clone(),
        value: cookie.value.clone(),
    }];

    let extracted = jwt.parse_header(&request_cookies).expect("cookie present");
    let fresh = jwt.decode_at(&extracted, t + 100).expect("inside the window");
    assert_eq!(fresh.user_id().as_str(), "u1");

    let late = jwt.decode_at(&extracted, t + 400).unwrap_err();
    let outcome = WebAppError::AuthorizationError(String::from(late.message()));
    assert_eq!(outcome.redirect_path(), "/web_sample/login");
}

#[test]
fn scenario_garbage_cookie_redirects_to_login() {
    // A protected request whose credential cookie holds "garbage" is
    // answered like any unauthenticated request: redirect to login, and
    // the failure is never classified as internal.
    let jwt = WebJwt::new(test_key());
    let cookies = vec![CookiePair {
        name: String::from(jwt_cookie_key()),
        value: String::from("garbage"),
    }];
    let err = WebClaims::from_request(&jwt, &cookies).unwrap_err();
    assert!(matches!(err, WebAppError::AuthorizationError(_)));
    assert_eq!(err.redirect_path(), "/web_sample/login");
}

#[test]
fn missing_and_tampered_credential_have_the_same_outcome() {
    let jwt = WebJwt::new(test_key());

    let no_cookie: Vec<CookiePair> = vec![];
    let missing = WebClaims::from_request(&jwt, &no_cookie).unwrap_err();
    assert!(matches!(missing, WebAppError::AuthorizationError(_)));

    let tampered = vec![CookiePair {
        name: String::from(jwt_cookie_key()),
        value: String::from("not a real token"),
    }];
    let invalid = WebClaims::from_request(&jwt, &tampered).unwrap_err();
    assert!(matches!(invalid, WebAppError::AuthorizationError(_)));

    assert_eq!(missing.redirect_path(), invalid.redirect_path());
    assert_eq!(missing.redirect_path(), "/web_sample/login");
}

#[test]
fn from_request_with_valid_cookie_yields_the_claims() {
    let jwt = WebJwt::new(test_key());
    let claims = WebClaims::generate(&principal());
    let token = jwt.encode(&claims);
    let cookie = issue_cookie(token);
    let cookies = vec![CookiePair {
        name: cookie.name.clone(),
        value: cookie.value.clone(),
    }];
    let got = WebClaims::from_request(&jwt, &cookies).expect("fresh credential");
    assert_eq!(got.user_id().as_str(), "u1");
    assert_eq!(got.user_name().as_str(), "Alice");
}

#[test]
fn login_success_grants_a_cookie() {
    let jwt = WebJwt::new(test_key());
    let action = AuthenticateHandler::authenticate(&jwt, Ok(principal())).expect("no fault");
    match action {
        LoginAction::GrantAccess { cookie } => {
            assert_eq!(cookie.name.as_str(), jwt_cookie_key());
            assert_eq!(cookie.max_age_seconds, 300);
            assert!(cookie.http_only);
            assert!(cookie.secure);
            // The granted token authenticates the principal right away.
            let back = jwt.decode(&cookie.value).expect("fresh token");
            assert_eq!(back.user_id().as_str(), "u1");
        }
        LoginAction::ShowLogin { .. } => panic!("expected access to be granted"),
    }
}

#[test]
fn login_domain_failure_shows_the_login_page() {
    let jwt = WebJwt::new(test_key());
    let verdict = Err(AppError::AuthenticateError(String::from(
        "wrong user id or password",
    )));
    match AuthenticateHandler::authenticate(&jwt, verdict).expect("recoverable") {
        LoginAction::ShowLogin { message } => {
            assert_eq!(message.as_str(), "wrong user id or password")
        }
        LoginAction::GrantAccess { .. } => panic!("must not grant access"),
    }
}

#[test]
fn login_internal_failure_propagates() {
    let jwt = WebJwt::new(test_key());
    let verdict = Err(AppError::InternalError(String::from("db down")));
    let err = AuthenticateHandler::authenticate(&jwt, verdict).unwrap_err();
    match err {
        WebAppError::InternalError(m) => assert_eq!(m.as_str(), "db down"),
        WebAppError::AuthorizationError(_) => panic!("wrong classification"),
    }
}
