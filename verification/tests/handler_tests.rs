use web_sample::error::AppError;
use web_sample::handler::error::WebAppError as HandlerError;
use web_sample::handler::jwt::{WebClaims as HandlerClaims, WebTwtDecoder};
use web_sample::handler::product_register::{
    CompleteAction, EnterAction, FinishAction, ProductRegisterHandler,
};
use web_sample::handler::product_search::{ProductSearchHandler, SearchAction};
use web_sample::jwt::{jwt_cookie_key, CookiePair, UserDto};

fn principal() -> UserDto {
    UserDto {
        user_id: String::from("u1"),
        user_name: String::from("Alice"),
    }
}

#[test]
fn handler_error_classification() {
    let widened = HandlerError::from(AppError::InternalError(String::from("db down")));
    match widened.unwrap_err() {
        HandlerError::InternalError(m) => assert_eq!(m.as_str(), "db down"),
        HandlerError::NotAuthenticateError(_) => panic!("wrong classification"),
    }
    let reg = HandlerError::from(AppError::RegisterError(String::from("already there")));
    assert_eq!(reg.unwrap().as_str(), "already there");
}

#[test]
fn handler_error_status_and_redirect() {
    let internal = HandlerError::InternalError(String::from("x"));
    assert_eq!(internal.status_code(), 500);
    assert_eq!(internal.redirect_path(), "/sample_web/error");
    let auth = HandlerError::NotAuthenticateError(String::from("y"));
    assert_eq!(auth.status_code(), 401);
    assert_eq!(auth.redirect_path(), "/sample_web/login");
}

#[test]
fn handler_claims_window() {
    let claims = HandlerClaims::generate_at(&principal(), 500);
    assert_eq!(claims.expires_at(), 800);
    assert_eq!(claims.user_id().as_str(), "u1");
    let clocked = HandlerClaims::generate(&principal());
    assert_eq!(clocked.expires_at() - 300 + 300, clocked.expires_at());
}

#[test]
fn decode_header_reads_the_cookie() {
    let decoder = WebTwtDecoder;
    let cookies = vec![CookiePair {
        name: String::from(jwt_cookie_key()),
        value: String::from("tok"),
    }];
    assert_eq!(decoder.decode_header(&cookies).unwrap(), "tok");
    let none: Vec<CookiePair> = vec![];
    let err = decoder.decode_header(&none).unwrap_err();
    assert_eq!(err.status_code(), 401);
}

#[test]
fn register_enter_uses_the_session_cache() {
    let cached = Some(vec![String::from("books"), String::from("games")]);
    match ProductRegisterHandler::enter::<String>(cached, None).unwrap() {
        EnterAction::ShowForm {
            categories,
            store_in_session,
        } => {
            assert_eq!(categories.len(), 2);
            assert!(!store_in_session);
        }
    }
}

#[test]
fn register_enter_fetches_on_a_cold_session() {
    let fetched = Some(Ok(vec![String::from("books")]));
    match ProductRegisterHandler::enter::<String>(None, fetched).unwrap() {
        EnterAction::ShowForm {
            categories,
            store_in_session,
        } => {
            assert_eq!(categories, vec![String::from("books")]);
            assert!(store_in_session);
        }
    }
}

#[test]
fn register_enter_fetch_fault_is_internal() {
    let fetched: Option<Result<Vec<String>, String>> = Some(Err(String::from("db down")));
    let err = ProductRegisterHandler::enter::<String>(None, fetched).unwrap_err();
    match err {
        web_sample::error::WebAppError::InternalError(m) => assert_eq!(m.as_str(), "db down"),
        web_sample::error::WebAppError::AuthorizationError(_) => panic!("wrong classification"),
    }
}

#[test]
fn register_complete_without_categories_redirects() {
    let r = ProductRegisterHandler::complete::<String, String>(None, None, None).unwrap();
    assert!(matches!(r, CompleteAction::RedirectEnter));
}

#[test]
fn register_complete_with_validation_errors_shows_them() {
    let cats = Some(vec![String::from("books")]);
    let errors = Some(vec![String::from("name required")]);
    let r = ProductRegisterHandler::complete::<String, String>(cats, errors, None).unwrap();
    match r {
        CompleteAction::ShowErrors { categories, errors } => {
            assert_eq!(categories, vec![String::from("books")]);
            assert_eq!(errors, vec![String::from("name required")]);
        }
        _ => panic!("expected the validation errors"),
    }
}

#[test]
fn register_complete_stores_and_finishes() {
    let cats = Some(vec![String::from("books")]);
    let registered = Some(Ok(String::from("new product")));
    let r = ProductRegisterHandler::complete::<String, String>(cats, None, registered).unwrap();
    match r {
        CompleteAction::StoreAndFinish { product } => assert_eq!(product.as_str(), "new product"),
        _ => panic!("expected the product to be stored"),
    }
}

#[test]
fn register_complete_duplicate_shows_the_message() {
    let cats = Some(vec![String::from("books")]);
    let registered: Option<Result<String, AppError>> =
        Some(Err(AppError::RegisterError(String::from("already there"))));
    let r = ProductRegisterHandler::complete::<String, String>(cats, None, registered).unwrap();
    match r {
        CompleteAction::ShowMessage {
            categories,
            message,
        } => {
            assert_eq!(categories, vec![String::from("books")]);
            assert_eq!(message.as_str(), "already there");
        }
        _ => panic!("expected the duplicate message"),
    }
}

#[test]
fn register_complete_internal_fault_propagates() {
    let cats = Some(vec![String::from("books")]);
    let registered: Option<Result<String, AppError>> =
        Some(Err(AppError::InternalError(String::from("db down"))));
    let err =
        ProductRegisterHandler::complete::<String, String>(cats, None, registered).unwrap_err();
    assert!(matches!(
        err,
        web_sample::error::WebAppError::InternalError(_)
    ));
}

#[test]
fn register_finish_shows_or_redirects() {
    match ProductRegisterHandler::finish(Some(String::from("p1"))) {
        FinishAction::ShowFinish { product } => assert_eq!(product.as_str(), "p1"),
        FinishAction::RedirectEnter => panic!("expected the finish page"),
    }
    assert!(matches!(
        ProductRegisterHandler::finish::<String>(None),
        FinishAction::RedirectEnter
    ));
}

#[test]
fn search_result_variants() {
    let errors = Some(vec![String::from("keyword required")]);
    match ProductSearchHandler::result::<String>(errors, None).unwrap() {
        SearchAction::ShowErrors { errors } => {
            assert_eq!(errors, vec![String::from("keyword required")])
        }
        _ => panic!("expected the validation errors"),
    }

    let hits = Some(Ok(vec![String::from("a book")]));
    match ProductSearchHandler::result::<String>(None, hits).unwrap() {
        SearchAction::ShowResults { results } => assert_eq!(results.len(), 1),
        _ => panic!("expected results"),
    }

    let miss: Option<Result<Vec<String>, AppError>> =
        Some(Err(AppError::SearchError(String::from("not found"))));
    match ProductSearchHandler::result::<String>(None, miss).unwrap() {
        SearchAction::ShowMessage { message } => assert_eq!(message.as_str(), "not found"),
        _ => panic!("expected the message"),
    }

    let fault: Option<Result<Vec<String>, AppError>> =
        Some(Err(AppError::InternalError(String::from("db down"))));
    assert!(ProductSearchHandler::result::<String>(None, fault).is_err());
}
