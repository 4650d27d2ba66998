use meshops::api::{
    bearer_token, check_credentials, found_outcome, normalize_optional_record_type,
    normalize_record_type, ready_status, token_outcome, AppError,
};
use meshops::config::AuthConfig;
use meshops::models::LoginRequest;

#[test]
fn record_types_are_normalised() {
    assert_eq!(normalize_record_type("a").unwrap(), "A");
    assert_eq!(normalize_record_type("aAaA").unwrap(), "AAAA");
    match normalize_record_type("cname") {
        Err(AppError::BadRequest(m)) => assert_eq!(m, "record_type must be A or AAAA"),
        other => panic!("unexpected {other:?}"),
    }
    assert_eq!(normalize_optional_record_type(None).unwrap(), None);
    assert_eq!(normalize_optional_record_type(Some("aaaa")).unwrap(), Some("AAAA".to_string()));
    assert!(matches!(normalize_optional_record_type(Some("MX")), Err(AppError::BadRequest(_))));
}

#[test]
fn bearer_tokens() {
    assert_eq!(bearer_token(Some("Bearer meshops_x")).unwrap(), "meshops_x");
    assert_eq!(bearer_token(Some("Bearer ")).unwrap(), "");
    assert!(matches!(bearer_token(Some("bearer meshops_x")), Err(AppError::Unauthorized)));
    assert!(matches!(bearer_token(Some("Bearer")), Err(AppError::Unauthorized)));
    assert!(matches!(bearer_token(None), Err(AppError::Unauthorized)));
}

#[test]
fn login_checks_both_credentials() {
    let auth = AuthConfig::default();
    let ok = LoginRequest { username: "admin".to_string(), password: "change-me".to_string() };
    assert!(check_credentials(&auth, &ok).is_ok());
    let bad = LoginRequest { username: "admin".to_string(), password: "nope".to_string() };
    assert!(matches!(check_credentials(&auth, &bad), Err(AppError::Unauthorized)));
    let bad_user = LoginRequest { username: "root".to_string(), password: "change-me".to_string() };
    assert!(matches!(check_credentials(&auth, &bad_user), Err(AppError::Unauthorized)));
}

#[test]
fn outcomes_and_status_codes() {
    assert!(token_outcome(true).is_ok());
    assert!(matches!(token_outcome(false), Err(AppError::Unauthorized)));
    assert!(found_outcome(true).is_ok());
    assert!(matches!(found_outcome(false), Err(AppError::NotFound)));
    assert_eq!(ready_status(true), "ready");
    assert_eq!(ready_status(false), "degraded");
    assert_eq!(AppError::Unauthorized.status_code(), 401);
    assert_eq!(AppError::NotFound.status_code(), 404);
    assert_eq!(AppError::BadRequest("x".to_string()).status_code(), 400);
    assert_eq!(AppError::Internal("y".to_string()).status_code(), 500);
    assert_eq!(AppError::Internal("y".to_string()).message(), "y");
    assert_eq!(AppError::TooManyRequests.status_code(), 429);
    assert_eq!(AppError::TooManyRequests.message(), "rate limit exceeded");
    assert!(meshops::api::rate_outcome(true).is_ok());
    assert!(matches!(meshops::api::rate_outcome(false), Err(AppError::TooManyRequests)));
}

#[test]
fn record_type_names_normalize_to_themselves() {
    for t in [meshops::config::DnsRecordType::A, meshops::config::DnsRecordType::Aaaa] {
        assert_eq!(normalize_record_type(t.as_str()).unwrap(), t.as_str());
    }
}
