use web_api::api::{cors_policy, ApiError, CorsPolicy};
use web_api::error::AppError;

#[test]
fn statuses_and_messages() {
    let cases = vec![
        (AppError::BadRequest("bad".to_string()), 400, "bad"),
        (AppError::Unauthorized("secret reason".to_string()), 401, "Unauthorized"),
        (AppError::Forbidden("secret reason".to_string()), 403, "Forbidden"),
        (AppError::ServerBusy(), 503, "Server busy"),
        (AppError::Unexpected("trace".to_string()), 500, "An internal server error occurred"),
        (AppError::DataNotFound("missing".to_string()), 404, "missing"),
        (AppError::DataConflict("taken".to_string()), 409, "taken"),
    ];
    for (e, status, msg) in cases {
        let (s, m) = ApiError::from_app(e).status_and_message();
        assert_eq!(s, status);
        assert_eq!(m, msg);
    }
}

#[test]
fn cors_policies() {
    assert!(matches!(cors_policy(&vec![]), CorsPolicy::Disabled));
    assert!(matches!(cors_policy(&vec!["http://a".to_string(), "*".to_string()]), CorsPolicy::AnyOrigin));
    match cors_policy(&vec!["http://a".to_string(), "http://b".to_string()]) {
        CorsPolicy::Origins(v) => assert_eq!(v, vec!["http://a", "http://b"]),
        _ => panic!("expected a list"),
    }
}
