use web_api::error::{unexpected, AppError, DomainError, RepositoryError};

#[test]
fn domain_error_messages() {
    assert_eq!(DomainError::NotFound("x".to_string()).message(), "not found: x");
    assert_eq!(DomainError::Conflict("y".to_string()).message(), "conflict: y");
    assert_eq!(DomainError::Busy().message(), "Busy");
    assert_eq!(DomainError::Unexpected("z".to_string()).message(), "unexpected error occurred: z");
    assert_eq!(DomainError::Unexpected("z".to_string()).source(), Some(&"z".to_string()));
    assert_eq!(DomainError::Busy().source(), None);
}

#[test]
fn app_error_messages() {
    assert_eq!(AppError::Unauthorized("a".to_string()).message(), "Unauthorized: a");
    assert_eq!(AppError::Forbidden("b".to_string()).message(), "Forbidden: b");
    assert_eq!(AppError::ServerBusy().message(), "Server busy");
    assert_eq!(AppError::BadRequest("c".to_string()).message(), "Bad request: c");
    assert_eq!(AppError::DataNotFound("d".to_string()).message(), "Data not found: d");
    assert_eq!(AppError::DataConflict("e".to_string()).message(), "Data conflict: e");
    assert_eq!(AppError::Unexpected("f".to_string()).message(), "unexpected error occurred: f");
    assert_eq!(AppError::Unexpected("f".to_string()).source(), Some(&"f".to_string()));
    assert_eq!(AppError::Forbidden("b".to_string()).source(), None);
}

#[test]
fn domain_errors_become_app_errors() {
    assert!(matches!(AppError::from(DomainError::NotFound("n".to_string())), AppError::DataNotFound(m) if m == "n"));
    assert!(matches!(AppError::from(DomainError::Conflict("c".to_string())), AppError::DataConflict(m) if m == "c"));
    assert!(matches!(AppError::from(DomainError::Busy()), AppError::ServerBusy()));
    assert!(matches!(AppError::from(DomainError::Unexpected("u".to_string())), AppError::Unexpected(m) if m == "u"));
    assert!(matches!(AppError::from_unexpected("w".to_string()), AppError::Unexpected(m) if m == "w"));
}

#[test]
fn repository_errors_become_domain_errors() {
    let e = RepositoryError::from(DomainError::Conflict("k".to_string())).into_domain();
    assert!(matches!(e, DomainError::Conflict(m) if m == "k"));
    let e = RepositoryError::External("disk".to_string()).into_domain();
    assert!(matches!(e, DomainError::Unexpected(m) if m == "disk"));
    assert!(matches!(unexpected("boom".to_string()), DomainError::Unexpected(m) if m == "boom"));
}
