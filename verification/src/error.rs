//! The error types of the library and how one becomes another.

use vstd::prelude::*;
use crate::text::concat_str;

verus! {

broadcast use vstd::string::group_string_axioms;

/// An error of the data layer.
///
/// `Unexpected` carries the text of the underlying failure.
#[derive(Debug)]
pub enum DomainError {
    NotFound(String),
    Conflict(String),
    Busy(),
    Unexpected(String),
}

/// An error of the application layer, as the service reports it.
///
/// `Unexpected` carries the text of the underlying failure.
#[derive(Debug)]
pub enum AppError {
    Unauthorized(String),
    Forbidden(String),
    ServerBusy(),
    BadRequest(String),
    DataNotFound(String),
    DataConflict(String),
    Unexpected(String),
}

/// An error raised inside a repository: one of the domain, or one of the
/// storage or encoding layer below it, kept as its text.
#[derive(Debug)]
pub enum RepositoryError {
    Domain(DomainError),
    External(String),
}

/// The text that describes a `DomainError`.
pub open spec fn domain_error_text(e: DomainError) -> Seq<char> {
    match e {
        DomainError::NotFound(r) => "not found: "@ + r@,
        DomainError::Conflict(r) => "conflict: "@ + r@,
        DomainError::Busy() => "Busy"@,
        DomainError::Unexpected(m) => "unexpected error occurred: "@ + m@,
    }
}

/// The text that describes an `AppError`.
pub open spec fn app_error_text(e: AppError) -> Seq<char> {
    match e {
        AppError::Unauthorized(r) => "Unauthorized: "@ + r@,
        AppError::Forbidden(r) => "Forbidden: "@ + r@,
        AppError::ServerBusy() => "Server busy"@,
        AppError::BadRequest(r) => "Bad request: "@ + r@,
        AppError::DataNotFound(r) => "Data not found: "@ + r@,
        AppError::DataConflict(r) => "Data conflict: "@ + r@,
        AppError::Unexpected(m) => "unexpected error occurred: "@ + m@,
    }
}

/// How a `DomainError` becomes an `AppError`.
pub open spec fn app_error_of(e: DomainError) -> AppError {
    match e {
        DomainError::NotFound(r) => AppError::DataNotFound(r),
        DomainError::Conflict(r) => AppError::DataConflict(r),
        DomainError::Busy() => AppError::ServerBusy(),
        DomainError::Unexpected(m) => AppError::Unexpected(m),
    }
}

impl DomainError {
    /// The text of the error.
    pub fn message(&self) -> (r: String)
        ensures
            r@ == domain_error_text(*self),
    {
        match self {
            DomainError::NotFound(reason) => concat_str("not found: ", reason.as_str()),
            DomainError::Conflict(reason) => concat_str("conflict: ", reason.as_str()),
            DomainError::Busy() => "Busy".to_string(),
            DomainError::Unexpected(e) => concat_str("unexpected error occurred: ", e.as_str()),
        }
    }

    /// The text of the underlying failure, for `Unexpected`.
    pub fn source(&self) -> (r: Option<&String>)
        ensures
            match *self {
                DomainError::Unexpected(m) => r == Some(&m),
                _ => r is None,
            },
    {
        match self {
            DomainError::Unexpected(e) => Some(e),
            _ => None,
        }
    }
}

impl AppError {
    /// The text of the error.
    pub fn message(&self) -> (r: String)
        ensures
            r@ == app_error_text(*self),
    {
        match self {
            AppError::Unauthorized(reason) => concat_str("Unauthorized: ", reason.as_str()),
            AppError::Forbidden(reason) => concat_str("Forbidden: ", reason.as_str()),
            AppError::ServerBusy() => "Server busy".to_string(),
            AppError::BadRequest(reason) => concat_str("Bad request: ", reason.as_str()),
            AppError::DataNotFound(reason) => concat_str("Data not found: ", reason.as_str()),
            AppError::DataConflict(reason) => concat_str("Data conflict: ", reason.as_str()),
            AppError::Unexpected(e) => concat_str("unexpected error occurred: ", e.as_str()),
        }
    }

    /// The text of the underlying failure, for `Unexpected`.
    pub fn source(&self) -> (r: Option<&String>)
        ensures
            match *self {
                AppError::Unexpected(m) => r == Some(&m),
                _ => r is None,
            },
    {
        match self {
            AppError::Unexpected(e) => Some(e),
            _ => None,
        }
    }

    /// The error that an unexpected failure with the text `message` becomes.
    pub fn from_unexpected(message: String) -> (r: AppError)
        ensures
            r == AppError::Unexpected(message),
    {
        AppError::Unexpected(message)
    }

    /// The application error that a domain error becomes.
    pub fn from_domain(error: DomainError) -> (r: AppError)
        ensures
            r == app_error_of(error),
    {
        match error {
            DomainError::NotFound(reason) => AppError::DataNotFound(reason),
            DomainError::Conflict(reason) => AppError::DataConflict(reason),
            DomainError::Busy() => AppError::ServerBusy(),
            DomainError::Unexpected(e) => AppError::Unexpected(e),
        }
    }
}

impl From<DomainError> for AppError {
    fn from(error: DomainError) -> (r: AppError) {
        AppError::from_domain(error)
    }
}

impl vstd::std_specs::convert::FromSpecImpl<DomainError> for AppError {
    open spec fn obeys_from_spec() -> bool {
        true
    }

    open spec fn from_spec(v: DomainError) -> AppError {
        app_error_of(v)
    }
}

/// The domain error that stands for an unexpected failure described by
/// `message`.
pub fn unexpected(message: String) -> (r: DomainError)
    ensures
        r == DomainError::Unexpected(message),
{
    DomainError::Unexpected(message)
}

impl RepositoryError {
    /// The domain error that this error becomes: a domain error stays as it
    /// is, any other becomes `Unexpected` with its text.
    pub fn into_domain(self) -> (r: DomainError)
        ensures
            r == match self {
                RepositoryError::Domain(e) => e,
                RepositoryError::External(m) => DomainError::Unexpected(m),
            },
    {
        match self {
            RepositoryError::Domain(error) => error,
            RepositoryError::External(error) => unexpected(error),
        }
    }
}

impl From<DomainError> for RepositoryError {
    fn from(error: DomainError) -> (r: RepositoryError) {
        RepositoryError::Domain(error)
    }
}

impl vstd::std_specs::convert::FromSpecImpl<DomainError> for RepositoryError {
    open spec fn obeys_from_spec() -> bool {
        true
    }

    open spec fn from_spec(v: DomainError) -> RepositoryError {
        RepositoryError::Domain(v)
    }
}

} // verus!
