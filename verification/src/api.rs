//! How the HTTP layer answers: the status and message of each error, and
//! which origins may call the service.

use vstd::prelude::*;
use crate::error::AppError;
use crate::text::owned;

verus! {

broadcast use vstd::string::group_string_axioms;

/// An application error on its way to the client.
pub struct ApiError(pub AppError);

/// The HTTP status and the message that answer an error. The reasons of
/// authorization failures and unexpected errors stay on the server.
pub open spec fn status_of(e: AppError) -> (u16, Seq<char>) {
    match e {
        AppError::BadRequest(reason) => (400, reason@),
        AppError::Unauthorized(_) => (401, "Unauthorized"@),
        AppError::Forbidden(_) => (403, "Forbidden"@),
        AppError::ServerBusy() => (503, "Server busy"@),
        AppError::Unexpected(_) => (500, "An internal server error occurred"@),
        AppError::DataNotFound(reason) => (404, reason@),
        AppError::DataConflict(reason) => (409, reason@),
    }
}

impl ApiError {
    pub fn from_app(error: AppError) -> (r: ApiError)
        ensures
            r.0 == error,
    {
        ApiError(error)
    }

    /// The status code and the text of the `error` member of the answer.
    pub fn status_and_message(self) -> (r: (u16, String))
        ensures
            (r.0, r.1@) == status_of(self.0),
    {
        match self.0 {
            AppError::BadRequest(reason) => (400, reason),
            AppError::Unauthorized(_) => (401, owned("Unauthorized")),
            AppError::Forbidden(_) => (403, owned("Forbidden")),
            AppError::ServerBusy() => (503, owned("Server busy")),
            AppError::Unexpected(_) => (500, owned("An internal server error occurred")),
            AppError::DataNotFound(reason) => (404, reason),
            AppError::DataConflict(reason) => (409, reason),
        }
    }
}

/// Which origins may call the service from a browser.
pub enum CorsPolicy {
    /// No cross-origin calls are allowed.
    Disabled,
    /// Any origin may call.
    AnyOrigin,
    /// The listed origins may call.
    Origins(Vec<String>),
}

/// The policy for the configured origins: none configured disables
/// cross-origin calls, the wildcard `*` among them allows any origin, and
/// otherwise exactly the listed origins are allowed.
pub fn cors_policy(origins: &Vec<String>) -> (r: CorsPolicy)
    ensures
        origins@.len() == 0 ==> r is Disabled,
        origins@.len() > 0 && (exists|i: int| 0 <= i < origins@.len() && #[trigger] origins@[i]@ == "*"@)
            ==> r is AnyOrigin,
        origins@.len() > 0 && !(exists|i: int| 0 <= i < origins@.len() && #[trigger] origins@[i]@ == "*"@)
            ==> (r matches CorsPolicy::Origins(v) && v@ == origins@),
{
    if origins.len() == 0 {
        return CorsPolicy::Disabled;
    }
    let star = owned("*");
    let mut i: usize = 0;
    while i < origins.len()
        invariant
            i <= origins@.len(),
            star@ == "*"@,
            forall|j: int| 0 <= j < i ==> #[trigger] origins@[j]@ != "*"@,
        decreases origins@.len() - i,
    {
        if origins[i].eq(&star) {
            return CorsPolicy::AnyOrigin;
        }
        i += 1;
    }
    CorsPolicy::Origins(origins.clone())
}

} // verus!
