//! Error taxonomy of the ledger service.
//!
//! Validation failures are detected before any mutation and surfaced
//! verbatim; storage-shaped failures (an impossible balance, a dangling
//! account reference discovered while writing) abort the whole unit of
//! work. Each error kind maps to a distinct response status code.

use vstd::prelude::*;

verus! {

/// The category of an error, with the message stripped. Contracts speak
/// about categories: which inputs produce which kind of failure.
#[derive(Clone, Copy, Debug, PartialEq, Eq, Structural)]
pub enum ErrorKind {
    Auth,
    Forbidden,
    NotFound,
    BadRequest,
    Validation,
    Database,
    Internal,
    RateLimit,
}

/// An error returned by the ledger's operations. All variants but
/// `RateLimitExceeded` carry a human-readable message.
#[derive(Debug)]
pub enum AppError {
    Auth(String),
    Forbidden(String),
    NotFound(String),
    BadRequest(String),
    Validation(String),
    Database(String),
    Internal(String),
    RateLimitExceeded,
}

impl AppError {
    /// The category of this error.
    pub open spec fn kind(&self) -> ErrorKind {
        match self {
            AppError::Auth(_) => ErrorKind::Auth,
            AppError::Forbidden(_) => ErrorKind::Forbidden,
            AppError::NotFound(_) => ErrorKind::NotFound,
            AppError::BadRequest(_) => ErrorKind::BadRequest,
            AppError::Validation(_) => ErrorKind::Validation,
            AppError::Database(_) => ErrorKind::Database,
            AppError::Internal(_) => ErrorKind::Internal,
            AppError::RateLimitExceeded => ErrorKind::RateLimit,
        }
    }

    /// The response status owed for each error kind.
    pub open spec fn spec_status_code(&self) -> u16 {
        match self.kind() {
            ErrorKind::Auth => 401,
            ErrorKind::Forbidden => 403,
            ErrorKind::NotFound => 404,
            ErrorKind::BadRequest => 400,
            ErrorKind::Validation => 400,
            ErrorKind::Database => 500,
            ErrorKind::Internal => 500,
            ErrorKind::RateLimit => 429,
        }
    }

    /// Maps this error to its response status code: 401 for failed
    /// authentication, 403 for a permission failure, 404 for a missing
    /// entity, 400 for a malformed or inconsistent request, 500 for a
    /// storage or internal failure, and 429 when a caller is rate limited.
    pub fn status_code(&self) -> (code: u16)
        ensures
            code == self.spec_status_code(),
    {
        match self {
            AppError::Auth(_) => 401,
            AppError::Forbidden(_) => 403,
            AppError::NotFound(_) => 404,
            AppError::BadRequest(_) => 400,
            AppError::Validation(_) => 400,
            AppError::Database(_) => 500,
            AppError::Internal(_) => 500,
            AppError::RateLimitExceeded => 429,
        }
    }

    /// The message carried by this error; the rate-limit variant has a
    /// fixed text.
    pub fn message(&self) -> (m: String)
        ensures
            match self {
                AppError::Auth(s) => m == *s,
                AppError::Forbidden(s) => m == *s,
                AppError::NotFound(s) => m == *s,
                AppError::BadRequest(s) => m == *s,
                AppError::Validation(s) => m == *s,
                AppError::Database(s) => m == *s,
                AppError::Internal(s) => m == *s,
                AppError::RateLimitExceeded => m@ == "Rate limit exceeded"@,
            },
    {
        match self {
            AppError::Auth(s) => s.clone(),
            AppError::Forbidden(s) => s.clone(),
            AppError::NotFound(s) => s.clone(),
            AppError::BadRequest(s) => s.clone(),
            AppError::Validation(s) => s.clone(),
            AppError::Database(s) => s.clone(),
            AppError::Internal(s) => s.clone(),
            AppError::RateLimitExceeded => String::from_str("Rate limit exceeded"),
        }
    }
}

} // verus!
