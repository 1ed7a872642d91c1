//! The error taxonomy shared by the engine and its callers.

use vstd::prelude::*;

verus! {

/// Application-level failures, each carrying a human-readable message.
/// Validation failures surface as `BadRequest`, missing entities as
/// `NotFound`; the remaining variants classify auth and infrastructure
/// failures for the transport layer to map onto status codes.
#[derive(Debug)]
pub enum AppError {
    NotFound(String),
    BadRequest(String),
    Unauthorized(String),
    Forbidden(String),
    InternalError(String),
    DatabaseError(String),
}

impl AppError {
    /// The HTTP status code this error class maps to.
    pub fn status_code(&self) -> (r: u16)
        ensures
            r == match self {
                AppError::NotFound(_) => 404int,
                AppError::BadRequest(_) => 400int,
                AppError::Unauthorized(_) => 401int,
                AppError::Forbidden(_) => 403int,
                AppError::InternalError(_) => 500int,
                AppError::DatabaseError(_) => 500int,
            },
    {
        match self {
            AppError::NotFound(_) => 404,
            AppError::BadRequest(_) => 400,
            AppError::Unauthorized(_) => 401,
            AppError::Forbidden(_) => 403,
            AppError::InternalError(_) => 500,
            AppError::DatabaseError(_) => 500,
        }
    }

    /// The message carried by the error, whatever its class.
    pub fn message(&self) -> (r: &String)
        ensures
            r@ == match self {
                AppError::NotFound(m) => m@,
                AppError::BadRequest(m) => m@,
                AppError::Unauthorized(m) => m@,
                AppError::Forbidden(m) => m@,
                AppError::InternalError(m) => m@,
                AppError::DatabaseError(m) => m@,
            },
    {
        match self {
            AppError::NotFound(m) => m,
            AppError::BadRequest(m) => m,
            AppError::Unauthorized(m) => m,
            AppError::Forbidden(m) => m,
            AppError::InternalError(m) => m,
            AppError::DatabaseError(m) => m,
        }
    }
}

} // verus!
