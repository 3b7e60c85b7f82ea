//! Errors that the use cases report.
use vstd::prelude::*;

use crate::text::joined;

verus! {

/// An application error: its kind decides the response, its message explains it.
#[derive(Debug)]
pub enum AppError {
    Conflict(String),
    NotFound(String),
    BadRequest(String),
    Unauthorized(String),
    InternalError(String),
    /// A failure reported only by its message.
    Failure(String),
}

impl AppError {
    pub open spec fn msg(&self) -> Seq<char> {
        match self {
            AppError::Conflict(m) => m@,
            AppError::NotFound(m) => m@,
            AppError::BadRequest(m) => m@,
            AppError::Unauthorized(m) => m@,
            AppError::InternalError(m) => m@,
            AppError::Failure(m) => m@,
        }
    }

    /// The error's message.
    pub fn message(&self) -> (m: &String)
        ensures
            m@ == self.msg(),
    {
        match self {
            AppError::Conflict(m) => m,
            AppError::NotFound(m) => m,
            AppError::BadRequest(m) => m,
            AppError::Unauthorized(m) => m,
            AppError::InternalError(m) => m,
            AppError::Failure(m) => m,
        }
    }

    /// A copy of the error.
    pub fn duplicate(&self) -> (r: AppError)
        ensures
            r == *self,
    {
        match self {
            AppError::Conflict(m) => AppError::Conflict(m.clone()),
            AppError::NotFound(m) => AppError::NotFound(m.clone()),
            AppError::BadRequest(m) => AppError::BadRequest(m.clone()),
            AppError::Unauthorized(m) => AppError::Unauthorized(m.clone()),
            AppError::InternalError(m) => AppError::InternalError(m.clone()),
            AppError::Failure(m) => AppError::Failure(m.clone()),
        }
    }
}

/// An internal error whose message is `context` followed by the message of `cause`.
pub fn internal_error(context: &str, cause: &AppError) -> (r: AppError)
    ensures
        r matches AppError::InternalError(m) && m@ == context@ + cause.msg(),
{
    AppError::InternalError(joined(context, cause.message().as_str()))
}

/// An unauthorized error whose message is `context` followed by the message of `cause`.
pub fn unauthorized_error(context: &str, cause: &AppError) -> (r: AppError)
    ensures
        r matches AppError::Unauthorized(m) && m@ == context@ + cause.msg(),
{
    AppError::Unauthorized(joined(context, cause.message().as_str()))
}

} // verus!
