//! The error type that every panel operation reports.
use vstd::prelude::*;

use crate::text::{concat2, owned};

verus! {

/// A failed panel operation, with the HTTP status it is answered with.
#[derive(Debug)]
pub enum AppError {
    BadRequest(String),
    Unauthorized(String),
    Forbidden(String),
    NotFound(String),
    Conflict(String),
    InternalServerError(String),
    InvalidToken,
    DatabaseError(String),
    FileError(String),
    ProcessError(String),
}

/// The HTTP status code of an error.
pub open spec fn status_of(e: AppError) -> u16 {
    match e {
        AppError::BadRequest(_) => 400,
        AppError::Unauthorized(_) => 401,
        AppError::Forbidden(_) => 403,
        AppError::NotFound(_) => 404,
        AppError::Conflict(_) => 409,
        AppError::InvalidToken => 401,
        _ => 500,
    }
}

/// The message an error is reported with.
pub open spec fn message_of(e: AppError) -> Seq<char> {
    match e {
        AppError::BadRequest(m) => m@,
        AppError::Unauthorized(m) => m@,
        AppError::Forbidden(m) => m@,
        AppError::NotFound(m) => m@,
        AppError::Conflict(m) => m@,
        AppError::InvalidToken => "Invalid or expired token"@,
        AppError::InternalServerError(m) => m@,
        AppError::DatabaseError(m) => "Database error: "@ + m@,
        AppError::FileError(m) => "File error: "@ + m@,
        AppError::ProcessError(m) => "Process error: "@ + m@,
    }
}

impl AppError {
    /// The HTTP status code (400, 401, 403, 404, 409 or 500).
    pub fn status(&self) -> (r: u16)
        ensures
            r == status_of(*self),
    {
        match self {
            AppError::BadRequest(_) => 400,
            AppError::Unauthorized(_) => 401,
            AppError::Forbidden(_) => 403,
            AppError::NotFound(_) => 404,
            AppError::Conflict(_) => 409,
            AppError::InvalidToken => 401,
            _ => 500,
        }
    }

    pub fn message(&self) -> (r: String)
        ensures
            r@ == message_of(*self),
    {
        match self {
            AppError::BadRequest(msg) => msg.clone(),
            AppError::Unauthorized(msg) => msg.clone(),
            AppError::Forbidden(msg) => msg.clone(),
            AppError::NotFound(msg) => msg.clone(),
            AppError::Conflict(msg) => msg.clone(),
            AppError::InvalidToken => owned("Invalid or expired token"),
            AppError::InternalServerError(msg) => msg.clone(),
            AppError::DatabaseError(msg) => concat2("Database error: ", msg.as_str()),
            AppError::FileError(msg) => concat2("File error: ", msg.as_str()),
            AppError::ProcessError(msg) => concat2("Process error: ", msg.as_str()),
        }
    }
}

} // verus!
