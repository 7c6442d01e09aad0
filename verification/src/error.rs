//! The errors that a request is answered with.

use vstd::prelude::*;

use crate::text;

verus! {

/// The HTTP statuses that an error carries.
#[derive(Clone, Copy, Debug, PartialEq, Eq, Structural)]
pub enum Status {
    BadRequest,
    Unauthorized,
    Forbidden,
    NotFound,
    InternalServerError,
}

impl Status {
    pub open spec fn number(self) -> u16 {
        match self {
            Status::BadRequest => 400,
            Status::Unauthorized => 401,
            Status::Forbidden => 403,
            Status::NotFound => 404,
            Status::InternalServerError => 500,
        }
    }

    /// The status code on the wire.
    pub fn code(self) -> (r: u16)
        ensures
            r == self.number(),
    {
        match self {
            Status::BadRequest => 400,
            Status::Unauthorized => 401,
            Status::Forbidden => 403,
            Status::NotFound => 404,
            Status::InternalServerError => 500,
        }
    }
}

/// What a failed request is answered with: a status and a message.
#[derive(Debug)]
pub struct AppError {
    pub status: Status,
    pub message: String,
}

impl AppError {
    /// The error has this status and this message.
    pub open spec fn says(self, status: Status, message: Seq<char>) -> bool {
        self.status == status && self.message@ == message
    }

    pub fn new(status: Status, message: &str) -> (r: Self)
        ensures
            r.says(status, message@),
    {
        AppError { status, message: message.to_string() }
    }

    pub fn bad_request(message: &str) -> (r: Self)
        ensures
            r.says(Status::BadRequest, message@),
    {
        AppError::new(Status::BadRequest, message)
    }

    pub fn not_found(message: &str) -> (r: Self)
        ensures
            r.says(Status::NotFound, message@),
    {
        AppError::new(Status::NotFound, message)
    }

    pub fn unauthorized(message: &str) -> (r: Self)
        ensures
            r.says(Status::Unauthorized, message@),
    {
        AppError::new(Status::Unauthorized, message)
    }

    pub fn forbidden(message: &str) -> (r: Self)
        ensures
            r.says(Status::Forbidden, message@),
    {
        AppError::new(Status::Forbidden, message)
    }

    pub fn internal(message: &str) -> (r: Self)
        ensures
            r.says(Status::InternalServerError, message@),
    {
        AppError::new(Status::InternalServerError, message)
    }

    /// The error for a store that could not do what it was asked.
    pub open spec fn reports(self, failure: StoreFailure) -> bool {
        match failure {
            StoreFailure::NoRows => self.says(Status::NotFound, "Not found"@),
            StoreFailure::Other(text) => self.says(Status::InternalServerError, text@),
        }
    }

    pub fn from_store(failure: &StoreFailure) -> (r: Self)
        ensures
            r.reports(*failure),
    {
        match failure {
            StoreFailure::NoRows => AppError::not_found("Not found"),
            StoreFailure::Other(text) => AppError::internal(text.as_str()),
        }
    }

    /// The error for a password that could not be hashed.
    pub fn from_hashing(text: &str) -> (r: Self)
        ensures
            r.says(Status::InternalServerError, "password hashing error: "@ + text@),
    {
        AppError::internal(text::joined("password hashing error: ", text).as_str())
    }

    /// The error for a token that was not accepted.
    pub fn from_token(text: &str) -> (r: Self)
        ensures
            r.says(Status::Unauthorized, "invalid token: "@ + text@),
    {
        AppError::unauthorized(text::joined("invalid token: ", text).as_str())
    }
}

/// Why the store did not do what it was asked.
#[derive(Debug)]
pub enum StoreFailure {
    /// A row was asked for and none fits.
    NoRows,
    /// Anything else, in the store's own words.
    Other(String),
}

} // verus!
