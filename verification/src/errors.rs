use vstd::prelude::*;
use vstd::string::StringExecFns;

verus! {

/// The closed set of failures a handler can report.
#[derive(Debug, PartialEq, Eq)]
pub enum AppError {
    /// The backing store failed; the text is the store's own account of it.
    Database(String),
    /// The requested user does not exist.
    NotFound,
    /// The caller's input is invalid; the text says how.
    BadRequest(String),
}

/// What goes on the wire for an outcome: a status code and a text body.
#[derive(Debug, PartialEq, Eq)]
pub struct Response {
    pub status: u16,
    pub body: String,
}

/// The status code of each kind of error.
pub open spec fn status_of(e: AppError) -> u16 {
    match e {
        AppError::Database(_) => 500,
        AppError::NotFound => 404,
        AppError::BadRequest(_) => 400,
    }
}

/// The body sent for an error. The cause of a store failure is never echoed.
pub open spec fn body_of(e: AppError) -> Seq<char> {
    match e {
        AppError::Database(_) => "Database error"@,
        AppError::NotFound => "User not found"@,
        AppError::BadRequest(detail) => detail@,
    }
}

/// The error as one line of text, for logs.
pub open spec fn message_of(e: AppError) -> Seq<char> {
    match e {
        AppError::Database(cause) => "Database error: "@ + cause@,
        AppError::NotFound => "User not found"@,
        AppError::BadRequest(detail) => "Invalid input: "@ + detail@,
    }
}

impl AppError {
    /// The HTTP status code of this kind of error.
    pub fn status_code(&self) -> (code: u16)
        ensures
            code == status_of(*self),
            code == 400 || code == 404 || code == 500,
    {
        match self {
            AppError::Database(_) => 500,
            AppError::NotFound => 404,
            AppError::BadRequest(_) => 400,
        }
    }

    /// The error as one line of text.
    pub fn message(&self) -> (text: String)
        ensures
            text@ == message_of(*self),
    {
        match self {
            AppError::Database(cause) => String::from_str("Database error: ").concat(
                cause.as_str(),
            ),
            AppError::NotFound => String::from_str("User not found"),
            AppError::BadRequest(detail) => String::from_str("Invalid input: ").concat(
                detail.as_str(),
            ),
        }
    }

    /// Renders the error for the wire.
    pub fn into_response(self) -> (response: Response)
        ensures
            response.status == status_of(self),
            response.body@ == body_of(self),
    {
        match self {
            AppError::Database(_) => Response {
                status: 500,
                body: String::from_str("Database error"),
            },
            AppError::NotFound => Response { status: 404, body: String::from_str("User not found") },
            AppError::BadRequest(detail) => Response { status: 400, body: detail },
        }
    }
}

} // verus!
