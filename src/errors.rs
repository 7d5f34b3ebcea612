use vstd::prelude::*;

verus! {

/// The failures that a request can end in. Each carries a human-readable
/// message; the variant decides the HTTP status and the error category.
#[derive(Debug, PartialEq, Eq)]
pub enum AppError {
    NotFound(String),
    Validation(String),
    Unauthorized(String),
    Internal(String),
}

/// The message given to the caller for an unexpected failure: internals are
/// never shown.
pub const INTERNAL_MESSAGE: &'static str = "An unexpected error occurred";

/// The message of a request whose task title is blank.
pub const EMPTY_TITLE_MESSAGE: &'static str = "Title cannot be empty";

/// The message of a request whose path does not hold a well-formed task id.
pub const INVALID_ID_MESSAGE: &'static str = "Invalid UUID format";

/// The message of a request that lacks the right API key.
pub const UNAUTHORIZED_MESSAGE: &'static str = "Missing or invalid API key. Provide X-API-Key header.";

/// `e` is a validation failure that carries the message `msg`.
pub open spec fn is_validation(e: AppError, msg: Seq<char>) -> bool {
    match e {
        AppError::Validation(m) => m@ == msg,
        _ => false,
    }
}

/// `e` is a not-found failure that carries the message `msg`.
pub open spec fn is_not_found(e: AppError, msg: Seq<char>) -> bool {
    match e {
        AppError::NotFound(m) => m@ == msg,
        _ => false,
    }
}

pub open spec fn status_of(e: AppError) -> u16 {
    match e {
        AppError::NotFound(_) => 404,
        AppError::Validation(_) => 400,
        AppError::Unauthorized(_) => 401,
        AppError::Internal(_) => 500,
    }
}

pub open spec fn category_of(e: AppError) -> Seq<char> {
    match e {
        AppError::NotFound(_) => "Not Found"@,
        AppError::Validation(_) => "Validation Error"@,
        AppError::Unauthorized(_) => "Unauthorized"@,
        AppError::Internal(_) => "Internal Server Error"@,
    }
}

impl AppError {
    /// The HTTP status code that this error is answered with.
    pub fn status_code(&self) -> (r: u16)
        ensures
            r == status_of(*self),
    {
        match self {
            AppError::NotFound(_) => 404,
            AppError::Validation(_) => 400,
            AppError::Unauthorized(_) => 401,
            AppError::Internal(_) => 500,
        }
    }

    /// The `error` field of the JSON error body.
    pub fn category(&self) -> (r: &'static str)
        ensures
            r@ == category_of(*self),
    {
        proof {
            reveal_strlit("Not Found");
            reveal_strlit("Validation Error");
            reveal_strlit("Unauthorized");
            reveal_strlit("Internal Server Error");
        }
        match self {
            AppError::NotFound(_) => "Not Found",
            AppError::Validation(_) => "Validation Error",
            AppError::Unauthorized(_) => "Unauthorized",
            AppError::Internal(_) => "Internal Server Error",
        }
    }

    /// The `message` field of the JSON error body.
    pub fn message(&self) -> (r: String)
        ensures
            match *self {
                AppError::NotFound(m) => r@ == m@,
                AppError::Validation(m) => r@ == m@,
                AppError::Unauthorized(m) => r@ == m@,
                AppError::Internal(_) => r@ == INTERNAL_MESSAGE@,
            },
    {
        match self {
            AppError::NotFound(m) => m.clone(),
            AppError::Validation(m) => m.clone(),
            AppError::Unauthorized(m) => m.clone(),
            AppError::Internal(_) => String::from_str(INTERNAL_MESSAGE),
        }
    }
}

} // verus!
