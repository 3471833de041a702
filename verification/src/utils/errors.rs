//! The error taxonomy of the service layer and its mapping to HTTP.

use vstd::prelude::*;
use vstd::string::*;

verus! {

/// Why an operation failed.
#[derive(Debug, Clone, PartialEq, Eq)]
pub enum AppError {
    /// The caller's input is invalid or breaks a uniqueness or linkage rule.
    BadRequest(String),
    /// A credential, token or one-time code did not verify.
    Unauthorized(String),
    /// No record has the requested identifier.
    NotFound(String),
    /// A dependency failed in a way the caller cannot mend.
    InternalError(String),
    /// The store failed; the text is the store's own account, kept for logs.
    DatabaseError(String),
}

/// Mathematical value of an [`AppError`].
pub enum AppErrorView {
    BadRequest(Seq<char>),
    Unauthorized(Seq<char>),
    NotFound(Seq<char>),
    InternalError(Seq<char>),
    DatabaseError(Seq<char>),
}

impl View for AppError {
    type V = AppErrorView;

    open spec fn view(&self) -> AppErrorView {
        match self {
            AppError::BadRequest(m) => AppErrorView::BadRequest(m@),
            AppError::Unauthorized(m) => AppErrorView::Unauthorized(m@),
            AppError::NotFound(m) => AppErrorView::NotFound(m@),
            AppError::InternalError(m) => AppErrorView::InternalError(m@),
            AppError::DatabaseError(m) => AppErrorView::DatabaseError(m@),
        }
    }
}

impl DeepView for AppError {
    type V = AppErrorView;

    open spec fn deep_view(&self) -> AppErrorView {
        self@
    }
}

/// A result with its error taken by its view.
pub open spec fn outcome_view<T>(outcome: Result<T, AppError>) -> Result<T, AppErrorView> {
    match outcome {
        Ok(value) => Ok(value),
        Err(error) => Err(error@),
    }
}

/// What is sent to an HTTP client for a failed request.
#[derive(Debug, Clone, PartialEq, Eq)]
pub struct ErrorResponse {
    /// HTTP status code.
    pub status: u16,
    /// Value of the `error` member of the JSON body.
    pub error: String,
}

impl AppErrorView {
    /// HTTP status code of the error kind.
    pub open spec fn status_code(self) -> int {
        match self {
            AppErrorView::BadRequest(_) => 400,
            AppErrorView::Unauthorized(_) => 401,
            AppErrorView::NotFound(_) => 404,
            AppErrorView::InternalError(_) => 500,
            AppErrorView::DatabaseError(_) => 500,
        }
    }

    /// Message shown to the client: the error's own text, except that the
    /// store's account of a failure is replaced by a fixed phrase.
    pub open spec fn public_message(self) -> Seq<char> {
        match self {
            AppErrorView::BadRequest(m) => m,
            AppErrorView::Unauthorized(m) => m,
            AppErrorView::NotFound(m) => m,
            AppErrorView::InternalError(m) => m,
            AppErrorView::DatabaseError(_) => "Database error"@,
        }
    }

    /// One-line rendering: the kind's label, a colon, and the text.
    pub open spec fn rendered(self) -> Seq<char> {
        match self {
            AppErrorView::BadRequest(m) => "Bad Request: "@ + m,
            AppErrorView::Unauthorized(m) => "Unauthorized: "@ + m,
            AppErrorView::NotFound(m) => "Not Found: "@ + m,
            AppErrorView::InternalError(m) => "Internal Error: "@ + m,
            AppErrorView::DatabaseError(m) => "Database Error: "@ + m,
        }
    }
}

impl AppError {
    /// HTTP status code that the error is reported with.
    pub fn status_code(&self) -> (code: u16)
        ensures
            code == self@.status_code(),
    {
        match self {
            AppError::BadRequest(_) => 400,
            AppError::Unauthorized(_) => 401,
            AppError::NotFound(_) => 404,
            AppError::InternalError(_) => 500,
            AppError::DatabaseError(_) => 500,
        }
    }

    /// Status code and client-facing message of the error. A store failure
    /// never leaks its detail: the client reads "Database error".
    pub fn into_response(self) -> (response: ErrorResponse)
        ensures
            response.status == self@.status_code(),
            response.error@ == self@.public_message(),
    {
        let status = self.status_code();
        let error = match self {
            AppError::BadRequest(m) => m,
            AppError::Unauthorized(m) => m,
            AppError::NotFound(m) => m,
            AppError::InternalError(m) => m,
            AppError::DatabaseError(_) => String::from_str("Database error"),
        };
        ErrorResponse { status, error }
    }

    /// The error as one line of text, as it is written to logs.
    pub fn to_string(&self) -> (text: String)
        ensures
            text@ == self@.rendered(),
    {
        match self {
            AppError::BadRequest(m) => String::from_str("Bad Request: ").concat(m.as_str()),
            AppError::Unauthorized(m) => String::from_str("Unauthorized: ").concat(m.as_str()),
            AppError::NotFound(m) => String::from_str("Not Found: ").concat(m.as_str()),
            AppError::InternalError(m) => String::from_str("Internal Error: ").concat(m.as_str()),
            AppError::DatabaseError(m) => String::from_str("Database Error: ").concat(m.as_str()),
        }
    }
}

} // verus!
