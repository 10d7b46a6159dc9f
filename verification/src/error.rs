//! The ways an operation can fail, and how each failure is shown to the
//! client.

use vstd::prelude::*;
use vstd::string::*;

verus! {

/// Why an operation failed.
///
/// `NotFound` and `BadRequest` carry the sentence shown to the client.
/// `Database` and `InternalServerError` carry detail that is meant for the
/// server's log only.
#[derive(Debug, PartialEq, Eq)]
pub enum AppError {
    /// The store failed; the text is what the store reported.
    Database(String),
    /// A referenced entity does not exist.
    NotFound(String),
    /// A rule of the registry forbids the request.
    BadRequest(String),
    /// A fault nobody planned for.
    InternalServerError(String),
    /// The request is malformed.
    ValidationError(String),
}

/// The view of an [`AppError`].
pub enum ErrorView {
    Database(Seq<char>),
    NotFound(Seq<char>),
    BadRequest(Seq<char>),
    InternalServerError(Seq<char>),
    ValidationError(Seq<char>),
}

impl View for AppError {
    type V = ErrorView;

    open spec fn view(&self) -> ErrorView {
        match self {
            AppError::Database(m) => ErrorView::Database(m@),
            AppError::NotFound(m) => ErrorView::NotFound(m@),
            AppError::BadRequest(m) => ErrorView::BadRequest(m@),
            AppError::InternalServerError(m) => ErrorView::InternalServerError(m@),
            AppError::ValidationError(m) => ErrorView::ValidationError(m@),
        }
    }
}

/// What the client receives for a failure: an HTTP status and a sentence.
#[derive(Debug, PartialEq, Eq)]
pub struct ErrorBody {
    pub status: u16,
    pub message: String,
}

impl ErrorView {
    /// The HTTP status of each failure.
    pub open spec fn status(self) -> u16 {
        match self {
            ErrorView::Database(_) => 500,
            ErrorView::NotFound(_) => 404,
            ErrorView::BadRequest(_) => 400,
            ErrorView::InternalServerError(_) => 500,
            ErrorView::ValidationError(_) => 422,
        }
    }

    /// The sentence shown to the client. Failures of the server itself are
    /// shown as one fixed sentence each, whatever their detail.
    pub open spec fn client_message(self) -> Seq<char> {
        match self {
            ErrorView::Database(_) => "Database error occurred"@,
            ErrorView::NotFound(m) => m,
            ErrorView::BadRequest(m) => m,
            ErrorView::InternalServerError(_) => "Internal server error"@,
            ErrorView::ValidationError(m) => m,
        }
    }

    /// The failure written out in full, detail included, as it goes to the
    /// log.
    pub open spec fn description(self) -> Seq<char> {
        match self {
            ErrorView::Database(m) => "Database error: "@ + m,
            ErrorView::NotFound(m) => "Not found: "@ + m,
            ErrorView::BadRequest(m) => "Bad request: "@ + m,
            ErrorView::InternalServerError(m) => "Internal server error: "@ + m,
            ErrorView::ValidationError(m) => "Validation error: "@ + m,
        }
    }

    /// The detail of a failure of the server itself is never part of what
    /// the client is shown.
    pub open spec fn is_server_fault(self) -> bool {
        self is Database || self is InternalServerError
    }
}

fn prefixed(head: &str, tail: &String) -> (s: String)
    ensures
        s@ == head@ + tail@,
{
    let mut s = String::from_str(head);
    s.append(tail.as_str());
    s
}

impl AppError {
    /// The HTTP status that answers this failure.
    pub fn status_code(&self) -> (code: u16)
        ensures
            code == self@.status(),
    {
        match self {
            AppError::Database(_) => 500,
            AppError::NotFound(_) => 404,
            AppError::BadRequest(_) => 400,
            AppError::InternalServerError(_) => 500,
            AppError::ValidationError(_) => 422,
        }
    }

    /// The sentence shown to the client.
    pub fn client_message(&self) -> (m: String)
        ensures
            m@ == self@.client_message(),
    {
        match self {
            AppError::Database(_) => String::from_str("Database error occurred"),
            AppError::NotFound(m) => m.clone(),
            AppError::BadRequest(m) => m.clone(),
            AppError::InternalServerError(_) => String::from_str("Internal server error"),
            AppError::ValidationError(m) => m.clone(),
        }
    }

    /// The failure written out in full, for the log.
    pub fn description(&self) -> (m: String)
        ensures
            m@ == self@.description(),
    {
        match self {
            AppError::Database(m) => prefixed("Database error: ", m),
            AppError::NotFound(m) => prefixed("Not found: ", m),
            AppError::BadRequest(m) => prefixed("Bad request: ", m),
            AppError::InternalServerError(m) => prefixed("Internal server error: ", m),
            AppError::ValidationError(m) => prefixed("Validation error: ", m),
        }
    }

    /// Tells whether the failure is the server's own, so that its detail
    /// belongs in the log and not in the answer.
    pub fn is_server_fault(&self) -> (r: bool)
        ensures
            r == self@.is_server_fault(),
    {
        match self {
            AppError::Database(_) => true,
            AppError::InternalServerError(_) => true,
            _ => false,
        }
    }

    /// What the client receives for this failure.
    pub fn body(&self) -> (b: ErrorBody)
        ensures
            b.status == self@.status(),
            b.message@ == self@.client_message(),
    {
        ErrorBody { status: self.status_code(), message: self.client_message() }
    }
}

impl Clone for AppError {
    fn clone(&self) -> (r: Self)
        ensures
            r@ == self@,
    {
        match self {
            AppError::Database(m) => AppError::Database(m.clone()),
            AppError::NotFound(m) => AppError::NotFound(m.clone()),
            AppError::BadRequest(m) => AppError::BadRequest(m.clone()),
            AppError::InternalServerError(m) => AppError::InternalServerError(m.clone()),
            AppError::ValidationError(m) => AppError::ValidationError(m.clone()),
        }
    }
}

} // verus!
