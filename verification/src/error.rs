//! Application errors and the request-scoped user identity.

use vstd::prelude::*;

use crate::text::push_str;

verus! {

#[verifier::external_type_specification]
#[verifier::external_body]
pub struct ExIoError(std::io::Error);

/// Calls `ToString::to_string` on a `std::io::Error`, which renders it through its
/// `Display` impl. The text can depend on the platform's message catalogue (for
/// operating-system errors) or on the inner error's own `Display`, so nothing is
/// claimed of it.
#[verifier::external_body]
fn io_error_text(e: &std::io::Error) -> String {
    e.to_string()
}

/// Application error type that converts to HTTP responses.
#[derive(Debug)]
pub enum AppError {
    /// 401 Unauthorized
    Unauthorized(String),
    /// 400 Bad Request
    BadRequest(String),
    /// 404 Not Found
    NotFound(String),
    /// 500 Internal Server Error
    Internal(String),
}

impl AppError {
    /// The message carried by the error.
    pub open spec fn message_of(&self) -> Seq<char> {
        match self {
            AppError::Unauthorized(m) => m@,
            AppError::BadRequest(m) => m@,
            AppError::NotFound(m) => m@,
            AppError::Internal(m) => m@,
        }
    }

    /// How the error reads to a person: its kind, a colon and the message.
    pub open spec fn display(&self) -> Seq<char> {
        match self {
            AppError::Unauthorized(m) => "Unauthorized: "@ + m@,
            AppError::BadRequest(m) => "Bad Request: "@ + m@,
            AppError::NotFound(m) => "Not Found: "@ + m@,
            AppError::Internal(m) => "Internal Error: "@ + m@,
        }
    }

    /// The HTTP status the error maps to.
    pub open spec fn status(&self) -> u16 {
        match self {
            AppError::Unauthorized(_) => 401,
            AppError::BadRequest(_) => 400,
            AppError::NotFound(_) => 404,
            AppError::Internal(_) => 500,
        }
    }

    /// The error as text, e.g. "Unauthorized: missing token".
    pub fn to_string(&self) -> (s: String)
        ensures
            s@ == self.display(),
    {
        let mut s = String::new();
        match self {
            AppError::Unauthorized(m) => {
                push_str(&mut s, "Unauthorized: ");
                push_str(&mut s, m.as_str());
            },
            AppError::BadRequest(m) => {
                push_str(&mut s, "Bad Request: ");
                push_str(&mut s, m.as_str());
            },
            AppError::NotFound(m) => {
                push_str(&mut s, "Not Found: ");
                push_str(&mut s, m.as_str());
            },
            AppError::Internal(m) => {
                push_str(&mut s, "Internal Error: ");
                push_str(&mut s, m.as_str());
            },
        }
        assert(s@ =~= self.display());
        s
    }

    /// The HTTP status code of the response for this error.
    pub fn status_code(&self) -> (code: u16)
        ensures
            code == self.status(),
    {
        match self {
            AppError::Unauthorized(_) => 401,
            AppError::BadRequest(_) => 400,
            AppError::NotFound(_) => 404,
            AppError::Internal(_) => 500,
        }
    }

    /// The message placed in the `{"error": ...}` body of the response.
    pub fn message(&self) -> (m: &str)
        ensures
            m@ == self.message_of(),
    {
        match self {
            AppError::Unauthorized(m) => m.as_str(),
            AppError::BadRequest(m) => m.as_str(),
            AppError::NotFound(m) => m.as_str(),
            AppError::Internal(m) => m.as_str(),
        }
    }
}

impl From<std::io::Error> for AppError {
    /// An I/O error becomes an internal error carrying the error's text.
    fn from(e: std::io::Error) -> (r: Self)
        ensures
            r is Internal,
    {
        AppError::Internal(io_error_text(&e))
    }
}

impl vstd::std_specs::convert::FromSpecImpl<std::io::Error> for AppError {
    /// The conversion has no spec-level result: the error's text is not a
    /// function of the error value.
    open spec fn obeys_from_spec() -> bool {
        false
    }

    open spec fn from_spec(e: std::io::Error) -> AppError {
        vstd::pervasive::arbitrary()
    }
}

/// Extension type for request-scoped user identity.
#[derive(Debug)]
pub struct UserIdExtension(pub String);

impl Clone for UserIdExtension {
    fn clone(&self) -> (r: Self)
        ensures
            r == *self,
    {
        UserIdExtension(self.0.clone())
    }
}

} // verus!
