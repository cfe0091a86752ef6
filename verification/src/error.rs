//! Errors: of the store, of the services, and as the HTTP layer answers them.

use vstd::prelude::*;
use vstd::string::*;
use vstd::std_specs::convert::FromSpec;
use crate::jwt::JwtError;

verus! {

/// A failed store operation: no matching row, or any other failure with
/// its text.
#[derive(Debug, Clone, PartialEq, Eq)]
pub enum DbError {
    NotFound,
    Other(String),
}

/// Domain errors that flow from the store through the services to the
/// HTTP layer.
#[derive(Debug, Clone, PartialEq, Eq)]
pub enum ServiceError {
    NotFound(String),
    Unauthorized(String),
    Forbidden(String),
    UnprocessableEntity(String),
    Internal(String),
}

/// The service's result type.
pub type Result<T> = core::result::Result<T, ServiceError>;

/// The message given for a row that was not found.
pub open spec fn resource_not_found() -> Seq<char> {
    "Resource not found"@
}

impl ServiceError {
    /// Whether `self` is the service error for the failed store operation
    /// `e`: `NotFound("Resource not found")` for a missing row, `Internal`
    /// with the failure's text for any other.
    pub open spec fn is_from_db(self, e: DbError) -> bool {
        match e {
            DbError::NotFound => self matches ServiceError::NotFound(m) && m@ == resource_not_found(),
            DbError::Other(t) => self == ServiceError::Internal(t),
        }
    }

    /// The service error for a failed store operation: a missing row is
    /// `NotFound("Resource not found")`, any other failure is `Internal`
    /// with the failure's text.
    pub fn from_db(e: DbError) -> (r: ServiceError)
        ensures
            r.is_from_db(e),
    {
        match e {
            DbError::NotFound => {
                let m = String::from_str("Resource not found");
                ServiceError::NotFound(m)
            },
            DbError::Other(m) => ServiceError::Internal(m),
        }
    }

    /// The service error for a failed hashing, given the hashing error's
    /// text: `Internal` with that text.
    pub fn from_password_hash(text: String) -> (r: ServiceError)
        ensures
            r == ServiceError::Internal(text),
    {
        ServiceError::Internal(text)
    }

    /// The service error for a token that could not be checked:
    /// `Unauthorized` with the error's text.
    pub fn from_jwt(e: JwtError) -> (r: ServiceError)
        ensures
            r matches ServiceError::Unauthorized(m) && m@ == e.text(),
    {
        ServiceError::Unauthorized(e.to_text())
    }

    /// The error's text: its kind, a colon and its message.
    pub fn to_text(&self) -> (r: String)
        ensures
            r@ == self.text(),
    {
        let (prefix, m) = match self {
            ServiceError::NotFound(m) => ("not found: ", m),
            ServiceError::Unauthorized(m) => ("unauthorized: ", m),
            ServiceError::Forbidden(m) => ("forbidden: ", m),
            ServiceError::UnprocessableEntity(m) => ("unprocessable entity: ", m),
            ServiceError::Internal(m) => ("internal server error: ", m),
        };
        let mut out = String::from_str(prefix);
        out.append(m.as_str());
        out
    }

    /// The error's text: its kind, a colon and its message.
    pub open spec fn text(&self) -> Seq<char> {
        match self {
            ServiceError::NotFound(m) => "not found: "@ + m@,
            ServiceError::Unauthorized(m) => "unauthorized: "@ + m@,
            ServiceError::Forbidden(m) => "forbidden: "@ + m@,
            ServiceError::UnprocessableEntity(m) => "unprocessable entity: "@ + m@,
            ServiceError::Internal(m) => "internal server error: "@ + m@,
        }
    }
}

/// The HTTP layer's error: one variant per status it answers with.
#[derive(Debug, Clone, PartialEq, Eq)]
pub enum AppError {
    NotFound(String),
    Unauthorized(String),
    Forbidden(String),
    UnprocessableEntity(String),
    Internal(String),
}

impl From<ServiceError> for AppError {
    fn from(e: ServiceError) -> (r: AppError) {
        match e {
            ServiceError::NotFound(m) => AppError::NotFound(m),
            ServiceError::Unauthorized(m) => AppError::Unauthorized(m),
            ServiceError::Forbidden(m) => AppError::Forbidden(m),
            ServiceError::UnprocessableEntity(m) => AppError::UnprocessableEntity(m),
            ServiceError::Internal(m) => AppError::Internal(m),
        }
    }
}

impl vstd::std_specs::convert::FromSpecImpl<ServiceError> for AppError {
    open spec fn obeys_from_spec() -> bool {
        true
    }

    open spec fn from_spec(e: ServiceError) -> AppError {
        match e {
            ServiceError::NotFound(m) => AppError::NotFound(m),
            ServiceError::Unauthorized(m) => AppError::Unauthorized(m),
            ServiceError::Forbidden(m) => AppError::Forbidden(m),
            ServiceError::UnprocessableEntity(m) => AppError::UnprocessableEntity(m),
            ServiceError::Internal(m) => AppError::Internal(m),
        }
    }
}

/// The body message of an internal error: its detail is not shown.
pub open spec fn internal_error_message() -> Seq<char> {
    "internal server error"@
}

impl AppError {
    /// The HTTP status of the error.
    pub open spec fn status(&self) -> u16 {
        match self {
            AppError::NotFound(_) => 404,
            AppError::Unauthorized(_) => 401,
            AppError::Forbidden(_) => 403,
            AppError::UnprocessableEntity(_) => 422,
            AppError::Internal(_) => 500,
        }
    }

    /// The message the response body carries: the error's own message,
    /// except for an internal error.
    pub open spec fn message(&self) -> Seq<char> {
        match self {
            AppError::NotFound(m) => m@,
            AppError::Unauthorized(m) => m@,
            AppError::Forbidden(m) => m@,
            AppError::UnprocessableEntity(m) => m@,
            AppError::Internal(_) => internal_error_message(),
        }
    }

    /// The HTTP status of the error.
    pub fn status_code(&self) -> (r: u16)
        ensures
            r == self.status(),
    {
        match self {
            AppError::NotFound(_) => 404,
            AppError::Unauthorized(_) => 401,
            AppError::Forbidden(_) => 403,
            AppError::UnprocessableEntity(_) => 422,
            AppError::Internal(_) => 500,
        }
    }

    /// The status and message of the response: `{"code": status, "message":
    /// message}` is its body. An internal error's detail stays out of it.
    pub fn response_parts(&self) -> (r: (u16, String))
        ensures
            r.0 == self.status(),
            r.1@ == self.message(),
    {
        let m = match self {
            AppError::NotFound(m) => m.clone(),
            AppError::Unauthorized(m) => m.clone(),
            AppError::Forbidden(m) => m.clone(),
            AppError::UnprocessableEntity(m) => m.clone(),
            AppError::Internal(_) => String::from_str("internal server error"),
        };
        (self.status_code(), m)
    }

    /// The error's text: its kind, a colon and its message, detail included.
    pub open spec fn text(&self) -> Seq<char> {
        match self {
            AppError::NotFound(m) => "not found: "@ + m@,
            AppError::Unauthorized(m) => "unauthorized: "@ + m@,
            AppError::Forbidden(m) => "forbidden: "@ + m@,
            AppError::UnprocessableEntity(m) => "unprocessable entity: "@ + m@,
            AppError::Internal(m) => "internal: "@ + m@,
        }
    }

    /// The error's text: its kind, a colon and its message, detail included.
    pub fn to_text(&self) -> (r: String)
        ensures
            r@ == self.text(),
    {
        let (prefix, m) = match self {
            AppError::NotFound(m) => ("not found: ", m),
            AppError::Unauthorized(m) => ("unauthorized: ", m),
            AppError::Forbidden(m) => ("forbidden: ", m),
            AppError::UnprocessableEntity(m) => ("unprocessable entity: ", m),
            AppError::Internal(m) => ("internal: ", m),
        };
        let mut out = String::from_str(prefix);
        out.append(m.as_str());
        out
    }
}

/// Turning a service error into an HTTP error keeps its kind and message,
/// and the response shows that message for every kind but an internal error.
pub proof fn law_service_error_response(e: ServiceError)
    ensures
        ({
            let a = AppError::from_spec(e);
            match e {
                ServiceError::NotFound(m) => a.status() == 404 && a.message() == m@,
                ServiceError::Unauthorized(m) => a.status() == 401 && a.message() == m@,
                ServiceError::Forbidden(m) => a.status() == 403 && a.message() == m@,
                ServiceError::UnprocessableEntity(m) => a.status() == 422 && a.message() == m@,
                ServiceError::Internal(_) => a.status() == 500 && a.message()
                    == internal_error_message(),
            }
        }),
{
}

} // verus!
