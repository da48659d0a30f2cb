//! Internal errors, the client-safe error kinds, and the single table that
//! maps the first onto the second together with an HTTP status.

use vstd::prelude::*;

verus! {

/// The precise internal failure of a request. It travels unchanged to the
/// HTTP boundary and is never shown to a client.
#[derive(Debug, Clone, Copy, PartialEq, Eq, Structural)]
pub enum Error {
    /// The login credentials were not the accepted pair.
    LoginFail,
    /// The request carried no session cookie.
    AuthFailNoAuthTokenCookie,
    /// The session cookie did not hold a well-formed token.
    AuthFailTokenWrongFormat,
    /// No context resolution was recorded for the request.
    AuthFailContextNotInRequestExtension,
    /// No live ticket has the given id.
    RecordDeleteFailIdNotFound { id: u64 },
    /// Any failure of the storage or of a service behind it.
    ServiceFail,
}

/// What a client is told about a failure: a small, stable set of kinds.
#[allow(non_camel_case_types)]
#[derive(Debug, Clone, Copy, PartialEq, Eq, Structural)]
pub enum ClientError {
    LOGIN_FAILED,
    NO_AUTH,
    INVALID_PARAMS,
    SERVICE_ERROR,
}

/// The HTTP statuses that an error response can carry.
#[derive(Debug, Clone, Copy, PartialEq, Eq, Structural)]
pub enum HttpStatus {
    Forbidden,
    NotFound,
    InternalServerError,
}

impl HttpStatus {
    /// The numeric status code.
    pub open spec fn code(self) -> u16 {
        match self {
            HttpStatus::Forbidden => 403,
            HttpStatus::NotFound => 404,
            HttpStatus::InternalServerError => 500,
        }
    }

    /// The numeric status code, as it goes on the wire.
    pub fn as_u16(&self) -> (code: u16)
        ensures
            code == self.code(),
    {
        match self {
            HttpStatus::Forbidden => 403,
            HttpStatus::NotFound => 404,
            HttpStatus::InternalServerError => 500,
        }
    }
}

impl ClientError {
    /// The identifier of this kind as a sequence of characters.
    pub open spec fn name(self) -> Seq<char> {
        match self {
            ClientError::LOGIN_FAILED => "LOGIN_FAILED"@,
            ClientError::NO_AUTH => "NO_AUTH"@,
            ClientError::INVALID_PARAMS => "INVALID_PARAMS"@,
            ClientError::SERVICE_ERROR => "SERVICE_ERROR"@,
        }
    }

    /// The identifier that stands in the `type` field of an error body.
    pub fn as_str(&self) -> (s: &'static str)
        ensures
            s@ == self.name(),
    {
        match self {
            ClientError::LOGIN_FAILED => "LOGIN_FAILED",
            ClientError::NO_AUTH => "NO_AUTH",
            ClientError::INVALID_PARAMS => "INVALID_PARAMS",
            ClientError::SERVICE_ERROR => "SERVICE_ERROR",
        }
    }
}

impl Error {
    /// The name of the variant as a sequence of characters.
    pub open spec fn name(self) -> Seq<char> {
        match self {
            Error::LoginFail => "LoginFail"@,
            Error::AuthFailNoAuthTokenCookie => "AuthFailNoAuthTokenCookie"@,
            Error::AuthFailTokenWrongFormat => "AuthFailTokenWrongFormat"@,
            Error::AuthFailContextNotInRequestExtension => "AuthFailContextNotInRequestExtension"@,
            Error::RecordDeleteFailIdNotFound { .. } => "RecordDeleteFailIdNotFound"@,
            Error::ServiceFail => "ServiceFail"@,
        }
    }

    /// The status and client-safe kind of each error: the one table that the
    /// response mapper consults.
    pub open spec fn status_and_client_error(self) -> (HttpStatus, ClientError) {
        match self {
            Error::LoginFail => (HttpStatus::Forbidden, ClientError::LOGIN_FAILED),
            Error::AuthFailNoAuthTokenCookie
            | Error::AuthFailTokenWrongFormat
            | Error::AuthFailContextNotInRequestExtension => (
                HttpStatus::Forbidden,
                ClientError::NO_AUTH,
            ),
            Error::RecordDeleteFailIdNotFound { .. } => (HttpStatus::NotFound, ClientError::NO_AUTH),
            Error::ServiceFail => (HttpStatus::InternalServerError, ClientError::SERVICE_ERROR),
        }
    }

    /// True for the three failures of context resolution.
    pub open spec fn is_auth_failure(self) -> bool {
        self is AuthFailNoAuthTokenCookie || self is AuthFailTokenWrongFormat
            || self is AuthFailContextNotInRequestExtension
    }

    /// The name of the variant, as the request log records it.
    pub fn as_str(&self) -> (s: &'static str)
        ensures
            s@ == self.name(),
    {
        match self {
            Error::LoginFail => "LoginFail",
            Error::AuthFailNoAuthTokenCookie => "AuthFailNoAuthTokenCookie",
            Error::AuthFailTokenWrongFormat => "AuthFailTokenWrongFormat",
            Error::AuthFailContextNotInRequestExtension => "AuthFailContextNotInRequestExtension",
            Error::RecordDeleteFailIdNotFound { .. } => "RecordDeleteFailIdNotFound",
            Error::ServiceFail => "ServiceFail",
        }
    }

    /// Maps the error to the HTTP status and the client-safe kind of the
    /// table. Total, and without any effect.
    pub fn client_status_and_error(&self) -> (r: (HttpStatus, ClientError))
        ensures
            r == self.status_and_client_error(),
    {
        match self {
            Error::LoginFail => (HttpStatus::Forbidden, ClientError::LOGIN_FAILED),
            Error::AuthFailContextNotInRequestExtension
            | Error::AuthFailNoAuthTokenCookie
            | Error::AuthFailTokenWrongFormat => (HttpStatus::Forbidden, ClientError::NO_AUTH),
            Error::RecordDeleteFailIdNotFound { .. } => (HttpStatus::NotFound, ClientError::NO_AUTH),
            Error::ServiceFail => (HttpStatus::InternalServerError, ClientError::SERVICE_ERROR),
        }
    }
}

/// The mapping is a function of the error alone: equal errors give equal
/// status and client error, however often it is asked.
pub proof fn lemma_mapping_is_deterministic(a: Error, b: Error)
    requires
        a == b,
    ensures
        a.status_and_client_error() == b.status_and_client_error(),
{
}

/// The mapping gives every error one of the three statuses, and never the
/// kind `INVALID_PARAMS`; what it gives does not depend on the id that a
/// missing-ticket error carries.
pub proof fn lemma_mapping_is_total_and_hides_detail(e: Error, id1: u64, id2: u64)
    ensures
        e.status_and_client_error().0.code() == 403 || e.status_and_client_error().0.code() == 404
            || e.status_and_client_error().0.code() == 500,
        e.status_and_client_error().1 != ClientError::INVALID_PARAMS,
        e.is_auth_failure() ==> e.status_and_client_error() == (
            HttpStatus::Forbidden,
            ClientError::NO_AUTH,
        ),
        (Error::RecordDeleteFailIdNotFound { id: id1 }).status_and_client_error() == (
            Error::RecordDeleteFailIdNotFound { id: id2 }
        ).status_and_client_error(),
{
}

} // verus!
