//! The errors that reach a caller, each with a stable discriminant, a
//! message for people and the HTTP status it is answered with.

use vstd::prelude::*;
use vstd::string::StringExecFns;

verus! {

/// Where in a request a malformed part was found.
#[derive(Debug, Clone, Copy, PartialEq, Eq, Structural)]
pub enum RequestScope {
    Body,
    Query,
    Header,
    Path,
}

impl RequestScope {
    /// The name under which the scope is reported.
    pub open spec fn name_text(self) -> Seq<char> {
        match self {
            RequestScope::Body => "body"@,
            RequestScope::Query => "query"@,
            RequestScope::Header => "header"@,
            RequestScope::Path => "path"@,
        }
    }

    pub fn name(&self) -> (s: &'static str)
        ensures
            s@ == self.name_text(),
    {
        match self {
            RequestScope::Body => "body",
            RequestScope::Query => "query",
            RequestScope::Header => "header",
            RequestScope::Path => "path",
        }
    }
}

/// Everything that can go wrong for a caller.
#[derive(Debug, Clone)]
pub enum APIError {
    InternalError { message: String },
    LoginAlreadyPresent,
    InvalidCredentials,
    InvalidToken,
    TokenExpired,
    NoTokenPresent,
    TokenRevoked,
    BadRequest { message: String, scope: Option<RequestScope> },
    PayloadTooLarge,
    LessonDosNotExist,
    NoReadAccess,
    NoWriteAccess,
}

/// An `APIError` without its texts as strings: what contracts compare.
pub enum APIErrorView {
    InternalError { message: Seq<char> },
    LoginAlreadyPresent,
    InvalidCredentials,
    InvalidToken,
    TokenExpired,
    NoTokenPresent,
    TokenRevoked,
    BadRequest { message: Seq<char>, scope: Option<RequestScope> },
    PayloadTooLarge,
    LessonDosNotExist,
    NoReadAccess,
    NoWriteAccess,
}

impl View for APIError {
    type V = APIErrorView;

    open spec fn view(&self) -> APIErrorView {
        match self {
            APIError::InternalError { message } => APIErrorView::InternalError {
                message: message@,
            },
            APIError::LoginAlreadyPresent => APIErrorView::LoginAlreadyPresent,
            APIError::InvalidCredentials => APIErrorView::InvalidCredentials,
            APIError::InvalidToken => APIErrorView::InvalidToken,
            APIError::TokenExpired => APIErrorView::TokenExpired,
            APIError::NoTokenPresent => APIErrorView::NoTokenPresent,
            APIError::TokenRevoked => APIErrorView::TokenRevoked,
            APIError::BadRequest { message, scope } => APIErrorView::BadRequest {
                message: message@,
                scope: *scope,
            },
            APIError::PayloadTooLarge => APIErrorView::PayloadTooLarge,
            APIError::LessonDosNotExist => APIErrorView::LessonDosNotExist,
            APIError::NoReadAccess => APIErrorView::NoReadAccess,
            APIError::NoWriteAccess => APIErrorView::NoWriteAccess,
        }
    }
}

impl APIErrorView {
    /// The HTTP status that answers the error.
    pub open spec fn status(self) -> u16 {
        match self {
            APIErrorView::InternalError { .. } => 500,
            APIErrorView::LessonDosNotExist => 404,
            APIErrorView::InvalidCredentials
            | APIErrorView::InvalidToken
            | APIErrorView::TokenExpired
            | APIErrorView::TokenRevoked
            | APIErrorView::NoTokenPresent
            | APIErrorView::LoginAlreadyPresent => 401,
            APIErrorView::BadRequest { .. } => 400,
            APIErrorView::NoReadAccess | APIErrorView::NoWriteAccess => 403,
            APIErrorView::PayloadTooLarge => 413,
        }
    }

    /// The machine-readable discriminant of the error.
    pub open spec fn discriminant(self) -> Seq<char> {
        match self {
            APIErrorView::InternalError { .. } => "internal_error"@,
            APIErrorView::LoginAlreadyPresent => "login_already_present"@,
            APIErrorView::InvalidCredentials => "invalid_credentials"@,
            APIErrorView::InvalidToken => "invalid_token"@,
            APIErrorView::TokenExpired => "token_expired"@,
            APIErrorView::NoTokenPresent => "no_token_present"@,
            APIErrorView::TokenRevoked => "token_revoked"@,
            APIErrorView::BadRequest { .. } => "bad_request"@,
            APIErrorView::PayloadTooLarge => "payload_too_large"@,
            APIErrorView::LessonDosNotExist => "lesson_dos_not_exist"@,
            APIErrorView::NoReadAccess => "no_read_access"@,
            APIErrorView::NoWriteAccess => "no_write_access"@,
        }
    }

    /// The message for people.
    pub open spec fn message(self) -> Seq<char> {
        match self {
            APIErrorView::InternalError { message } => "Internal server error ("@ + message
                + ")"@,
            APIErrorView::LoginAlreadyPresent => "Login already present"@,
            APIErrorView::InvalidCredentials => "Invalid credentials"@,
            APIErrorView::InvalidToken => "Invalid token"@,
            APIErrorView::TokenExpired => "Token expired"@,
            APIErrorView::NoTokenPresent => "No token present"@,
            APIErrorView::TokenRevoked => "Token revoked"@,
            APIErrorView::BadRequest { .. } => "Bad request"@,
            APIErrorView::PayloadTooLarge => "Payload too large"@,
            APIErrorView::LessonDosNotExist => "Lesson does not exist"@,
            APIErrorView::NoReadAccess => "No read access"@,
            APIErrorView::NoWriteAccess => "No write access"@,
        }
    }
}

impl APIError {
    /// The HTTP status that answers the error.
    pub fn status_code(&self) -> (code: u16)
        ensures
            code == self@.status(),
    {
        match self {
            APIError::InternalError { message: _ } => 500,
            APIError::LessonDosNotExist => 404,
            APIError::InvalidCredentials
            | APIError::InvalidToken
            | APIError::TokenExpired
            | APIError::TokenRevoked
            | APIError::NoTokenPresent
            | APIError::LoginAlreadyPresent => 401,
            APIError::BadRequest { message: _, scope: _ } => 400,
            APIError::NoReadAccess | APIError::NoWriteAccess => 403,
            APIError::PayloadTooLarge => 413,
        }
    }

    /// The machine-readable discriminant of the error. It depends on the
    /// kind of the error alone, never on a text inside it.
    pub fn discriminant(&self) -> (s: &'static str)
        ensures
            s@ == self@.discriminant(),
    {
        match self {
            APIError::InternalError { message: _ } => "internal_error",
            APIError::LoginAlreadyPresent => "login_already_present",
            APIError::InvalidCredentials => "invalid_credentials",
            APIError::InvalidToken => "invalid_token",
            APIError::TokenExpired => "token_expired",
            APIError::NoTokenPresent => "no_token_present",
            APIError::TokenRevoked => "token_revoked",
            APIError::BadRequest { message: _, scope: _ } => "bad_request",
            APIError::PayloadTooLarge => "payload_too_large",
            APIError::LessonDosNotExist => "lesson_dos_not_exist",
            APIError::NoReadAccess => "no_read_access",
            APIError::NoWriteAccess => "no_write_access",
        }
    }

    /// The message for people.
    pub fn message(&self) -> (s: String)
        ensures
            s@ == self@.message(),
    {
        match self {
            APIError::InternalError { message } => {
                let mut text = "Internal server error (".to_owned();
                text.append(message.as_str());
                text.append(")");
                text
            },
            APIError::LoginAlreadyPresent => "Login already present".to_owned(),
            APIError::InvalidCredentials => "Invalid credentials".to_owned(),
            APIError::InvalidToken => "Invalid token".to_owned(),
            APIError::TokenExpired => "Token expired".to_owned(),
            APIError::NoTokenPresent => "No token present".to_owned(),
            APIError::TokenRevoked => "Token revoked".to_owned(),
            APIError::BadRequest { message: _, scope: _ } => "Bad request".to_owned(),
            APIError::PayloadTooLarge => "Payload too large".to_owned(),
            APIError::LessonDosNotExist => "Lesson does not exist".to_owned(),
            APIError::NoReadAccess => "No read access".to_owned(),
            APIError::NoWriteAccess => "No write access".to_owned(),
        }
    }

    /// An internal error that carries the text of a failure below the
    /// library: a store that cannot be reached, a query that fails.
    pub fn internal(message: String) -> (e: APIError)
        ensures
            e@ == (APIErrorView::InternalError { message: message@ }),
    {
        APIError::InternalError { message }
    }
}

/// Why the body of a request could not be taken as JSON.
#[derive(Debug, Clone)]
pub enum JsonPayloadFailure {
    /// The body is longer than the limit.
    Overflow,
    /// The body does not hold what was asked for; the text says why.
    Deserialize(String),
    /// Anything else; the text says what.
    Other(String),
}

/// The error for a body that could not be taken as JSON: too long a body is
/// `PayloadTooLarge`, everything else a bad request in the body with the
/// failure's text.
pub fn json_error_handler(error: JsonPayloadFailure) -> (e: APIError)
    ensures
        e@ == match error {
            JsonPayloadFailure::Overflow => APIErrorView::PayloadTooLarge,
            JsonPayloadFailure::Deserialize(text) => APIErrorView::BadRequest {
                message: text@,
                scope: Some(RequestScope::Body),
            },
            JsonPayloadFailure::Other(text) => APIErrorView::BadRequest {
                message: text@,
                scope: Some(RequestScope::Body),
            },
        },
{
    match error {
        JsonPayloadFailure::Overflow => APIError::PayloadTooLarge,
        JsonPayloadFailure::Deserialize(text) => APIError::BadRequest {
            message: text,
            scope: Some(RequestScope::Body),
        },
        JsonPayloadFailure::Other(text) => APIError::BadRequest {
            message: text,
            scope: Some(RequestScope::Body),
        },
    }
}

/// The error for a path whose parameters could not be read: a bad request
/// in the path, with the failure's text.
pub fn path_error_handler(message: String) -> (e: APIError)
    ensures
        e@ == (APIErrorView::BadRequest { message: message@, scope: Some(RequestScope::Path) }),
{
    APIError::BadRequest { message, scope: Some(RequestScope::Path) }
}

/// The error for a query string that could not be read: a bad request in
/// the query, with the failure's text.
pub fn query_error_handler(message: String) -> (e: APIError)
    ensures
        e@ == (APIErrorView::BadRequest { message: message@, scope: Some(RequestScope::Query) }),
{
    APIError::BadRequest { message, scope: Some(RequestScope::Query) }
}

} // verus!
