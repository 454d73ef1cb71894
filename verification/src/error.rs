//! The server's error type and the HTTP response each error is answered with.
use vstd::prelude::*;
use vstd::string::*;

verus! {

/// One failed validation rule of a form field.
#[derive(Debug)]
pub struct FieldError {
    /// The name of the field.
    pub field: String,
    /// The rule that failed (`length`, `regex`, `email`).
    pub code: String,
    /// The message configured for the rule, if any.
    pub message: Option<String>,
}

/// Combined error enum for converting errors into responses. Variants that
/// wrap an error of another component carry that error's message.
#[derive(Debug)]
pub enum Error {
    Argon2,
    Askama(String),
    Fetch,
    HttpSignatures(String),
    InvalidRequest,
    MalformedUrl,
    Unauthorized,
    Pkcs8(String),
    Reqwest(String),
    ReqwestInvalidHeaderValue(String),
    Rsa(String),
    Sqlx(String),
    SqlxMigration(String),
    SerdeJson(String),
    UnexpectedWebfingerResource,
    UnknownActivity,
    UrlParse(String),
    Uuid(String),
    Validation(Vec<FieldError>),
}

/// The body of an error response.
#[derive(Debug)]
pub enum ErrorBody {
    /// The error's message as plain text.
    Text(String),
    /// The failed validation rules, to be sent as JSON.
    Validation(Vec<FieldError>),
    /// No body.
    Empty,
}

/// The HTTP response an error is answered with.
#[derive(Debug)]
pub struct ErrorResponse {
    pub status: u16,
    pub body: ErrorBody,
    /// Whether the error is logged as an internal error.
    pub logged: bool,
}

/// The text of an error (its `Display`).
pub open spec fn error_message(e: Error) -> Seq<char> {
    match e {
        Error::Argon2 => "argon2 operation failed"@,
        Error::Askama(d) => "Template formatting failed: "@ + d@,
        Error::Fetch => "Remote content fetch failed"@,
        Error::HttpSignatures(d) => "HTTP signature operation failed: "@ + d@,
        Error::InvalidRequest => "Invalid request"@,
        Error::MalformedUrl => "Malformed URL"@,
        Error::Unauthorized => "Unauthorized"@,
        Error::Pkcs8(d) => "PKCS#8 operation failed: "@ + d@,
        Error::Reqwest(d) => "reqwest operation failed: "@ + d@,
        Error::ReqwestInvalidHeaderValue(d) => "Invalid reqwest HeaderValue: "@ + d@,
        Error::Rsa(d) => "RSA operation failed: "@ + d@,
        Error::Sqlx(d) => "Database operation failed: "@ + d@,
        Error::SqlxMigration(d) => "Database migration failed: "@ + d@,
        Error::SerdeJson(d) => "serde-json operation failed: "@ + d@,
        Error::UnexpectedWebfingerResource => "Unexpected webfinger resource"@,
        Error::UnknownActivity => "Unknown activity"@,
        Error::UrlParse(d) => "URL couldn't be parsed: "@ + d@,
        Error::Uuid(d) => "UUID operation failed: "@ + d@,
        Error::Validation(_) => "Validation error"@,
    }
}

/// The status code an error is answered with.
pub open spec fn error_status(e: Error) -> u16 {
    match e {
        Error::InvalidRequest | Error::UnknownActivity | Error::MalformedUrl | Error::Uuid(_) => 400,
        Error::Validation(_) => 400,
        Error::Unauthorized => 401,
        _ => 500,
    }
}

/// Whether the error is one of the internal errors that are logged.
pub open spec fn error_logged(e: Error) -> bool {
    match e {
        Error::Argon2 | Error::Pkcs8(_) | Error::Sqlx(_) | Error::SqlxMigration(_) | Error::Rsa(_) => true,
        _ => false,
    }
}

/// The errors a client caused: a malformed or unknown request.
pub open spec fn is_client_error(e: Error) -> bool {
    e is InvalidRequest || e is UnknownActivity || e is MalformedUrl || e is Uuid || e is Validation
}

/// Client errors are answered with 400 and what went wrong (their text, or
/// the failed rules), never logged; `Unauthorized` with 401 and its text;
/// every other error with 500 and no body.
pub proof fn law_client_errors_are_bad_requests(e: Error)
    ensures
        is_client_error(e) ==> error_status(e) == 400 && !error_logged(e),
        e is Unauthorized ==> error_status(e) == 401 && !error_logged(e),
        !is_client_error(e) && !(e is Unauthorized) ==> error_status(e) == 500,
        e is UnknownActivity ==> error_message(e) == "Unknown activity"@,
        e is InvalidRequest ==> error_message(e) == "Invalid request"@,
        e is MalformedUrl ==> error_message(e) == "Malformed URL"@,
{
}

impl Error {
    /// The text of the error.
    pub fn message(&self) -> (r: String)
        ensures
            r@ == error_message(*self),
    {
        match self {
            Error::Argon2 => String::from_str("argon2 operation failed"),
            Error::Askama(d) => String::from_str("Template formatting failed: ").concat(d.as_str()),
            Error::Fetch => String::from_str("Remote content fetch failed"),
            Error::HttpSignatures(d) => String::from_str("HTTP signature operation failed: ").concat(d.as_str()),
            Error::InvalidRequest => String::from_str("Invalid request"),
            Error::MalformedUrl => String::from_str("Malformed URL"),
            Error::Unauthorized => String::from_str("Unauthorized"),
            Error::Pkcs8(d) => String::from_str("PKCS#8 operation failed: ").concat(d.as_str()),
            Error::Reqwest(d) => String::from_str("reqwest operation failed: ").concat(d.as_str()),
            Error::ReqwestInvalidHeaderValue(d) => String::from_str("Invalid reqwest HeaderValue: ").concat(d.as_str()),
            Error::Rsa(d) => String::from_str("RSA operation failed: ").concat(d.as_str()),
            Error::Sqlx(d) => String::from_str("Database operation failed: ").concat(d.as_str()),
            Error::SqlxMigration(d) => String::from_str("Database migration failed: ").concat(d.as_str()),
            Error::SerdeJson(d) => String::from_str("serde-json operation failed: ").concat(d.as_str()),
            Error::UnexpectedWebfingerResource => String::from_str("Unexpected webfinger resource"),
            Error::UnknownActivity => String::from_str("Unknown activity"),
            Error::UrlParse(d) => String::from_str("URL couldn't be parsed: ").concat(d.as_str()),
            Error::Uuid(d) => String::from_str("UUID operation failed: ").concat(d.as_str()),
            Error::Validation(_) => String::from_str("Validation error"),
        }
    }

    /// The response to the error: client errors carry their message (or, for
    /// validation errors, the failed rules); internal errors carry no body.
    pub fn into_response(self) -> (r: ErrorResponse)
        ensures
            r.status == error_status(self),
            r.logged == error_logged(self),
            match self {
                Error::Validation(errors) => r.body == ErrorBody::Validation(errors),
                _ => match r.body {
                    ErrorBody::Text(t) => error_status(self) != 500 && t@ == error_message(self),
                    ErrorBody::Empty => error_status(self) == 500,
                    ErrorBody::Validation(_) => false,
                },
            },
            is_client_error(self) ==> r.status == 400 && !r.logged && match self {
                Error::Validation(errors) => r.body == ErrorBody::Validation(errors),
                _ => (r.body matches ErrorBody::Text(t) && t@ == error_message(self)),
            },
            self is Unauthorized ==> r.status == 401 && !r.logged
                && (r.body matches ErrorBody::Text(t) && t@ == "Unauthorized"@),
            !is_client_error(self) && !(self is Unauthorized) ==> r.status == 500 && r.body is Empty,
    {
        let text = self.message();
        match self {
            Error::InvalidRequest | Error::UnknownActivity | Error::MalformedUrl | Error::Uuid(_) =>
                ErrorResponse { status: 400, body: ErrorBody::Text(text), logged: false },
            Error::Validation(errors) =>
                ErrorResponse { status: 400, body: ErrorBody::Validation(errors), logged: false },
            Error::Unauthorized =>
                ErrorResponse { status: 401, body: ErrorBody::Text(text), logged: false },
            Error::Argon2 | Error::Pkcs8(_) | Error::Sqlx(_) | Error::SqlxMigration(_) | Error::Rsa(_) =>
                ErrorResponse { status: 500, body: ErrorBody::Empty, logged: true },
            _ => ErrorResponse { status: 500, body: ErrorBody::Empty, logged: false },
        }
    }
}

} // verus!
