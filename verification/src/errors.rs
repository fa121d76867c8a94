//! The error value that every fallible operation of the relay returns, and
//! the way it is shown to a client.

use vstd::prelude::*;
use vstd::string::StringExecFns;

verus! {

/// What went wrong. Variants that wrap a failure of a collaborator carry the
/// text that the collaborator gave for it.
#[derive(Debug, PartialEq, Eq)]
pub enum AppErrorType {
    ConfigurationError(String),
    DatabaseError(String),
    TokenEncodingError(String),
    EncodingError(String),
    PasswordWrongError,
    AuthorizationError(String),
    UserNotFound,
    ValidationError(String),
    InternalServerError,
    RedisError(String),
    TracingError(String),
}

/// The mathematical value of an [`AppErrorType`].
pub enum ErrorKind {
    Configuration(Seq<char>),
    Database(Seq<char>),
    TokenEncoding(Seq<char>),
    Encoding(Seq<char>),
    PasswordWrong,
    Authorization(Seq<char>),
    UserNotFound,
    Validation(Seq<char>),
    InternalServer,
    Redis(Seq<char>),
    Tracing(Seq<char>),
}

impl View for AppErrorType {
    type V = ErrorKind;

    open spec fn view(&self) -> ErrorKind {
        match self {
            AppErrorType::ConfigurationError(d) => ErrorKind::Configuration(d@),
            AppErrorType::DatabaseError(d) => ErrorKind::Database(d@),
            AppErrorType::TokenEncodingError(d) => ErrorKind::TokenEncoding(d@),
            AppErrorType::EncodingError(d) => ErrorKind::Encoding(d@),
            AppErrorType::PasswordWrongError => ErrorKind::PasswordWrong,
            AppErrorType::AuthorizationError(d) => ErrorKind::Authorization(d@),
            AppErrorType::UserNotFound => ErrorKind::UserNotFound,
            AppErrorType::ValidationError(d) => ErrorKind::Validation(d@),
            AppErrorType::InternalServerError => ErrorKind::InternalServer,
            AppErrorType::RedisError(d) => ErrorKind::Redis(d@),
            AppErrorType::TracingError(d) => ErrorKind::Tracing(d@),
        }
    }
}

/// The one-line description of an error kind.
pub open spec fn kind_text(kind: ErrorKind) -> Seq<char> {
    match kind {
        ErrorKind::Configuration(d) => "Configuration error occured: $"@ + d,
        ErrorKind::Database(d) => "Database error occured: "@ + d + "."@,
        ErrorKind::TokenEncoding(d) => "Token encoding error occured: "@ + d + "."@,
        ErrorKind::Encoding(d) => "Password encoding error occured: "@ + d + "."@,
        ErrorKind::PasswordWrong => "Password is wrong."@,
        ErrorKind::Authorization(d) => "Authorization error occured: "@ + d + "."@,
        ErrorKind::UserNotFound => "User not found."@,
        ErrorKind::Validation(d) => "Validation error occured: "@ + d + "."@,
        ErrorKind::InternalServer => "Internal server error occured."@,
        ErrorKind::Redis(_) => "Redis error occured."@,
        ErrorKind::Tracing(d) => "Tracing Subscriber error occured. "@ + d,
    }
}

/// The HTTP status under which an error kind is reported.
pub open spec fn kind_status(kind: ErrorKind) -> u16 {
    match kind {
        ErrorKind::Configuration(_) => 500,
        ErrorKind::Database(_) => 500,
        ErrorKind::TokenEncoding(_) => 401,
        ErrorKind::Encoding(_) => 500,
        ErrorKind::PasswordWrong => 401,
        ErrorKind::Authorization(_) => 401,
        ErrorKind::UserNotFound => 404,
        ErrorKind::Validation(_) => 400,
        ErrorKind::InternalServer => 500,
        ErrorKind::Redis(_) => 500,
        ErrorKind::Tracing(_) => 500,
    }
}

/// The text reported to the client for an error of the given kind that was
/// raised with the given message.
pub open spec fn response_text(kind: ErrorKind, message: Seq<char>) -> Seq<char> {
    match kind {
        ErrorKind::Configuration(d) => "Internal server error"@ + d,
        ErrorKind::Database(d) => "Internal server error. "@ + d,
        ErrorKind::TokenEncoding(d) => "Unauthorized. "@ + d,
        ErrorKind::Encoding(d) => "Encryption error. "@ + d,
        ErrorKind::PasswordWrong => "Unauthorized. Credentials are wrong. "@ + message,
        ErrorKind::Authorization(d) => "Unauthorized. "@ + d,
        ErrorKind::UserNotFound => "User not found. "@ + message,
        ErrorKind::Validation(d) => "Validation error. "@ + d,
        ErrorKind::InternalServer => "Internal server error. "@ + message,
        ErrorKind::Redis(d) => "Redis error. "@ + d,
        ErrorKind::Tracing(d) => "Tracing subscriber error. "@ + d,
    }
}

impl AppErrorType {
    /// The one-line description of this kind of error.
    pub fn describe(&self) -> (text: String)
        ensures
            text@ == kind_text(self@),
    {
        match self {
            AppErrorType::ConfigurationError(d) => String::from_str(
                "Configuration error occured: $",
            ).concat(d.as_str()),
            AppErrorType::DatabaseError(d) => String::from_str("Database error occured: ").concat(
                d.as_str(),
            ).concat("."),
            AppErrorType::TokenEncodingError(d) => String::from_str(
                "Token encoding error occured: ",
            ).concat(d.as_str()).concat("."),
            AppErrorType::EncodingError(d) => String::from_str(
                "Password encoding error occured: ",
            ).concat(d.as_str()).concat("."),
            AppErrorType::PasswordWrongError => String::from_str("Password is wrong."),
            AppErrorType::AuthorizationError(d) => String::from_str(
                "Authorization error occured: ",
            ).concat(d.as_str()).concat("."),
            AppErrorType::UserNotFound => String::from_str("User not found."),
            AppErrorType::ValidationError(d) => String::from_str(
                "Validation error occured: ",
            ).concat(d.as_str()).concat("."),
            AppErrorType::InternalServerError => String::from_str("Internal server error occured."),
            AppErrorType::RedisError(_) => String::from_str("Redis error occured."),
            AppErrorType::TracingError(d) => String::from_str(
                "Tracing Subscriber error occured. ",
            ).concat(d.as_str()),
        }
    }
}

/// An error of the relay: its kind and the message it was raised with.
#[derive(Debug, PartialEq, Eq)]
pub struct AppError {
    message: String,
    error_type: AppErrorType,
}

/// The mathematical value of an [`AppError`].
pub struct AppErrorView {
    pub message: Seq<char>,
    pub kind: ErrorKind,
}

impl View for AppError {
    type V = AppErrorView;

    closed spec fn view(&self) -> AppErrorView {
        AppErrorView { message: self.message@, kind: self.error_type@ }
    }
}

/// What a client is told about an error: a status code and a text.
#[derive(Debug, PartialEq, Eq)]
pub struct ErrorResponse {
    pub status: u16,
    pub error: String,
}

impl AppError {
    /// The error used where nothing more specific is known.
    pub fn default() -> (e: Self)
        ensures
            e@ == (AppErrorView { message: "Error."@, kind: ErrorKind::InternalServer }),
    {
        AppError {
            error_type: AppErrorType::InternalServerError,
            message: String::from_str("Error."),
        }
    }

    /// An error of the given kind, raised with the given message.
    pub fn new(message: String, error_type: AppErrorType) -> (e: Self)
        ensures
            e@ == (AppErrorView { message: message@, kind: error_type@ }),
    {
        AppError { message, error_type }
    }

    /// The one-line description of the kind of this error.
    pub fn message(&self) -> (text: String)
        ensures
            text@ == kind_text(self@.kind),
    {
        self.error_type.describe()
    }

    /// The message this error was raised with.
    pub fn detail(&self) -> (text: &String)
        ensures
            text@ == self@.message,
    {
        &self.message
    }

    /// The kind of this error.
    pub fn error_type(&self) -> (kind: &AppErrorType)
        ensures
            kind@ == self@.kind,
    {
        &self.error_type
    }

    /// The status code and the text under which this error is reported.
    pub fn into_response(self) -> (response: ErrorResponse)
        ensures
            response.status == kind_status(self@.kind),
            response.error@ == response_text(self@.kind, self@.message),
    {
        let AppError { message, error_type } = self;
        match error_type {
            AppErrorType::ConfigurationError(d) => ErrorResponse {
                status: 500,
                error: String::from_str("Internal server error").concat(d.as_str()),
            },
            AppErrorType::DatabaseError(d) => ErrorResponse {
                status: 500,
                error: String::from_str("Internal server error. ").concat(d.as_str()),
            },
            AppErrorType::TokenEncodingError(d) => ErrorResponse {
                status: 401,
                error: String::from_str("Unauthorized. ").concat(d.as_str()),
            },
            AppErrorType::EncodingError(d) => ErrorResponse {
                status: 500,
                error: String::from_str("Encryption error. ").concat(d.as_str()),
            },
            AppErrorType::PasswordWrongError => ErrorResponse {
                status: 401,
                error: String::from_str("Unauthorized. Credentials are wrong. ").concat(
                    message.as_str(),
                ),
            },
            AppErrorType::AuthorizationError(d) => ErrorResponse {
                status: 401,
                error: String::from_str("Unauthorized. ").concat(d.as_str()),
            },
            AppErrorType::UserNotFound => ErrorResponse {
                status: 404,
                error: String::from_str("User not found. ").concat(message.as_str()),
            },
            AppErrorType::ValidationError(d) => ErrorResponse {
                status: 400,
                error: String::from_str("Validation error. ").concat(d.as_str()),
            },
            AppErrorType::InternalServerError => ErrorResponse {
                status: 500,
                error: String::from_str("Internal server error. ").concat(message.as_str()),
            },
            AppErrorType::RedisError(d) => ErrorResponse {
                status: 500,
                error: String::from_str("Redis error. ").concat(d.as_str()),
            },
            AppErrorType::TracingError(d) => ErrorResponse {
                status: 500,
                error: String::from_str("Tracing subscriber error. ").concat(d.as_str()),
            },
        }
    }
}

} // verus!
