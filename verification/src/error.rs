use vstd::prelude::*;
use vstd::string::StringExecFns;

verus! {

/// The kinds of failure the chat service reports.
#[derive(PartialEq, Eq, Structural, Clone, Copy, Debug)]
pub enum ErrorKind {
    UserAlreadyExists,
    Database,
    NotFound,
    PasswordHashing,
    Jwt,
    HttpHeaderParsing,
    CreateChatError,
    CreateMessageError,
    ChatFileError,
    UpdateChatError,
    IoError,
    MultipleErrors,
}

/// An error of the chat service: a kind and the text that explains it.
///
/// Failures that come from elsewhere (the database, the file system, the
/// multipart reader) carry the text of the underlying error.
#[derive(Debug)]
pub enum AppError {
    UserAlreadyExists(String),
    Database(String),
    NotFound(String),
    PasswordHashing(String),
    Jwt(String),
    HttpHeaderParsing(String),
    CreateChatError(String),
    CreateMessageError(String),
    ChatFileError(String),
    UpdateChatError(String),
    IoError(String),
    MultipleErrors(String),
}

impl View for AppError {
    type V = (ErrorKind, Seq<char>);

    open spec fn view(&self) -> (ErrorKind, Seq<char>) {
        match self {
            AppError::UserAlreadyExists(s) => (ErrorKind::UserAlreadyExists, s@),
            AppError::Database(s) => (ErrorKind::Database, s@),
            AppError::NotFound(s) => (ErrorKind::NotFound, s@),
            AppError::PasswordHashing(s) => (ErrorKind::PasswordHashing, s@),
            AppError::Jwt(s) => (ErrorKind::Jwt, s@),
            AppError::HttpHeaderParsing(s) => (ErrorKind::HttpHeaderParsing, s@),
            AppError::CreateChatError(s) => (ErrorKind::CreateChatError, s@),
            AppError::CreateMessageError(s) => (ErrorKind::CreateMessageError, s@),
            AppError::ChatFileError(s) => (ErrorKind::ChatFileError, s@),
            AppError::UpdateChatError(s) => (ErrorKind::UpdateChatError, s@),
            AppError::IoError(s) => (ErrorKind::IoError, s@),
            AppError::MultipleErrors(s) => (ErrorKind::MultipleErrors, s@),
        }
    }
}

/// The HTTP status with which an error of each kind is answered.
pub open spec fn status_of(kind: ErrorKind) -> u16 {
    match kind {
        ErrorKind::UserAlreadyExists => 409,
        ErrorKind::Database => 500,
        ErrorKind::NotFound => 404,
        ErrorKind::PasswordHashing => 422,
        ErrorKind::Jwt => 403,
        ErrorKind::HttpHeaderParsing => 422,
        ErrorKind::CreateChatError => 400,
        ErrorKind::UpdateChatError => 400,
        ErrorKind::IoError => 500,
        ErrorKind::MultipleErrors => 400,
        ErrorKind::CreateMessageError => 400,
        ErrorKind::ChatFileError => 400,
    }
}

/// The text put before the detail of an error of each kind.
pub open spec fn prefix_of(kind: ErrorKind) -> Seq<char> {
    match kind {
        ErrorKind::UserAlreadyExists => "User already exists: "@,
        ErrorKind::Database => "Database error: "@,
        ErrorKind::NotFound => "Not found: "@,
        ErrorKind::PasswordHashing => "password hashing error: "@,
        ErrorKind::Jwt => "JWT error: "@,
        ErrorKind::HttpHeaderParsing => "http header parsing error: "@,
        ErrorKind::CreateChatError => "Create chat error: "@,
        ErrorKind::CreateMessageError => "Create message error: "@,
        ErrorKind::ChatFileError => "Chat file error: "@,
        ErrorKind::UpdateChatError => "Update chat error: "@,
        ErrorKind::IoError => "IO error: "@,
        ErrorKind::MultipleErrors => "Multiple errors: "@,
    }
}

impl AppError {
    /// An error of the given kind with the given detail.
    pub fn of(kind: ErrorKind, detail: String) -> (e: AppError)
        ensures
            e@ == (kind, detail@),
    {
        match kind {
            ErrorKind::UserAlreadyExists => AppError::UserAlreadyExists(detail),
            ErrorKind::Database => AppError::Database(detail),
            ErrorKind::NotFound => AppError::NotFound(detail),
            ErrorKind::PasswordHashing => AppError::PasswordHashing(detail),
            ErrorKind::Jwt => AppError::Jwt(detail),
            ErrorKind::HttpHeaderParsing => AppError::HttpHeaderParsing(detail),
            ErrorKind::CreateChatError => AppError::CreateChatError(detail),
            ErrorKind::CreateMessageError => AppError::CreateMessageError(detail),
            ErrorKind::ChatFileError => AppError::ChatFileError(detail),
            ErrorKind::UpdateChatError => AppError::UpdateChatError(detail),
            ErrorKind::IoError => AppError::IoError(detail),
            ErrorKind::MultipleErrors => AppError::MultipleErrors(detail),
        }
    }

    /// The kind of this error.
    pub fn kind(&self) -> (k: ErrorKind)
        ensures
            k == self@.0,
    {
        match self {
            AppError::UserAlreadyExists(_) => ErrorKind::UserAlreadyExists,
            AppError::Database(_) => ErrorKind::Database,
            AppError::NotFound(_) => ErrorKind::NotFound,
            AppError::PasswordHashing(_) => ErrorKind::PasswordHashing,
            AppError::Jwt(_) => ErrorKind::Jwt,
            AppError::HttpHeaderParsing(_) => ErrorKind::HttpHeaderParsing,
            AppError::CreateChatError(_) => ErrorKind::CreateChatError,
            AppError::CreateMessageError(_) => ErrorKind::CreateMessageError,
            AppError::ChatFileError(_) => ErrorKind::ChatFileError,
            AppError::UpdateChatError(_) => ErrorKind::UpdateChatError,
            AppError::IoError(_) => ErrorKind::IoError,
            AppError::MultipleErrors(_) => ErrorKind::MultipleErrors,
        }
    }

    /// The detail that explains this error.
    pub fn detail(&self) -> (d: &String)
        ensures
            d@ == self@.1,
    {
        match self {
            AppError::UserAlreadyExists(s) => s,
            AppError::Database(s) => s,
            AppError::NotFound(s) => s,
            AppError::PasswordHashing(s) => s,
            AppError::Jwt(s) => s,
            AppError::HttpHeaderParsing(s) => s,
            AppError::CreateChatError(s) => s,
            AppError::CreateMessageError(s) => s,
            AppError::ChatFileError(s) => s,
            AppError::UpdateChatError(s) => s,
            AppError::IoError(s) => s,
            AppError::MultipleErrors(s) => s,
        }
    }

    /// The HTTP status code with which the service answers this error.
    pub fn status_code(&self) -> (code: u16)
        ensures
            code == status_of(self@.0),
    {
        match self.kind() {
            ErrorKind::UserAlreadyExists => 409,
            ErrorKind::Database => 500,
            ErrorKind::NotFound => 404,
            ErrorKind::PasswordHashing => 422,
            ErrorKind::Jwt => 403,
            ErrorKind::HttpHeaderParsing => 422,
            ErrorKind::CreateChatError => 400,
            ErrorKind::UpdateChatError => 400,
            ErrorKind::IoError => 500,
            ErrorKind::MultipleErrors => 400,
            ErrorKind::CreateMessageError => 400,
            ErrorKind::ChatFileError => 400,
        }
    }

    /// The text of this error, as the service shows it to clients.
    pub fn message(&self) -> (m: String)
        ensures
            m@ == prefix_of(self@.0) + self@.1,
    {
        let prefix = match self.kind() {
            ErrorKind::UserAlreadyExists => "User already exists: ",
            ErrorKind::Database => "Database error: ",
            ErrorKind::NotFound => "Not found: ",
            ErrorKind::PasswordHashing => "password hashing error: ",
            ErrorKind::Jwt => "JWT error: ",
            ErrorKind::HttpHeaderParsing => "http header parsing error: ",
            ErrorKind::CreateChatError => "Create chat error: ",
            ErrorKind::CreateMessageError => "Create message error: ",
            ErrorKind::ChatFileError => "Chat file error: ",
            ErrorKind::UpdateChatError => "Update chat error: ",
            ErrorKind::IoError => "IO error: ",
            ErrorKind::MultipleErrors => "Multiple errors: ",
        };
        let mut m = String::from_str(prefix);
        m.append(self.detail().as_str());
        m
    }
}

/// The body with which the service answers a failed request.
#[derive(Debug)]
pub struct ErrorOutput {
    pub error: String,
}

impl ErrorOutput {
    pub fn new(error: &str) -> (out: ErrorOutput)
        ensures
            out.error@ == error@,
    {
        ErrorOutput { error: String::from_str(error) }
    }
}

} // verus!
