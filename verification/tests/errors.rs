use chat::{AppError, ErrorKind, ErrorOutput};

#[test]
fn error_statuses() {
    let cases = vec![
        (ErrorKind::UserAlreadyExists, 409),
        (ErrorKind::Database, 500),
        (ErrorKind::NotFound, 404),
        (ErrorKind::PasswordHashing, 422),
        (ErrorKind::Jwt, 403),
        (ErrorKind::HttpHeaderParsing, 422),
        (ErrorKind::CreateChatError, 400),
        (ErrorKind::CreateMessageError, 400),
        (ErrorKind::ChatFileError, 400),
        (ErrorKind::UpdateChatError, 400),
        (ErrorKind::IoError, 500),
        (ErrorKind::MultipleErrors, 400),
    ];
    for (kind, status) in cases {
        let e = AppError::of(kind, "x".to_string());
        assert_eq!(e.kind(), kind);
        assert_eq!(e.status_code(), status);
    }
}

#[test]
fn error_messages() {
    assert_eq!(
        AppError::UserAlreadyExists("user1@example.com".to_string()).message(),
        "User already exists: user1@example.com"
    );
    assert_eq!(AppError::NotFound("Chat not found: 3".to_string()).message(), "Not found: Chat not found: 3");
    assert_eq!(AppError::Database("down".to_string()).message(), "Database error: down");
    assert_eq!(AppError::PasswordHashing("bad".to_string()).message(), "password hashing error: bad");
    assert_eq!(AppError::Jwt("expired".to_string()).message(), "JWT error: expired");
    assert_eq!(AppError::HttpHeaderParsing("h".to_string()).message(), "http header parsing error: h");
    assert_eq!(AppError::CreateChatError("c".to_string()).message(), "Create chat error: c");
    assert_eq!(AppError::CreateMessageError("m".to_string()).message(), "Create message error: m");
    assert_eq!(AppError::ChatFileError("f".to_string()).message(), "Chat file error: f");
    assert_eq!(AppError::UpdateChatError("u".to_string()).message(), "Update chat error: u");
    assert_eq!(AppError::IoError("io".to_string()).message(), "IO error: io");
    assert_eq!(AppError::MultipleErrors("mp".to_string()).message(), "Multiple errors: mp");
}

#[test]
fn error_output_holds_the_text() {
    assert_eq!(ErrorOutput::new("Invalid email or password").error, "Invalid email or password");
}
