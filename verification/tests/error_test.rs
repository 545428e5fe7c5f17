use lauren_chatbot::error::{AppError, UserIdExtension};

#[test]
fn test_error_display() {
    let err = AppError::Unauthorized("missing token".into());
    assert_eq!(err.to_string(), "Unauthorized: missing token");

    let err = AppError::BadRequest("invalid body".into());
    assert_eq!(err.to_string(), "Bad Request: invalid body");

    let err = AppError::NotFound("no account".into());
    assert_eq!(err.to_string(), "Not Found: no account");

    let err = AppError::Internal("db down".into());
    assert_eq!(err.to_string(), "Internal Error: db down");
}

#[test]
fn test_user_id_extension() {
    let ext = UserIdExtension("alice".into());
    assert_eq!(ext.0, "alice");
}

#[test]
fn test_from_io_error() {
    let io_err = std::io::Error::new(std::io::ErrorKind::NotFound, "file not found");
    let app_err: AppError = io_err.into();
    match app_err {
        AppError::Internal(msg) => assert!(msg.contains("file not found")),
        _ => panic!("Expected Internal error"),
    }
}

#[test]
fn test_unauthorized_into_response() {
    let err = AppError::Unauthorized("bad token".into());
    assert_eq!(err.status_code(), 401);
    assert_eq!(err.message(), "bad token");
}

#[test]
fn test_bad_request_into_response() {
    let err = AppError::BadRequest("bad input".into());
    assert_eq!(err.status_code(), 400);
    assert_eq!(err.message(), "bad input");
}

#[test]
fn test_not_found_into_response() {
    let err = AppError::NotFound("missing".into());
    assert_eq!(err.status_code(), 404);
    assert_eq!(err.message(), "missing");
}

#[test]
fn test_internal_into_response() {
    let err = AppError::Internal("crash".into());
    assert_eq!(err.status_code(), 500);
    assert_eq!(err.message(), "crash");
}

#[test]
fn user_id_extension_clone_keeps_the_id() {
    let ext = UserIdExtension("bob".into());
    let copy = ext.clone();
    assert_eq!(copy.0, "bob");
}
