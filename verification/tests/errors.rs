use tellonym::error::TellonymError;

#[test]
fn errors_map_to_http_statuses() {
    assert_eq!(TellonymError::ResourceNotFound.status_code(), 404);
    assert_eq!(TellonymError::InvalidJWT.status_code(), 401);
    assert_eq!(TellonymError::NoRefreshCookie.status_code(), 401);
    assert_eq!(TellonymError::InvalidLogin.status_code(), 401);
    assert_eq!(TellonymError::BadHeaders.status_code(), 400);
    assert_eq!(TellonymError::ConstraintError("x".to_string()).status_code(), 400);
    assert_eq!(TellonymError::ServerError.status_code(), 500);
    assert_eq!(TellonymError::DatabaseError("down".to_string()).status_code(), 500);
}
