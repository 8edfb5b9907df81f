use outline_backup::error::{validate_response, FatalError};

#[test]
fn classifies_each_known_status() {
    assert_eq!(validate_response(401), Err(FatalError::Auth));
    assert_eq!(validate_response(403), Err(FatalError::Permission));
    assert_eq!(validate_response(404), Err(FatalError::NotFound));
    assert_eq!(validate_response(429), Err(FatalError::RateLimit));
    assert_eq!(validate_response(500), Err(FatalError::Server));
}

#[test]
fn passes_unrecognized_statuses_through() {
    assert_eq!(validate_response(0), Ok(()));
    assert_eq!(validate_response(200), Ok(()));
    assert_eq!(validate_response(201), Ok(()));
    assert_eq!(validate_response(402), Ok(()));
    assert_eq!(validate_response(418), Ok(()));
    assert_eq!(validate_response(502), Ok(()));
    assert_eq!(validate_response(u64::MAX), Ok(()));
}

#[test]
fn messages_match_the_classified_causes() {
    assert_eq!(FatalError::Auth.message(), "The API key is invalid");
    assert_eq!(
        FatalError::Permission.message(),
        "The API key specified has insufficient privileges"
    );
    assert_eq!(FatalError::NotFound.message(), "Resource not found");
    assert_eq!(FatalError::RateLimit.message(), "The rate limit has been exceeded");
    assert_eq!(FatalError::Server.message(), "Internal server error");
    assert_eq!(FatalError::Timeout.message(), "Timeout exceeded");
}
