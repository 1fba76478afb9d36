use jwks_auth::{AuthError, Claims};

#[test]
fn status_follows_error_kind() {
    assert_eq!(AuthError::InvalidToken("bad".to_string()).status(), 401);
    assert_eq!(AuthError::MissingCredentials("down".to_string()).status(), 500);
    assert_eq!(AuthError::UnsupportedAlgorithm.status(), 500);
}

#[test]
fn messages_carry_reason() {
    assert_eq!(AuthError::InvalidToken("bad".to_string()).message(), "Invalid token: bad");
    assert_eq!(
        AuthError::MissingCredentials("down".to_string()).message(),
        "Missing credentials: down"
    );
    assert_eq!(AuthError::UnsupportedAlgorithm.message(), "Unsupported algorithm");
}

#[test]
fn claims_hold_subject_and_expiry() {
    let c = Claims { sub: "user-1".to_string(), exp: 60 };
    let d = c.clone();
    assert_eq!(d.sub, "user-1");
    assert_eq!(d.exp, 60);
}
