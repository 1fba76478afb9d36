use jwks_auth::{BuildError, CachedJwkSet, CachedJwkSetBuilder};

fn empty() -> CachedJwkSetBuilder<u8, u16> {
    CachedJwkSet::<u8, u16>::builder()
}

#[test]
fn build_with_everything_set() {
    let c = empty()
        .jwk_set_uri("https://issuer.example/jwks".to_string())
        .duration(300_000)
        .validator(1)
        .http_client(2)
        .build()
        .ok()
        .unwrap();
    assert_eq!(c.jwk_set_uri, "https://issuer.example/jwks");
    assert_eq!(c.duration, 300_000);
    assert_eq!(c.validator, 1);
    assert_eq!(c.http_client, 2);
}

#[test]
fn build_reports_first_missing_field() {
    assert_eq!(empty().build().err(), Some(BuildError::MissingUri));
    let b = empty().jwk_set_uri("u".to_string());
    assert_eq!(b.build().err(), Some(BuildError::MissingDuration));
    let b = b.duration(0);
    assert_eq!(b.build().err(), Some(BuildError::MissingValidator));
    let b = b.validator(3);
    assert_eq!(b.build().err(), Some(BuildError::MissingHttpClient));
    assert!(empty().duration(1).validator(1).http_client(1).build().err() == Some(BuildError::MissingUri));
}

#[test]
fn build_error_messages() {
    assert_eq!(BuildError::MissingUri.message(), "Issuer is required");
    assert_eq!(BuildError::MissingDuration.message(), "Duration is required");
    assert_eq!(BuildError::MissingValidator.message(), "Validation is required");
    assert_eq!(BuildError::MissingHttpClient.message(), "HTTP client is required");
}
