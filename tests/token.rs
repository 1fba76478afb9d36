use jwks_auth::{
    contains_separator, parse_token, resolve_key, select_key, AuthError, KeyParams, KeyRecord,
    KeySet, TokenHeader,
};

const HEADER_K1: &str = "eyJhbGciOiJSUzI1NiIsImtpZCI6ImsxIn0";
const HEADER_K2: &str = "eyJhbGciOiJSUzI1NiIsImtpZCI6ImsyIn0";
const HEADER_NO_KID: &str = "eyJhbGciOiJSUzI1NiJ9";
const PAYLOAD: &str = "eyJzdWIiOiJ1c2VyLTEiLCJleHAiOjF9";

fn token(header: &str) -> String {
    format!("{}.{}.c2ln", header, PAYLOAD)
}

fn rsa(kid: Option<&str>, n: &str) -> KeyRecord {
    KeyRecord {
        kid: kid.map(|k| k.to_string()),
        params: KeyParams::Rsa { n: n.to_string(), e: "AQAB".to_string() },
    }
}

fn header_for(kid: Option<&str>) -> TokenHeader {
    TokenHeader { alg: jsonwebtoken::Algorithm::RS256, kid: kid.map(|k| k.to_string()) }
}

fn invalid_reason(r: Result<jsonwebtoken::DecodingKey, AuthError>) -> String {
    match r {
        Err(AuthError::InvalidToken(m)) => m,
        Err(e) => panic!("expected an invalid token, got {:?}", e),
        Ok(_) => panic!("expected an invalid token, got a key"),
    }
}

#[test]
fn separator_detection() {
    assert!(!contains_separator(""));
    assert!(!contains_separator("abc"));
    assert!(contains_separator("a.b"));
    assert!(contains_separator("."));
}

#[test]
fn token_without_separator_is_invalid_format() {
    match parse_token("notatoken") {
        Err(AuthError::InvalidToken(m)) => assert_eq!(m, "invalid format"),
        _ => panic!("expected invalid format"),
    }
}

#[test]
fn undecodable_header_is_invalid_token() {
    assert!(matches!(parse_token("%%%.x.y"), Err(AuthError::InvalidToken(_))));
    assert!(matches!(parse_token("a.b"), Err(AuthError::InvalidToken(_))));
}

#[test]
fn header_is_read() {
    let h = parse_token(&token(HEADER_K1)).ok().unwrap();
    assert_eq!(h.kid, Some("k1".to_string()));
    assert_eq!(h.alg, jsonwebtoken::Algorithm::RS256);
    let h = parse_token(&token(HEADER_NO_KID)).ok().unwrap();
    assert_eq!(h.kid, None);
}

#[test]
fn missing_kid_is_invalid_token() {
    let keys = KeySet { keys: vec![rsa(Some("k1"), "AQAB")] };
    let h = parse_token(&token(HEADER_NO_KID)).ok().unwrap();
    assert_eq!(invalid_reason(select_key(&h, &keys)), "missing `kid` header field");
}

#[test]
fn lookup_succeeds_only_for_present_kid() {
    let keys = KeySet { keys: vec![rsa(Some("k1"), "AQAB")] };
    let h1 = parse_token(&token(HEADER_K1)).ok().unwrap();
    assert!(select_key(&h1, &keys).is_ok());
    let h2 = parse_token(&token(HEADER_K2)).ok().unwrap();
    assert_eq!(invalid_reason(select_key(&h2, &keys)), "no matching JWK found for the given kid");
    let empty = KeySet { keys: vec![] };
    assert_eq!(invalid_reason(select_key(&h1, &empty)), "no matching JWK found for the given kid");
}

#[test]
fn record_without_kid_never_matches() {
    let keys = KeySet { keys: vec![rsa(None, "AQAB")] };
    assert!(keys.find("k1").is_none());
    assert!(select_key(&header_for(Some("k1")), &keys).is_err());
}

#[test]
fn first_matching_record_decides() {
    let keys = KeySet {
        keys: vec![
            rsa(Some("k0"), "AQAB"),
            KeyRecord { kid: Some("k1".to_string()), params: KeyParams::Other },
            rsa(Some("k1"), "AQAB"),
        ],
    };
    let found = keys.find("k1").unwrap();
    assert!(matches!(found.params, KeyParams::Other));
    assert!(matches!(
        select_key(&header_for(Some("k1")), &keys),
        Err(AuthError::UnsupportedAlgorithm)
    ));
    assert!(select_key(&header_for(Some("k0")), &keys).is_ok());
}

#[test]
fn unsupported_family_is_gated() {
    assert!(matches!(resolve_key(&KeyParams::Other), Err(AuthError::UnsupportedAlgorithm)));
}

#[test]
fn malformed_components_are_invalid_token() {
    assert!(resolve_key(&KeyParams::Rsa { n: "AQAB".to_string(), e: "AQAB".to_string() }).is_ok());
    assert!(matches!(
        resolve_key(&KeyParams::Rsa { n: "!!".to_string(), e: "AQAB".to_string() }),
        Err(AuthError::InvalidToken(_))
    ));
    assert!(resolve_key(&KeyParams::EllipticCurve { x: "AQAB".to_string(), y: "AQAB".to_string() })
        .is_ok());
    assert!(matches!(
        resolve_key(&KeyParams::EllipticCurve { x: "AQAB".to_string(), y: "*".to_string() }),
        Err(AuthError::InvalidToken(_))
    ));
}

#[test]
fn duplicate_keeps_records() {
    let keys = KeySet { keys: vec![rsa(Some("a"), "AQAB"), rsa(None, "AQAC")] };
    let copy = keys.duplicate();
    assert_eq!(copy.keys.len(), 2);
    assert_eq!(copy.keys[0].kid, Some("a".to_string()));
    assert_eq!(copy.keys[1].kid, None);
    match &copy.keys[1].params {
        KeyParams::Rsa { n, e } => {
            assert_eq!(n, "AQAC");
            assert_eq!(e, "AQAB");
        }
        _ => panic!("expected an RSA record"),
    }
}

#[test]
fn end_to_end_kid_rewrite_fails() {
    let keys = KeySet { keys: vec![rsa(Some("k1"), "AQAB")] };
    let good = parse_token(&token(HEADER_K1)).ok().unwrap();
    assert!(select_key(&good, &keys).is_ok());
    let rewritten = parse_token(&token(HEADER_K2)).ok().unwrap();
    assert!(matches!(select_key(&rewritten, &keys), Err(AuthError::InvalidToken(_))));
}
