use auth_service::token::{
    create_token, create_token_at, decode_token, decode_token_at, validate_claims, TokenClaims,
    TokenError,
};

const SECRET: &[u8] = b"a-signing-secret";

#[test]
fn issued_token_verifies_to_subject() {
    let token = create_token("user-42", SECRET, 3600).unwrap();
    assert_eq!(token.split('.').count(), 3);
    assert_eq!(decode_token(&token, SECRET).unwrap(), "user-42");
}

#[test]
fn token_verifies_up_to_and_at_expiry() {
    let token = create_token_at("abc", SECRET, 60, 1_000).unwrap();
    assert_eq!(decode_token_at(&token, SECRET, 1_000).unwrap(), "abc");
    assert_eq!(decode_token_at(&token, SECRET, 1_060).unwrap(), "abc");
    assert_eq!(decode_token_at(&token, SECRET, 500).unwrap(), "abc");
}

#[test]
fn expired_token_is_invalid() {
    let token = create_token_at("abc", SECRET, 60, 1_000).unwrap();
    let e = decode_token_at(&token, SECRET, 1_061).unwrap_err();
    assert_eq!(e.status, 401);
    assert_eq!(e.message, "Invalid token");
    let e = decode_token(&token, SECRET).unwrap_err();
    assert_eq!(e.status, 401);
    assert_eq!(e.message, "Invalid token");
}

#[test]
fn wrong_key_is_invalid_regardless_of_expiry() {
    let token = create_token_at("abc", SECRET, 60, 1_000).unwrap();
    let e = decode_token_at(&token, b"another-secret", 1_000).unwrap_err();
    assert_eq!((e.status, e.message.as_str()), (401, "Invalid token"));
    let fresh = create_token("abc", SECRET, 3600).unwrap();
    let e = decode_token(&fresh, b"another-secret").unwrap_err();
    assert_eq!((e.status, e.message.as_str()), (401, "Invalid token"));
}

#[test]
fn malformed_token_is_invalid() {
    let e = decode_token("not.a.token", SECRET).unwrap_err();
    assert_eq!((e.status, e.message.as_str()), (401, "Invalid token"));
    let e = decode_token("", SECRET).unwrap_err();
    assert_eq!(e.status, 401);
}

#[test]
fn empty_subject_is_refused() {
    assert_eq!(create_token("", SECRET, 3600), Err(TokenError::InvalidSubject));
    assert_eq!(create_token_at("", SECRET, 3600, 1_000), Err(TokenError::InvalidSubject));
}

#[test]
fn unrepresentable_expiry_is_refused() {
    assert_eq!(create_token_at("abc", SECRET, -2_000, 1_000), Err(TokenError::InvalidExpiry));
    assert_eq!(create_token_at("abc", SECRET, 10, -5), Err(TokenError::InvalidExpiry));
}

#[test]
fn claims_expiry_check_is_strict() {
    let c = || Some(TokenClaims { sub: "s".to_string(), exp: 100, iat: 50 });
    assert_eq!(validate_claims(c(), 100).unwrap(), "s");
    assert_eq!(validate_claims(c(), 10).unwrap(), "s");
    assert_eq!(validate_claims(c(), 101).unwrap_err().status, 401);
    assert_eq!(validate_claims(None, 0).unwrap_err().message, "Invalid token");
}
