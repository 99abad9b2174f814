use auth_core::session::{
    validate_token, AuthUser, OptionalAuthUser, SESSION_DURATION_SECS,
};
use auth_core::Error;

const SECRET: &[u8] = b"test-signing-secret";

#[test]
fn issued_token_validates_before_expiry() {
    let user = AuthUser { user_id: 42 };
    let now: i64 = 1_700_000_000;
    let token = user.to_jwt(SECRET, now).expect("encoding should succeed");
    assert_eq!(validate_token(&token, SECRET, now), Ok(42));
    assert_eq!(validate_token(&token, SECRET, now + 1000), Ok(42));
    let exp = now + SESSION_DURATION_SECS as i64;
    assert_eq!(validate_token(&token, SECRET, exp), Ok(42), "valid at the expiry instant");
}

#[test]
fn expired_token_is_unauthorized() {
    let user = AuthUser { user_id: 42 };
    let now: i64 = 1_700_000_000;
    let token = user.to_jwt(SECRET, now).expect("encoding should succeed");
    let after = now + SESSION_DURATION_SECS as i64 + 1;
    assert_eq!(validate_token(&token, SECRET, after), Err(Error::Unauthorized));
}

#[test]
fn tampered_token_fails_validation() {
    let user = AuthUser { user_id: 7 };
    let now: i64 = 1_700_000_000;
    let token = user.to_jwt(SECRET, now).expect("encoding should succeed");

    // Flip one bit of one signature character.
    let dot = token.rfind('.').expect("a JWT has three parts");
    let mut bytes = token.clone().into_bytes();
    let victim = dot + 1;
    bytes[victim] = if bytes[victim] == b'A' { b'B' } else { b'A' };
    let mutated = String::from_utf8(bytes).unwrap();
    if mutated != token {
        assert_eq!(validate_token(&mutated, SECRET, now), Err(Error::Unauthorized));
    }

    // Mutate a claims character instead.
    let first_dot = token.find('.').unwrap();
    let mut bytes = token.clone().into_bytes();
    let victim = first_dot + 1;
    bytes[victim] = if bytes[victim] == b'A' { b'B' } else { b'A' };
    let mutated = String::from_utf8(bytes).unwrap();
    assert_eq!(validate_token(&mutated, SECRET, now), Err(Error::Unauthorized));
}

#[test]
fn wrong_secret_fails_validation() {
    let user = AuthUser { user_id: 7 };
    let now: i64 = 1_700_000_000;
    let token = user.to_jwt(SECRET, now).expect("encoding should succeed");
    assert_eq!(
        validate_token(&token, b"another-secret", now),
        Err(Error::Unauthorized)
    );
}

#[test]
fn malformed_token_is_unauthorized() {
    let now: i64 = 1_700_000_000;
    assert_eq!(validate_token("", SECRET, now), Err(Error::Unauthorized));
    assert_eq!(validate_token("garbage", SECRET, now), Err(Error::Unauthorized));
    assert_eq!(validate_token("a.b.c", SECRET, now), Err(Error::Unauthorized));
}

#[test]
fn authorization_header_roundtrip() {
    let user = AuthUser { user_id: 99 };
    let now: i64 = 1_700_000_000;
    let token = user.to_jwt(SECRET, now).expect("encoding should succeed");
    let header = format!("JWT{}", token);
    let parsed = AuthUser::from_authorization(&header, SECRET, now).expect("should authenticate");
    assert_eq!(parsed.user_id, 99);
}

#[test]
fn wrong_scheme_is_unauthorized() {
    let user = AuthUser { user_id: 99 };
    let now: i64 = 1_700_000_000;
    let token = user.to_jwt(SECRET, now).expect("encoding should succeed");
    let header = format!("Bearer {}", token);
    assert_eq!(
        AuthUser::from_authorization(&header, SECRET, now).map(|a| a.user_id),
        Err(Error::Unauthorized)
    );
    assert_eq!(
        AuthUser::from_authorization("", SECRET, now).map(|a| a.user_id),
        Err(Error::Unauthorized)
    );
    assert_eq!(
        AuthUser::from_authorization(&token, SECRET, now).map(|a| a.user_id),
        Err(Error::Unauthorized),
        "a bare token without the scheme prefix is rejected"
    );
}

#[test]
fn large_identifiers_roundtrip() {
    let user = AuthUser { user_id: u128::MAX };
    let now: i64 = 1_700_000_000;
    let token = user.to_jwt(SECRET, now).expect("encoding should succeed");
    assert_eq!(validate_token(&token, SECRET, now), Ok(u128::MAX));
}

#[test]
fn optional_auth_user_exposes_identity() {
    let some = OptionalAuthUser(Some(AuthUser { user_id: 5 }));
    let none = OptionalAuthUser(None);
    assert_eq!(some.user_id(), Some(5));
    assert_eq!(none.user_id(), None);
}
