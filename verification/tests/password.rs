use argon2::PasswordHasher;
use auth_api::constants::{API_URL, FRONT_URL};
use auth_api::password::{
    access_claims, claims_from_parts, gen_jwt, gen_jwt_at, gen_token, hash_password, hash_token,
    token_from_bytes, verify_jwt, verify_password, CryptoError,
};
use auth_api::time::{access_expiry, is_refresh_expired, Timestamp};

#[test]
fn hashed_password_verifies() {
    let phc = hash_password("correct horse").unwrap();
    assert!(phc.starts_with("$argon2id$v=19$"));
    assert_ne!(phc, "correct horse");
    assert_eq!(verify_password("correct horse", &phc), Ok(()));
}

#[test]
fn wrong_password_is_refused() {
    let phc = hash_password("correct horse").unwrap();
    assert_eq!(verify_password("battery staple", &phc), Err(CryptoError::PasswordHash));
}

#[test]
fn two_hashes_of_one_password_differ() {
    let a = hash_password("pw").unwrap();
    let b = hash_password("pw").unwrap();
    assert_ne!(a, b);
    assert!(verify_password("pw", &a).is_ok());
    assert!(verify_password("pw", &b).is_ok());
}

#[test]
fn non_phc_hash_is_refused() {
    let digest = hash_token("secret");
    assert_eq!(verify_password("secret", &digest), Err(CryptoError::PasswordHash));
    assert_eq!(verify_password("", ""), Err(CryptoError::PasswordHash));
}

#[test]
fn token_is_64_lowercase_hex() {
    let t = gen_token();
    assert_eq!(t.len(), 64);
    assert!(t.chars().all(|c| c.is_ascii_digit() || ('a'..='f').contains(&c)));
    assert_ne!(gen_token(), t);
}

#[test]
fn hash_token_is_hex_sha256() {
    assert_eq!(
        hash_token("abc"),
        "ba7816bf8f01cfea414140de5dae2223b00361a396177a9cb410ff61f20015ad"
    );
    assert_eq!(
        hash_token(""),
        "e3b0c44298fc1c149afbf4c8996fb92427ae41e4649b934ca495991b7852b855"
    );
    assert_eq!(hash_token("abc"), hash_token("abc"));
}

#[test]
fn access_expiry_adds_one_day() {
    assert_eq!(access_expiry(1_700_000_000), 1_700_086_400);
    assert_eq!(access_expiry(0), 86_400);
    assert_eq!(access_expiry(-86_400), 0);
    assert_eq!(access_expiry(-86_401), u64::MAX);
}

#[test]
fn claims_of_access_token() {
    let now = Timestamp { seconds: 1_700_000_000, nanos: 5 };
    let c = access_claims("abc".to_string(), now);
    assert_eq!(c.aud, API_URL);
    assert_eq!(c.iss, FRONT_URL);
    assert_eq!(c.sub, "abc");
    assert_eq!(c.exp, 1_700_086_400);
}

fn decode_payload(token: &str) -> serde_json::Value {
    let parts: Vec<&str> = token.split('.').collect();
    assert_eq!(parts.len(), 3);
    let mut validation = jsonwebtoken::Validation::new(jsonwebtoken::Algorithm::HS256);
    validation.validate_exp = false;
    validation.validate_aud = false;
    let data = jsonwebtoken::decode::<serde_json::Value>(
        token,
        &jsonwebtoken::DecodingKey::from_secret(b"key"),
        &validation,
    )
    .unwrap();
    data.claims
}

#[test]
fn signed_access_token_carries_claims() {
    let now = Timestamp { seconds: 1_700_000_000, nanos: 0 };
    let token = gen_jwt_at("9a1f0e2c-0000-4000-8000-000000000001".to_string(), b"key", now).unwrap();
    let claims = decode_payload(&token);
    assert_eq!(claims["aud"], API_URL);
    assert_eq!(claims["iss"], FRONT_URL);
    assert_eq!(claims["sub"], "9a1f0e2c-0000-4000-8000-000000000001");
    assert_eq!(claims["exp"], 1_700_086_400u64);
    let again = gen_jwt_at("9a1f0e2c-0000-4000-8000-000000000001".to_string(), b"key", now).unwrap();
    assert_eq!(token, again);
}

#[test]
fn issued_access_token_verifies() {
    let token = gen_jwt("sub-1".to_string(), b"key").unwrap();
    let claims = verify_jwt(&token, b"key").unwrap();
    assert_eq!(claims.aud, API_URL);
    assert_eq!(claims.iss, FRONT_URL);
    assert_eq!(claims.sub, "sub-1");
    assert_eq!(verify_jwt(&token, b"other key").map(|_| ()), Err(CryptoError::Jwt));
    assert_eq!(verify_jwt("not.a.token", b"key").map(|_| ()), Err(CryptoError::Jwt));
    assert_eq!(verify_jwt("nodots", b"key").map(|_| ()), Err(CryptoError::Jwt));
    assert_eq!(verify_jwt("one.dot", b"key").map(|_| ()), Err(CryptoError::Jwt));
}

#[test]
fn expired_access_token_is_refused() {
    let old = Timestamp { seconds: 1_000_000, nanos: 0 };
    let token = gen_jwt_at("sub".to_string(), b"key", old).unwrap();
    assert_eq!(verify_jwt(&token, b"key").map(|_| ()), Err(CryptoError::Jwt));
}

#[test]
fn access_token_for_another_audience_is_refused() {
    let mut claims = std::collections::BTreeMap::new();
    claims.insert("aud", serde_json::Value::from("elsewhere"));
    claims.insert("exp", serde_json::Value::from(u64::MAX / 2));
    claims.insert("iss", serde_json::Value::from(FRONT_URL));
    claims.insert("sub", serde_json::Value::from("s"));
    let token = jsonwebtoken::encode(
        &jsonwebtoken::Header::default(),
        &claims,
        &jsonwebtoken::EncodingKey::from_secret(b"key"),
    )
    .unwrap();
    assert_eq!(verify_jwt(&token, b"key").map(|_| ()), Err(CryptoError::Jwt));
    claims.insert("aud", serde_json::Value::from(API_URL));
    claims.remove("iss");
    let token = jsonwebtoken::encode(
        &jsonwebtoken::Header::default(),
        &claims,
        &jsonwebtoken::EncodingKey::from_secret(b"key"),
    )
    .unwrap();
    assert_eq!(verify_jwt(&token, b"key").map(|_| ()), Err(CryptoError::Jwt));
}

#[test]
fn claims_need_all_four_parts() {
    let full = (Some("a".to_string()), Some(5u64), Some("i".to_string()), Some("s".to_string()));
    let c = claims_from_parts(full).unwrap();
    assert_eq!((c.aud.as_str(), c.exp, c.iss.as_str(), c.sub.as_str()), ("a", 5, "i", "s"));
    assert_eq!(claims_from_parts((None, Some(5), Some("i".into()), Some("s".into()))).map(|_| ()), Err(CryptoError::Jwt));
    assert_eq!(claims_from_parts((Some("a".into()), None, Some("i".into()), Some("s".into()))).map(|_| ()), Err(CryptoError::Jwt));
}

#[test]
fn token_text_of_bytes() {
    assert_eq!(token_from_bytes(&[0x00, 0xab, 0xff]), "00abff");
    assert_eq!(token_from_bytes(&[]), "");
}

#[test]
fn refresh_expiry_is_strict() {
    let created = Timestamp { seconds: 1_000, nanos: 10 };
    let deadline = 1_000 + 30 * 86_400;
    assert!(!is_refresh_expired(created, Timestamp { seconds: deadline, nanos: 10 }));
    assert!(is_refresh_expired(created, Timestamp { seconds: deadline, nanos: 11 }));
    assert!(!is_refresh_expired(created, Timestamp { seconds: deadline - 1, nanos: 999_999_999 }));
    assert!(is_refresh_expired(created, Timestamp { seconds: deadline + 1, nanos: 0 }));
    let far = Timestamp { seconds: i64::MAX, nanos: 0 };
    assert!(!is_refresh_expired(far, Timestamp { seconds: i64::MAX, nanos: 999 }));
}

#[test]
fn hash_with_fixed_salt_is_argon2_phc() {
    let salt = "c2FsdHNhbHRzYWx0";
    let ours = auth_api::password::hash_password_with_salt("pw", salt).unwrap();
    let theirs = argon2::Argon2::default()
        .hash_password(b"pw", &password_hash::SaltString::from_b64(salt).unwrap())
        .unwrap()
        .to_string();
    assert_eq!(ours, theirs);
    assert_eq!(auth_api::password::hash_password_with_salt("pw", salt).unwrap(), ours);
    assert!(verify_password("pw", &ours).is_ok());
    assert_eq!(
        auth_api::password::hash_password_with_salt("pw", "bad salt!"),
        Err(CryptoError::PasswordHash)
    );
}
