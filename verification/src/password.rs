use argon2::{PasswordHasher, PasswordVerifier};
use sha2::Digest;
use vstd::prelude::*;

use crate::constants::{API_URL, FRONT_URL};
use crate::encoding::{hex_encode, hex_lower, is_lower_hex_char, lemma_hex_lower_shape};
use crate::time::{
    access_expiry, clock_reading, current_time, jwt_expiry, lemma_access_expiry_after_issue, lemma_clock_reading_shape,
    Timestamp,
};

verus! {

/// The error type of the `password-hash` crate, carried opaquely from the wrappers.
#[verifier::external_type_specification]
#[verifier::external_body]
pub struct ExPasswordHashError(password_hash::Error);

/// The error type of the `jsonwebtoken` crate, carried opaquely from the signing wrapper.
#[verifier::external_type_specification]
#[verifier::external_body]
pub struct ExJwtError(jsonwebtoken::errors::Error);

/// Failures of the cryptographic operations.
#[derive(Clone, Copy, Debug, PartialEq, Eq, Structural)]
pub enum CryptoError {
    /// Hashing or verifying a password (or a PHC hash string) failed.
    PasswordHash,
    /// Signing an access token failed.
    Jwt,
}

/// Claims carried by an access token.
#[derive(Clone, Debug)]
pub struct Claims {
    pub aud: String,
    pub exp: u64,
    pub iss: String,
    pub sub: String,
}

/// Argon2 (default parameters) accepts `password` against the PHC string `phc`: what
/// `Argon2::verify_password` yields after `PasswordHash::new` parsed the string.
pub uninterp spec fn password_matches(password: Seq<char>, phc: Seq<char>) -> bool;

/// `text` can begin a PHC string: it is not empty and starts with `$`.
pub open spec fn is_phc_candidate(text: Seq<char>) -> bool {
    text.len() > 0 && text[0] == '$'
}

/// SHA-256 digest of a byte string, as the `sha2` crate computes it.
pub uninterp spec fn sha256(data: Seq<u8>) -> Seq<u8>;

/// The stored form of a refresh-token secret: lowercase hex of the SHA-256 digest of its
/// UTF-8 bytes.
pub open spec fn token_digest(token: Seq<char>) -> Seq<char> {
    hex_lower(sha256(vstd::utf8::encode_utf8(token)))
}

/// The compact HS256 JSON Web Token that `jsonwebtoken::encode` builds with the default
/// header, the claims `{"aud", "exp", "iss", "sub"}` in that order, and the HMAC secret.
pub uninterp spec fn hs256_jwt(aud: Seq<char>, exp: u64, iss: Seq<char>, sub: Seq<char>, secret: Seq<u8>) -> Seq<char>;

/// The PHC string that `Argon2::hash_password` (default parameters) yields for `password`
/// and the B64 salt text `salt`.
pub uninterp spec fn argon2_phc(password: Seq<char>, salt: Seq<char>) -> Seq<char>;

/// `c` is a character of the standard Base64 alphabet.
pub open spec fn is_b64_char(c: char) -> bool {
    ('A' <= c && c <= 'Z') || ('a' <= c && c <= 'z') || ('0' <= c && c <= '9') || c == '+' || c == '/'
}

/// `s` is the unpadded standard Base64 text of 16 bytes: 22 alphabet characters, the last
/// one carrying no bits past the 128th (so one of `A`, `Q`, `g`, `w`).
pub open spec fn is_salt_text(s: Seq<char>) -> bool {
    &&& s.len() == 22
    &&& forall|i: int| 0 <= i < 22 ==> is_b64_char(#[trigger] s[i])
    &&& (s[21] == 'A' || s[21] == 'Q' || s[21] == 'g' || s[21] == 'w')
}

/// The beginning of every PHC string that Argon2 with default parameters writes.
pub open spec fn argon2id_prefix() -> Seq<char> {
    seq!['$', 'a', 'r', 'g', 'o', 'n', '2', 'i', 'd', '$', 'v', '=', '1', '9', '$']
}

/// `phc` starts with the Argon2id version-19 PHC prefix.
pub open spec fn has_argon2id_prefix(phc: Seq<char>) -> bool {
    phc.len() >= 15 && phc.subrange(0, 15) == argon2id_prefix()
}

/// The largest password, in UTF-8 bytes, that Argon2 accepts.
pub open spec fn argon2_max_password_bytes() -> int {
    0xFFFF_FFFF
}

/// A fresh random salt in B64 text, from `SaltString::generate` over the operating system's
/// generator: the unpadded Base64 text of 16 random bytes. Only that shape is promised.
#[verifier::external_body]
fn fresh_salt() -> (salt: String)
    ensures
        is_salt_text(salt@),
{
    password_hash::SaltString::generate(&mut password_hash::rand_core::OsRng).as_str().to_string()
}

/// Argon2 (default parameters) hash of `password` with the B64 salt `salt`, as a PHC string,
/// from `Argon2::hash_password` (the salt text is read by `SaltString::from_b64`).
/// Trusted: a string it returns is the name `argon2_phc` of the password and the salt, starts
/// with `$argon2id$v=19$` (the `Display` of the hash), and is accepted by
/// `Argon2::verify_password` for the same password (the crate's documented hash-then-verify
/// round trip). It succeeds for the salt texts that `fresh_salt` gives and passwords of at most
/// `u32::MAX` bytes: `from_b64` takes 4 to 64 alphabet characters, the strict Base64 decoding
/// takes the canonical text of 16 bytes, and Argon2 refuses only passwords over `u32::MAX`
/// bytes and salts under 8 bytes.
#[verifier::external_body]
fn argon2_hash(password: &str, salt: &str) -> (r: Result<String, password_hash::Error>)
    ensures
        r matches Ok(phc) ==> phc@ == argon2_phc(password@, salt@) && password_matches(password@, phc@)
            && has_argon2id_prefix(phc@),
        is_salt_text(salt@) && vstd::utf8::encode_utf8(password@).len() <= argon2_max_password_bytes() ==> r is Ok,
{
    let salt = match password_hash::SaltString::from_b64(salt) {
        Ok(salt) => salt,
        Err(e) => return Err(e),
    };
    match argon2::Argon2::default().hash_password(password.as_bytes(), &salt) {
        Ok(hash) => Ok(hash.to_string()),
        Err(e) => Err(e),
    }
}

/// Argon2 verification of `password` against the PHC string `phc`: `PasswordHash::new`
/// parses the string, `Argon2::verify_password` checks it.
/// Trusted: success is the name `password_matches`; and, as the parser's source shows, a
/// string that is empty or does not start with `$` is refused.
#[verifier::external_body]
fn argon2_verify(password: &str, phc: &str) -> (r: Result<(), password_hash::Error>)
    ensures
        r is Ok <==> password_matches(password@, phc@),
        !is_phc_candidate(phc@) ==> r is Err,
{
    match password_hash::PasswordHash::new(phc) {
        Ok(parsed) => argon2::Argon2::default().verify_password(password.as_bytes(), &parsed),
        Err(e) => Err(e),
    }
}

/// `count` random bytes from `rand::fill` (thread-local generator). Only their number is
/// promised.
#[verifier::external_body]
fn random_bytes(count: usize) -> (bytes: Vec<u8>)
    ensures
        bytes@.len() == count,
{
    let mut bytes = vec![0u8; count];
    rand::fill(bytes.as_mut_slice());
    bytes
}

/// SHA-256 digest, from `sha2::Sha256::digest`.
/// Trusted: the result is the name `sha256` of the input, 32 bytes long.
#[verifier::external_body]
fn sha256_digest(data: &[u8]) -> (digest: Vec<u8>)
    ensures
        digest@ == sha256(data@),
        digest@.len() == 32,
{
    sha2::Sha256::digest(data).to_vec()
}

/// HS256 access token for the given claims, from `jsonwebtoken::encode` with the default
/// header and `EncodingKey::from_secret`.
/// Trusted: it succeeds (the key is an HMAC key and the default header asks for HS256, so
/// the algorithm check passes; HMAC signing returns `Ok`; a map of strings and numbers always
/// serialises), the token is the name `hs256_jwt` of the claims and the secret, and its
/// signature is the HS256 MAC of its first two parts under the secret (`encode` signs the
/// joined header and claims with `crypto::sign`, the same MAC that decoding recomputes).
#[verifier::external_body]
fn sign_hs256(aud: &str, exp: u64, iss: &str, sub: &str, secret: &[u8]) -> (r: Result<String, jsonwebtoken::errors::Error>)
    ensures
        r is Ok,
        r matches Ok(token) ==> token@ == hs256_jwt(aud@, exp, iss@, sub@, secret@),
        r matches Ok(token) ==> hs256_signature_valid(token@, secret@),
{
    let claims = std::collections::BTreeMap::from([
        ("aud", serde_json::Value::from(aud)),
        ("exp", serde_json::Value::from(exp)),
        ("iss", serde_json::Value::from(iss)),
        ("sub", serde_json::Value::from(sub)),
    ]);
    let key = jsonwebtoken::EncodingKey::from_secret(secret);
    jsonwebtoken::encode(&jsonwebtoken::Header::default(), &claims, &key)
}

/// `token` holds at least two dots, as a compact token of header, claims and signature does.
pub open spec fn has_two_dots(token: Seq<char>) -> bool {
    exists|i: int, j: int| 0 <= i < j < token.len() && token[i] == '.' && token[j] == '.'
}

/// The signature of the compact token `token` is the HS256 MAC of its first two parts under
/// `secret`, as `jsonwebtoken`'s signature check finds.
pub uninterp spec fn hs256_signature_valid(token: Seq<char>, secret: Seq<u8>) -> bool;

/// The claims a decoded token carries, each present when it is a JSON string (a
/// non-negative integer for `exp`): audience, expiry, issuer, subject.
pub type DecodedClaims = (Option<String>, Option<u64>, Option<String>, Option<String>);

/// `parts` carries exactly the claims `aud`, `exp`, `iss`, `sub`.
pub open spec fn parts_are(parts: DecodedClaims, aud: Seq<char>, exp: u64, iss: Seq<char>, sub: Seq<char>) -> bool {
    &&& parts.0 matches Some(a) && a@ == aud
    &&& parts.1 == Some(exp)
    &&& parts.2 matches Some(i) && i@ == iss
    &&& parts.3 matches Some(s) && s@ == sub
}

/// Checks an HS256 access token with `jsonwebtoken::decode` (key `DecodingKey::from_secret`,
/// default validation: HS256, expiry checked against the clock with 60 s leeway) expecting
/// the audience `audience`, and reads the claims from the decoded JSON payload.
/// Trusted: the result depends on the clock, so only what holds of every outcome is stated:
/// a token with fewer than two dots is refused (`verify_signature` splits it twice at its
/// last dot); a token it accepts has a valid signature and, when it names an audience, names
/// `audience` (`validate`, `validation.rs`); a token built by `jsonwebtoken::encode` with
/// this secret gives back, when accepted, the claims it was built with; and such a token
/// naming `audience`, with an expiry at least 60 below `u64::MAX`, is accepted exactly
/// when, at the clock reading the check takes (`get_current_timestamp`), its expiry is not
/// more than the 60 s leeway in the past (its signature, header and claims all pass;
/// `exp < now - leeway` is the only refusal left, and before 60 s past the epoch that
/// subtraction wraps to within 60 of `u64::MAX` or panics). Which reading the check takes is
/// left unsaid.
#[verifier::external_body]
fn hs256_decode(token: &str, secret: &[u8], audience: &str) -> (r: Result<DecodedClaims, jsonwebtoken::errors::Error>)
    ensures
        !has_two_dots(token@) ==> r is Err,
        r is Ok ==> hs256_signature_valid(token@, secret@),
        r matches Ok(parts) ==> (parts.0 matches Some(a) ==> a@ == audience@),
        forall|aud: Seq<char>, exp: u64, iss: Seq<char>, sub: Seq<char>|
            token@ == #[trigger] hs256_jwt(aud, exp, iss, sub, secret@) ==> (
                r matches Ok(parts) ==> parts_are(parts, aud, exp, iss, sub)),
        r is Ok ==> forall|aud: Seq<char>, exp: u64, iss: Seq<char>, sub: Seq<char>|
            token@ == #[trigger] hs256_jwt(aud, exp, iss, sub, secret@) && aud == audience@ && exp + 60 <= u64::MAX ==>
                exists|checked: Timestamp| clock_reading(checked) && checked.seconds >= 60 && exp + 60 >= checked.seconds,
        r is Err ==> forall|aud: Seq<char>, exp: u64, iss: Seq<char>, sub: Seq<char>|
            token@ == #[trigger] hs256_jwt(aud, exp, iss, sub, secret@) && aud == audience@ && exp + 60 <= u64::MAX ==>
                exists|checked: Timestamp| clock_reading(checked) && !(checked.seconds >= 60 && exp + 60 >= checked.seconds),
{
    let mut validation = jsonwebtoken::Validation::default();
    validation.set_audience(&[audience]);
    let key = jsonwebtoken::DecodingKey::from_secret(secret);
    let c = jsonwebtoken::decode::<serde_json::Value>(token, &key, &validation)?.claims;
    Ok((c["aud"].as_str().map(String::from), c["exp"].as_u64(), c["iss"].as_str().map(String::from), c["sub"].as_str().map(String::from)))
}

/// The claims of a decoded token: all four must be present, as the claims type requires.
pub fn claims_from_parts(parts: DecodedClaims) -> (r: Result<Claims, CryptoError>)
    ensures
        r is Ok <==> (parts.0 is Some && parts.1 is Some && parts.2 is Some && parts.3 is Some),
        r matches Ok(c) ==> parts_are(parts, c.aud@, c.exp, c.iss@, c.sub@),
        r matches Err(e) ==> e == CryptoError::Jwt,
{
    match parts {
        (Some(aud), Some(exp), Some(iss), Some(sub)) => Ok(Claims { aud, exp, iss, sub }),
        _ => Err(CryptoError::Jwt),
    }
}

/// What the check of an access token `token` under `secret` answers for a token signed with
/// that secret for this service: it gives back the claims the token was signed with, and
/// accepts it exactly when, at the clock reading the check takes, its expiry is not more
/// than the 60 s leeway in the past.
pub open spec fn is_jwt_check_outcome(token: Seq<char>, secret: Seq<u8>, r: Result<Claims, CryptoError>) -> bool {
    forall|exp: u64, iss: Seq<char>, sub: Seq<char>|
        token == #[trigger] hs256_jwt(API_URL@, exp, iss, sub, secret) ==> (
            (r matches Ok(c) ==> c.aud@ == API_URL@ && c.exp == exp && c.iss@ == iss && c.sub@ == sub)
            && (exp + 60 <= u64::MAX ==> exists|checked: Timestamp| clock_reading(checked)
                && (r is Ok <==> (checked.seconds >= 60 && exp + 60 >= checked.seconds))))
}

/// Checks an access token signed with `secret` and intended for this service (audience
/// `API_URL`), and returns its claims. An accepted token has a valid signature, and a token
/// made by `gen_jwt` with this secret gives back the claims it was made with and is accepted
/// exactly when, at the clock reading the check takes, its expiry is not more than 60 s in
/// the past.
pub fn verify_jwt(token: &str, secret: &[u8]) -> (r: Result<Claims, CryptoError>)
    ensures
        r matches Err(e) ==> e == CryptoError::Jwt,
        r matches Ok(c) ==> c.aud@ == API_URL@ && hs256_signature_valid(token@, secret@),
        !has_two_dots(token@) ==> r is Err,
        forall|aud: Seq<char>, exp: u64, iss: Seq<char>, sub: Seq<char>|
            token@ == #[trigger] hs256_jwt(aud, exp, iss, sub, secret@) && aud == API_URL@ && exp + 60 <= u64::MAX ==>
                exists|checked: Timestamp| clock_reading(checked)
                    && (r is Ok <==> (checked.seconds >= 60 && exp + 60 >= checked.seconds)),
        forall|aud: Seq<char>, exp: u64, iss: Seq<char>, sub: Seq<char>|
            token@ == #[trigger] hs256_jwt(aud, exp, iss, sub, secret@) ==> (
                r matches Ok(c) ==> c.aud@ == aud && c.exp == exp && c.iss@ == iss && c.sub@ == sub),
        is_jwt_check_outcome(token@, secret@, r),
{
    match hs256_decode(token, secret, API_URL) {
        Ok(parts) => claims_from_parts(parts),
        Err(_) => Err(CryptoError::Jwt),
    }
}

/// Hashes a password with Argon2 and the given B64 salt, as a PHC string. A hash it returns
/// is accepted by `verify_password` for the same password. It succeeds for a salt of the
/// shape that fresh salts have and a password of at most `u32::MAX` bytes.
pub fn hash_password_with_salt(password: &str, salt: &str) -> (r: Result<String, CryptoError>)
    ensures
        r matches Ok(phc) ==> phc@ == argon2_phc(password@, salt@) && password_matches(password@, phc@)
            && has_argon2id_prefix(phc@),
        is_salt_text(salt@) && vstd::utf8::encode_utf8(password@).len() <= argon2_max_password_bytes() ==> r is Ok,
        r matches Err(e) ==> e == CryptoError::PasswordHash,
{
    match argon2_hash(password, salt) {
        Ok(phc) => Ok(phc),
        Err(_) => Err(CryptoError::PasswordHash),
    }
}

/// Hashes a password with Argon2 and a fresh random salt, as a PHC string starting with
/// `$argon2id$v=19$`. A hash it returns is accepted by `verify_password` for the same
/// password. It succeeds for every password of at most `u32::MAX` bytes.
pub fn hash_password(password: &str) -> (r: Result<String, CryptoError>)
    ensures
        r matches Ok(phc) ==> password_matches(password@, phc@) && has_argon2id_prefix(phc@)
            && exists|salt: Seq<char>| is_salt_text(salt) && phc@ == #[trigger] argon2_phc(password@, salt),
        vstd::utf8::encode_utf8(password@).len() <= argon2_max_password_bytes() ==> r is Ok,
        r matches Err(e) ==> e == CryptoError::PasswordHash,
{
    let salt = fresh_salt();
    hash_password_with_salt(password, salt.as_str())
}

/// Checks `password` against the stored PHC string `password_hash`.
/// A stored string that does not start with `$` is always refused.
pub fn verify_password(password: &str, password_hash: &str) -> (r: Result<(), CryptoError>)
    ensures
        r is Ok <==> password_matches(password@, password_hash@),
        !is_phc_candidate(password_hash@) ==> r is Err,
        r matches Err(e) ==> e == CryptoError::PasswordHash,
{
    match argon2_verify(password, password_hash) {
        Ok(()) => Ok(()),
        Err(_) => Err(CryptoError::PasswordHash),
    }
}

/// The refresh-token secret made of the given bytes: their lowercase hex text.
pub fn token_from_bytes(bytes: &[u8]) -> (token: String)
    ensures
        token@ == hex_lower(bytes@),
        token@.len() == 2 * bytes@.len(),
        forall|i: int| 0 <= i < token@.len() ==> is_lower_hex_char(#[trigger] token@[i]),
{
    let token = hex_encode(bytes);
    proof {
        lemma_hex_lower_shape(bytes@);
    }
    token
}

/// A fresh refresh-token secret: 32 random bytes in lowercase hex (64 characters).
pub fn gen_token() -> (token: String)
    ensures
        exists|bytes: Seq<u8>| bytes.len() == 32 && token@ == hex_lower(bytes),
        token@.len() == 64,
        forall|i: int| 0 <= i < token@.len() ==> is_lower_hex_char(#[trigger] token@[i]),
{
    let bytes = random_bytes(32);
    token_from_bytes(bytes.as_slice())
}

/// The stored form of a refresh-token secret: lowercase hex of its SHA-256 digest.
pub fn hash_token(token: &str) -> (digest: String)
    ensures
        digest@ == token_digest(token@),
        digest@.len() == 64,
        forall|i: int| 0 <= i < digest@.len() ==> is_lower_hex_char(#[trigger] digest@[i]),
{
    let bytes = token.as_bytes();
    let hashed = sha256_digest(bytes);
    let digest = hex_encode(hashed.as_slice());
    proof {
        lemma_hex_lower_shape(hashed@);
    }
    digest
}

/// The claims of an access token for the refresh token `token_id`, issued at `now`.
pub fn access_claims(token_id: String, now: Timestamp) -> (claims: Claims)
    ensures
        claims.aud@ == API_URL@,
        claims.exp == jwt_expiry(now.seconds),
        claims.iss@ == FRONT_URL@,
        claims.sub@ == token_id@,
{
    Claims {
        aud: String::from_str(API_URL),
        exp: access_expiry(now.seconds),
        iss: String::from_str(FRONT_URL),
        sub: token_id,
    }
}

/// Signs an access token for `token_id` issued at `now` with the HMAC secret.
pub fn gen_jwt_at(token_id: String, secret: &[u8], now: Timestamp) -> (r: Result<String, CryptoError>)
    ensures
        r is Ok,
        r matches Ok(token) ==> token@ == hs256_jwt(API_URL@, jwt_expiry(now.seconds), FRONT_URL@, token_id@, secret@),
        r matches Ok(token) ==> hs256_signature_valid(token@, secret@),
{
    let claims = access_claims(token_id, now);
    match sign_hs256(claims.aud.as_str(), claims.exp, claims.iss.as_str(), claims.sub.as_str(), secret) {
        Ok(token) => Ok(token),
        Err(_) => Err(CryptoError::Jwt),
    }
}

/// Signs an access token for `token_id`, issued now, with the HMAC secret: its expiry is the
/// clock reading taken during the call plus the access lifetime.
pub fn gen_jwt(token_id: String, secret: &[u8]) -> (r: Result<String, CryptoError>)
    ensures
        r is Ok,
        r matches Ok(token) ==> exists|issued: Timestamp| clock_reading(issued)
            && token@ == #[trigger] hs256_jwt(API_URL@, jwt_expiry(issued.seconds), FRONT_URL@, token_id@, secret@),
        r matches Ok(token) ==> hs256_signature_valid(token@, secret@),
{
    let now = current_time();
    gen_jwt_at(token_id, secret, now)
}

/// An access token that `gen_jwt` signed for `token_id` expires exactly one day (86 400 s)
/// after the clock reading taken while it was signed.
pub proof fn lemma_issued_token_expires_a_day_after_reading(token: Seq<char>, token_id: Seq<char>, secret: Seq<u8>)
    requires
        exists|issued: Timestamp| clock_reading(issued)
            && token == #[trigger] hs256_jwt(API_URL@, jwt_expiry(issued.seconds), FRONT_URL@, token_id, secret),
    ensures
        exists|issued: Timestamp| clock_reading(issued) && issued.seconds >= 0
            && token == #[trigger] hs256_jwt(API_URL@, (issued.seconds + 86400) as u64, FRONT_URL@, token_id, secret),
{
    let issued = choose|issued: Timestamp| clock_reading(issued)
        && token == #[trigger] hs256_jwt(API_URL@, jwt_expiry(issued.seconds), FRONT_URL@, token_id, secret);
    lemma_clock_reading_shape(issued);
    lemma_access_expiry_after_issue(issued);
    assert(jwt_expiry(issued.seconds) == (issued.seconds + 86400) as u64);
    assert(clock_reading(issued) && issued.seconds >= 0
        && token == hs256_jwt(API_URL@, (issued.seconds + 86400) as u64, FRONT_URL@, token_id, secret));
}

/// An access token that `gen_jwt` signed for `token_id`, checked by `verify_jwt` under the
/// same secret, gives back `token_id` as its subject, and is accepted exactly when the
/// check's clock reading is at least 60 s past the epoch and at most one day and 60 s after
/// the reading at which the token was signed.
pub proof fn lemma_issued_token_verified_within_a_day(token: Seq<char>, token_id: Seq<char>, secret: Seq<u8>, r: Result<Claims, CryptoError>)
    requires
        exists|issued: Timestamp| clock_reading(issued)
            && token == #[trigger] hs256_jwt(API_URL@, jwt_expiry(issued.seconds), FRONT_URL@, token_id, secret),
        is_jwt_check_outcome(token, secret, r),
    ensures
        exists|issued: Timestamp, checked: Timestamp| clock_reading(issued) && clock_reading(checked)
            && (r is Ok <==> (60 <= checked.seconds && checked.seconds <= issued.seconds + 86400 + 60)),
        r matches Ok(c) ==> c.sub@ == token_id && c.iss@ == FRONT_URL@ && c.aud@ == API_URL@,
{
    let issued = choose|issued: Timestamp| clock_reading(issued)
        && token == #[trigger] hs256_jwt(API_URL@, jwt_expiry(issued.seconds), FRONT_URL@, token_id, secret);
    lemma_access_expiry_after_issue(issued);
    let exp = jwt_expiry(issued.seconds);
    assert(token == hs256_jwt(API_URL@, exp, FRONT_URL@, token_id, secret));
    let checked = choose|checked: Timestamp| clock_reading(checked)
        && (r is Ok <==> (checked.seconds >= 60 && exp + 60 >= checked.seconds));
    assert(clock_reading(issued) && clock_reading(checked)
        && (r is Ok <==> (60 <= checked.seconds && checked.seconds <= issued.seconds + 86400 + 60)));
}

} // verus!
