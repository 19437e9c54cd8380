use vstd::prelude::*;

use crate::constants::{API_URL, FRONT_URL};
use crate::encoding::{parse_uuid, uuid_parsed, uuid_text};
use crate::password::{hs256_jwt, hs256_signature_valid, verify_jwt, Claims};
use crate::time::{clock_reading, Timestamp};
use crate::utils::{is_text_reply, text_reply, Reply};

verus! {

/// The `Authorization` header of a request, as the HTTP layer read it.
#[derive(Clone, Debug)]
pub enum AuthHeader {
    /// No such header.
    Missing,
    /// The header holds bytes that are not visible ASCII.
    Unreadable,
    /// The header's text.
    Text(String),
}

/// The scheme prefix of a bearer credential.
pub open spec fn bearer_prefix() -> Seq<char> {
    seq!['B', 'e', 'a', 'r', 'e', 'r', ' ']
}

/// `h` starts with the bearer prefix.
pub open spec fn has_bearer_prefix(h: Seq<char>) -> bool {
    h.len() >= 7 && h.subrange(0, 7) == bearer_prefix()
}

/// The token of a bearer credential: the header without its 7-character prefix. A missing
/// or unreadable header, or one without the prefix, is answered 401.
pub fn bearer_token(header: &AuthHeader) -> (r: Result<String, Reply>)
    ensures
        header is Missing ==> (r matches Err(reply) && is_text_reply(reply, 401, "Missing header"@)),
        header is Unreadable ==> (r matches Err(reply) && is_text_reply(reply, 401, "Wrong header format"@)),
        header matches AuthHeader::Text(h) ==> (if has_bearer_prefix(h@) {
            r matches Ok(token) && token@ == h@.subrange(7, h@.len() as int)
        } else {
            r matches Err(reply) && is_text_reply(reply, 401, "Missing Bearer token"@)
        }),
{
    match header {
        AuthHeader::Missing => Err(text_reply(401, "Missing header")),
        AuthHeader::Unreadable => Err(text_reply(401, "Wrong header format")),
        AuthHeader::Text(h) => {
            let text = h.as_str();
            if !starts_with_bearer(text) {
                return Err(text_reply(401, "Missing Bearer token"));
            }
            let token = text.substring_char(7, text.unicode_len());
            Ok(String::from_str(token))
        },
    }
}

/// Whether `text` starts with the bearer prefix.
fn starts_with_bearer(text: &str) -> (b: bool)
    ensures
        b == has_bearer_prefix(text@),
{
    let n = text.unicode_len();
    let prefix = "Bearer ";
    proof {
        reveal_strlit("Bearer ");
    }
    assert(prefix@ =~= bearer_prefix());
    if n < 7 {
        return false;
    }
    let mut i: usize = 0;
    while i < 7
        invariant
            n == text@.len(),
            n >= 7,
            i <= 7,
            prefix@ == bearer_prefix(),
            forall|j: int| 0 <= j < i ==> text@[j] == bearer_prefix()[j],
        decreases 7 - i,
    {
        if text.get_char(i) != prefix.get_char(i) {
            assert(text@.subrange(0, 7)[i as int] != bearer_prefix()[i as int]);
            return false;
        }
        i = i + 1;
    }
    assert(text@.subrange(0, 7) =~= bearer_prefix());
    true
}

/// Authentication of a request, before the token is checked: the bearer token, provided the
/// signing secret is configured (otherwise 500).
pub fn jwt_auth_token(header: &AuthHeader, secret: Option<&[u8]>) -> (r: Result<String, Reply>)
    ensures
        header is Missing ==> (r matches Err(reply) && is_text_reply(reply, 401, "Missing header"@)),
        header is Unreadable ==> (r matches Err(reply) && is_text_reply(reply, 401, "Wrong header format"@)),
        header matches AuthHeader::Text(h) ==> (if !has_bearer_prefix(h@) {
            r matches Err(reply) && is_text_reply(reply, 401, "Missing Bearer token"@)
        } else if secret is None {
            r matches Err(reply) && is_text_reply(reply, 500, "Secret fetch fail"@)
        } else {
            r matches Ok(token) && token@ == h@.subrange(7, h@.len() as int)
        }),
{
    let token = match bearer_token(header) {
        Ok(token) => token,
        Err(reply) => return Err(reply),
    };
    match secret {
        Some(_) => Ok(token),
        None => Err(text_reply(500, "Secret fetch fail")),
    }
}

/// Authentication of a request, once the token was checked: the refresh-token identifier
/// named by the token's subject. A refused token, or a subject that is not an identifier,
/// is answered 401.
pub fn jwt_auth_claims(verified: Option<Claims>) -> (r: Result<u128, Reply>)
    ensures
        verified is None ==> (r matches Err(reply) && is_text_reply(reply, 401, "Wrong JWT"@)),
        verified matches Some(c) ==> (match uuid_parsed(c.sub@) {
            Some(id) => r == Ok::<u128, Reply>(id),
            None => r matches Err(reply) && is_text_reply(reply, 401, "Wrong JWT"@),
        }),
        verified matches Some(c) ==> forall|u: u128| c.sub@ == #[trigger] uuid_text(u) ==> r == Ok::<u128, Reply>(u),
{
    match verified {
        None => Err(text_reply(401, "Wrong JWT")),
        Some(claims) => match parse_uuid(claims.sub.as_str()) {
            Some(id) => Ok(id),
            None => Err(text_reply(401, "Wrong JWT")),
        },
    }
}

/// What the check of a bearer token `token` under `key` may answer: a refusal is 401 "Wrong
/// JWT"; an accepted token has a valid signature; and a token that `gen_jwt` made with this
/// key for a refresh token is accepted only as that refresh token's identifier, and is
/// accepted exactly when, at the clock reading the check takes, its expiry is not more than
/// the 60 s leeway in the past.
pub open spec fn is_token_check_outcome(r: Result<u128, Reply>, token: Seq<char>, key: Seq<u8>) -> bool {
    &&& r matches Err(reply) ==> is_text_reply(reply, 401, "Wrong JWT"@)
    &&& r is Ok ==> hs256_signature_valid(token, key)
    &&& forall|exp: u64, u: u128|
        token == #[trigger] hs256_jwt(API_URL@, exp, FRONT_URL@, uuid_text(u), key) ==> (
            r matches Ok(id) ==> id == u)
    &&& forall|exp: u64, u: u128|
        token == #[trigger] hs256_jwt(API_URL@, exp, FRONT_URL@, uuid_text(u), key) && exp + 60 <= u64::MAX ==>
            exists|checked: Timestamp| clock_reading(checked)
                && (r == Ok::<u128, Reply>(u) <==> (checked.seconds >= 60 && exp + 60 >= checked.seconds))
}

/// Authentication of a request by its bearer access token: the identifier of the refresh
/// token named by the subject of a valid token. A missing, unreadable or non-bearer header is
/// answered 401, a missing signing secret 500, a refused token 401 "Wrong JWT".
pub fn jwt_auth_check(header: &AuthHeader, secret: Option<&[u8]>) -> (r: Result<u128, Reply>)
    ensures
        header is Missing ==> (r matches Err(reply) && is_text_reply(reply, 401, "Missing header"@)),
        header is Unreadable ==> (r matches Err(reply) && is_text_reply(reply, 401, "Wrong header format"@)),
        header matches AuthHeader::Text(h) ==> (!has_bearer_prefix(h@) ==> (
            r matches Err(reply) && is_text_reply(reply, 401, "Missing Bearer token"@))),
        header matches AuthHeader::Text(h) ==> (has_bearer_prefix(h@) && secret is None ==> (
            r matches Err(reply) && is_text_reply(reply, 500, "Secret fetch fail"@))),
        header matches AuthHeader::Text(h) ==> (has_bearer_prefix(h@) && secret is Some ==>
            is_token_check_outcome(r, h@.subrange(7, h@.len() as int), secret.unwrap()@)),
{
    let token = match jwt_auth_token(header, secret) {
        Ok(token) => token,
        Err(reply) => return Err(reply),
    };
    let key = match secret {
        Some(key) => key,
        None => return Err(text_reply(500, "Secret fetch fail")),
    };
    let verified = match verify_jwt(token.as_str(), key) {
        Ok(claims) => Some(claims),
        Err(_) => None,
    };
    jwt_auth_claims(verified)
}

} // verus!
