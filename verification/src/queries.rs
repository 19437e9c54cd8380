use vstd::prelude::*;

use crate::db::{RefreshToken, User};
use crate::encoding::new_uuid_v4;
use crate::password::{hash_token, token_digest};
use crate::time::{clock_reading, current_time, Timestamp};

verus! {

/// The account record stored at registration: the given fields and no dashboard layout.
pub fn user_record(id: u128, mail: String, name: String, password_hash: String, created_at: Timestamp) -> (user: User)
    ensures
        user.id == id,
        user.mail@ == mail@,
        user.name@ == name@,
        user.password_hash@ == password_hash@,
        user.dashboard_map is None,
        user.created_at == created_at,
{
    User { id, mail, name, password_hash, dashboard_map: None, created_at }
}

/// A new account record with a fresh random identifier, created at the clock reading taken
/// during the call.
pub fn new_user(mail: String, name: String, password_hash: String) -> (user: User)
    ensures
        user.mail@ == mail@,
        user.name@ == name@,
        user.password_hash@ == password_hash@,
        user.dashboard_map is None,
        clock_reading(user.created_at),
{
    let id = new_uuid_v4();
    let now = current_time();
    user_record(id, mail, name, password_hash, now)
}

/// The refresh-token record stored for `secret`: only the digest of the secret is kept.
pub fn refresh_token_record(id: u128, user_id: u128, secret: &str, created_at: Timestamp) -> (token: RefreshToken)
    ensures
        token.id == id,
        token.user_id == user_id,
        token.token_hash@ == token_digest(secret@),
        token.created_at == created_at,
{
    RefreshToken { id, user_id, token_hash: hash_token(secret), created_at }
}

/// A new refresh-token record for `user_id` and `secret`, with a fresh random identifier,
/// created at the clock reading taken during the call.
pub fn new_refresh_token(user_id: u128, secret: &str) -> (token: RefreshToken)
    ensures
        token.user_id == user_id,
        token.token_hash@ == token_digest(secret@),
        clock_reading(token.created_at),
{
    let id = new_uuid_v4();
    let now = current_time();
    refresh_token_record(id, user_id, secret, now)
}

} // verus!
