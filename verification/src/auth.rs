use vstd::prelude::*;

use crate::constants::{API_URL, FRONT_URL};
use crate::db::{RefreshToken, User};
use crate::encoding::{is_lower_hex_char, uuid_text, uuid_to_text};
use crate::password::{
    argon2_max_password_bytes, argon2_phc, has_argon2id_prefix, is_salt_text, gen_jwt, gen_token, hash_password, hash_token, hs256_jwt,
    password_matches, token_digest, verify_password,
};
use crate::requests::{JwtResponse, LoginRequest, RegisterRequest, TokenResponse, UserInfo};
use crate::middleware::is_token_check_outcome;
use crate::time::{
    clock_reading, current_time, is_refresh_expired, jwt_expiry, lemma_access_expiry_after_issue, refresh_expired, Timestamp,
};
use crate::utils::{
    build_refresh_token_cookie, internal_err, is_message_reply, is_refresh_cookie, is_text_reply,
    is_removal_cookie, message_reply, parse_refresh_cookie, remove_refresh_token_cookie, Reply,
    ReplyBody,
};

verus! {

/// Name of the database constraint that keeps account e-mail addresses unique.
pub const MAIL_UNIQUE_CONSTRAINT: &'static str = "users_mail_key";

/// A failed database operation: its text and, for a violated constraint, the constraint's
/// name.
#[derive(Clone, Debug)]
pub struct DbError {
    pub message: String,
    pub constraint: Option<String>,
}

/// A session being opened for an account: what the client will be told about the account
/// and the refresh-token secret that only the client keeps (the database keeps its digest).
#[derive(Clone, Debug)]
pub struct NewSession {
    pub user: UserInfo,
    pub secret: String,
}

/// `s` is a session for the account `user_id`, with a fresh secret of 64 lowercase hex
/// characters.
pub open spec fn is_session_for(s: NewSession, user_id: u128) -> bool {
    &&& s.user.id == user_id
    &&& s.secret@.len() == 64
    &&& forall|i: int| 0 <= i < s.secret@.len() ==> is_lower_hex_char(#[trigger] s.secret@[i])
}

/// `token` is an access token for the refresh token `id`, signed with `key` and issued at a
/// clock reading taken while the reply was made: it expires one access lifetime after that
/// reading.
pub open spec fn is_fresh_access_token(token: Seq<char>, id: u128, key: Seq<u8>) -> bool {
    exists|issued: Timestamp| clock_reading(issued)
        && token == #[trigger] hs256_jwt(API_URL@, jwt_expiry(issued.seconds), FRONT_URL@, uuid_text(id), key)
}

/// `r` opens the session `s`, whose refresh token is `refresh_id`, with status `status`: it
/// carries an access token for that refresh token issued now, the account, and the
/// refresh-token cookie.
pub open spec fn is_session_reply(r: Reply, status: u16, s: NewSession, refresh_id: u128, key: Seq<u8>) -> bool {
    &&& r.status == status
    &&& r.body matches ReplyBody::Token(t) && t.user == s.user
        && is_fresh_access_token(t.access_token@, refresh_id, key)
    &&& r.cookie matches Some(c) && is_refresh_cookie(c, refresh_id, s.secret@)
}

/// `r` answers 200 with an access token for the refresh token `id` issued now, and sets no
/// cookie.
pub open spec fn is_jwt_reply(r: Reply, id: u128, key: Seq<u8>) -> bool {
    &&& r.status == 200
    &&& r.cookie is None
    &&& r.body matches ReplyBody::Jwt(j) && is_fresh_access_token(j.access_token@, id, key)
}

/// `r` answers a logout: 200, a message, and the cookie that deletes the refresh-token cookie.
pub open spec fn is_logout_reply(r: Reply) -> bool {
    &&& r.status == 200
    &&& r.body matches ReplyBody::Message(m) && m.message@ == "User successfully disconnected"@
    &&& r.cookie matches Some(c) && is_removal_cookie(c)
}

/// Statuses that the registration endpoint documents.
pub open spec fn register_documented(status: u16) -> bool {
    status == 201 || status == 409 || status == 500
}

/// Statuses that the login endpoint documents.
pub open spec fn login_documented(status: u16) -> bool {
    status == 200 || status == 401 || status == 404 || status == 500
}

/// Statuses that the access-token refresh endpoint documents.
pub open spec fn get_jwt_documented(status: u16) -> bool {
    status == 200 || status == 400 || status == 401 || status == 404 || status == 500
}

/// Statuses that the logout endpoint documents.
pub open spec fn disconnect_documented(status: u16) -> bool {
    status == 200 || status == 401 || status == 500
}

/// Opening the transaction of a registration or a login: a failure is answered 500.
pub fn transaction_opened(opened: Result<(), DbError>) -> (r: Option<Reply>)
    ensures
        opened is Ok <==> r is None,
        r matches Some(reply) ==> is_message_reply(reply, 500, "Failed to retrieve database connection"@),
{
    match opened {
        Ok(()) => None,
        Err(_) => Some(internal_err("Failed to retrieve database connection")),
    }
}

/// Opening the transaction of a token refresh or a logout: a failure is answered 500 with
/// the database's own text.
pub fn transaction_opened_verbose(opened: Result<(), DbError>) -> (r: Option<Reply>)
    ensures
        opened is Ok <==> r is None,
        opened matches Err(e) ==> (r matches Some(reply) && is_message_reply(reply, 500, e.message@)),
{
    match opened {
        Ok(()) => None,
        Err(e) => Some(internal_err(e.message.as_str())),
    }
}

/// Opens a session for the account `user` with a fresh refresh-token secret.
pub fn issue_session(user: UserInfo) -> (s: NewSession)
    ensures
        is_session_for(s, user.id),
        s.user == user,
{
    let secret = gen_token();
    NewSession { user, secret }
}

/// Registration, once the transaction is open: hash the password for the new account.
pub fn register_prepare(req: &RegisterRequest) -> (r: Result<String, Reply>)
    ensures
        r matches Ok(phc) ==> password_matches(req.password@, phc@) && has_argon2id_prefix(phc@)
            && exists|salt: Seq<char>| is_salt_text(salt) && phc@ == #[trigger] argon2_phc(req.password@, salt),
        vstd::utf8::encode_utf8(req.password@).len() <= argon2_max_password_bytes() ==> r is Ok,
        r matches Err(reply) ==> is_message_reply(reply, 500, "Fail to hash password"@),
{
    match hash_password(req.password.as_str()) {
        Ok(phc) => Ok(phc),
        Err(_) => Err(internal_err("Fail to hash password")),
    }
}

/// `e` is the violation of the unique e-mail constraint.
pub open spec fn is_mail_taken(e: DbError) -> bool {
    e.constraint matches Some(c) && c@ == MAIL_UNIQUE_CONSTRAINT@
}

/// Registration, once the account insert returned: a taken e-mail address is answered 409,
/// another failure 500; otherwise a session is opened for the new account.
pub fn register_user_inserted(req: &RegisterRequest, inserted: Result<User, DbError>) -> (r: Result<NewSession, Reply>)
    ensures
        inserted matches Err(e) ==> (r matches Err(reply) && (
            if is_mail_taken(e) {
                is_message_reply(reply, 409, "An account with this email already exists"@)
            } else {
                is_message_reply(reply, 500, "Failed to create account"@)
            })),
        inserted matches Ok(user) ==> (r matches Ok(s) && is_session_for(s, user.id)
            && s.user.mail@ == req.mail@ && s.user.name@ == req.name@),
        r matches Err(reply) ==> register_documented(reply.status),
{
    match inserted {
        Err(e) => {
            let taken = match &e.constraint {
                Some(c) => {
                    let key = String::from_str(MAIL_UNIQUE_CONSTRAINT);
                    *c == key
                },
                None => false,
            };
            if taken {
                Err(message_reply(409, "An account with this email already exists"))
            } else {
                Err(internal_err("Failed to create account"))
            }
        },
        Ok(user) => {
            let info = UserInfo { id: user.id, mail: req.mail.clone(), name: req.name.clone() };
            Ok(issue_session(info))
        },
    }
}

/// Storing a session's refresh token: a failure is answered 500.
pub fn refresh_token_stored(stored: Result<RefreshToken, DbError>) -> (r: Result<RefreshToken, Reply>)
    ensures
        stored matches Ok(t) ==> r matches Ok(u) && u == t,
        stored is Err ==> (r matches Err(reply) && is_message_reply(reply, 500, "Failed to store refresh token"@)),
{
    match stored {
        Ok(t) => Ok(t),
        Err(_) => Err(internal_err("Failed to store refresh token")),
    }
}

/// Ends a registration or a login once the commit returned: a failure is answered 500;
/// otherwise an access token is signed and the session is answered with `status`, its
/// access token, the account and the refresh-token cookie.
fn finish_session(status: u16, session: NewSession, refresh_token: &RefreshToken, committed: Result<(), DbError>, key: &[u8]) -> (r: Reply)
    ensures
        committed is Err ==> is_message_reply(r, 500, "Fail to commit changes to db"@),
        committed is Ok ==> is_session_reply(r, status, session, refresh_token.id, key@),
{
    if committed.is_err() {
        return internal_err("Fail to commit changes to db");
    }
    let cookie = build_refresh_token_cookie(refresh_token.id, session.secret.clone());
    let token_id = uuid_to_text(refresh_token.id);
    match gen_jwt(token_id, key) {
        Ok(access_token) => Reply {
            status,
            body: ReplyBody::Token(TokenResponse { access_token, user: session.user }),
            cookie: Some(cookie),
        },
        Err(_) => internal_err("Failed to generate JWT"),
    }
}

/// Registration, once the commit returned: 201 with the new session, or 500.
pub fn register_committed(session: NewSession, refresh_token: &RefreshToken, committed: Result<(), DbError>, key: &[u8]) -> (r: Reply)
    ensures
        committed is Err ==> is_message_reply(r, 500, "Fail to commit changes to db"@),
        committed is Ok ==> is_session_reply(r, 201, session, refresh_token.id, key@),
        register_documented(r.status),
{
    finish_session(201, session, refresh_token, committed, key)
}

/// Login, once the account lookup returned: an unknown address is answered 404, a lookup
/// failure 500, a wrong password 401; otherwise a session is issued for the account.
pub fn login_user_found(req: &LoginRequest, found: Result<Option<User>, DbError>) -> (r: Result<NewSession, Reply>)
    ensures
        found is Err ==> (r matches Err(reply) && is_message_reply(reply, 500, "Failed to fetch user"@)),
        found matches Ok(None) ==> (r matches Err(reply) && is_message_reply(reply, 404, "Unknown user"@)),
        found matches Ok(Some(user)) ==> (
            if password_matches(req.password@, user.password_hash@) {
                r matches Ok(s) && is_session_for(s, user.id) && s.user.mail@ == user.mail@
                    && s.user.name@ == user.name@
            } else {
                r matches Err(reply) && is_message_reply(reply, 401, "Wrong password"@)
            }),
        r matches Err(reply) ==> login_documented(reply.status),
{
    match found {
        Err(_) => Err(internal_err("Failed to fetch user")),
        Ok(None) => Err(message_reply(404, "Unknown user")),
        Ok(Some(user)) => {
            match verify_password(req.password.as_str(), user.password_hash.as_str()) {
                Ok(()) => {
                    let info = UserInfo { id: user.id, mail: user.mail, name: user.name };
                    Ok(issue_session(info))
                },
                Err(_) => Err(message_reply(401, "Wrong password")),
            }
        },
    }
}

/// Login, once the commit returned: 200 with the new session, or 500.
pub fn login_committed(session: NewSession, refresh_token: &RefreshToken, committed: Result<(), DbError>, key: &[u8]) -> (r: Reply)
    ensures
        committed is Err ==> is_message_reply(r, 500, "Fail to commit changes to db"@),
        committed is Ok ==> is_session_reply(r, 200, session, refresh_token.id, key@),
        login_documented(r.status),
{
    finish_session(200, session, refresh_token, committed, key)
}

/// Access-token refresh, on the request's refresh-token cookie: a missing cookie is
/// answered 404, a value that is not `<token id>.<secret>` 400.
pub fn get_jwt_cookie(cookie: Option<&str>) -> (r: Result<(u128, String), Reply>)
    ensures
        cookie is None ==> (r matches Err(reply) && is_message_reply(reply, 404, "Missing refresh token"@)),
        cookie matches Some(value) ==> (
            r matches Ok((id, secret)) ==> exists|head: Seq<char>|
                value@ == head + seq!['.'] + secret@ && !head.contains('.')
                && #[trigger] crate::encoding::uuid_parsed(head) == Some(id)),
        cookie matches Some(value) ==> (
            r matches Err(reply) ==> is_message_reply(reply, 400, "Wrong cookie format"@)),
        cookie matches Some(value) ==> (r is Err ==> !value@.contains('.') || exists|head: Seq<char>|
            head.len() < value@.len() && value@.subrange(0, head.len() as int) == head && value@[head.len() as int] == '.'
                && !head.contains('.') && #[trigger] crate::encoding::uuid_parsed(head) is None),
        cookie matches Some(value) ==> forall|id: u128, secret: Seq<char>|
            value@ == #[trigger] crate::utils::refresh_cookie_text(id, secret) ==> (
                r matches Ok((i, s)) && i == id && s@ == secret),
        r matches Err(reply) ==> get_jwt_documented(reply.status),
{
    match cookie {
        None => Err(message_reply(404, "Missing refresh token")),
        Some(value) => {
            match parse_refresh_cookie(value) {
                Some(parts) => Ok(parts),
                None => Err(message_reply(400, "Wrong cookie format")),
            }
        },
    }
}

/// What follows the refresh-token lookup.
#[derive(Clone, Debug)]
pub enum RefreshLookup {
    /// The token has expired: delete it, commit, and answer 401.
    DeleteExpired,
    /// Answer now.
    Done(Reply),
}

/// What the token refresh answers, once the token lookup returned, when judged at time
/// `now`: a lookup failure is answered 500, an unknown token 404; a token whose lifetime ended
/// before `now` is to be deleted; otherwise a secret whose digest is not the stored one is
/// answered 401, and the right secret gets a new access token for the refresh token.
pub open spec fn is_lookup_outcome(found: Result<Option<RefreshToken>, DbError>, secret: Seq<char>, key: Seq<u8>, now: Timestamp, r: RefreshLookup) -> bool {
    match found {
        Err(_) => r matches RefreshLookup::Done(reply) && is_message_reply(reply, 500, "Failed to fetch refresh token"@),
        Ok(None) => r matches RefreshLookup::Done(reply) && is_message_reply(reply, 404, "Refresh token not found"@),
        Ok(Some(t)) => if refresh_expired(t.created_at, now) {
            r is DeleteExpired
        } else if token_digest(secret) == t.token_hash@ {
            r matches RefreshLookup::Done(reply) && is_jwt_reply(reply, t.id, key)
        } else {
            r matches RefreshLookup::Done(reply) && is_message_reply(reply, 401, "Invalid refresh token"@)
        },
    }
}

/// Access-token refresh, once the token lookup returned, at time `now`: a lookup failure is
/// answered 500, an unknown token 404; an expired token is to be deleted; a secret whose
/// digest is not the stored one is answered 401; otherwise a new access token for the
/// refresh token is answered 200.
pub fn get_jwt_token_found_at(found: Result<Option<RefreshToken>, DbError>, secret: &str, key: &[u8], now: Timestamp) -> (r: RefreshLookup)
    ensures
        found is Err ==> (r matches RefreshLookup::Done(reply)
            && is_message_reply(reply, 500, "Failed to fetch refresh token"@)),
        found matches Ok(None) ==> (r matches RefreshLookup::Done(reply)
            && is_message_reply(reply, 404, "Refresh token not found"@)),
        found matches Ok(Some(t)) ==> (refresh_expired(t.created_at, now) <==> r is DeleteExpired),
        found matches Ok(Some(t)) ==> (!refresh_expired(t.created_at, now) && token_digest(secret@) != t.token_hash@ ==> (
            r matches RefreshLookup::Done(reply) && is_message_reply(reply, 401, "Invalid refresh token"@))),
        found matches Ok(Some(t)) ==> (!refresh_expired(t.created_at, now) && token_digest(secret@) == t.token_hash@ ==> (
            r matches RefreshLookup::Done(reply) && is_jwt_reply(reply, t.id, key@))),
        r matches RefreshLookup::Done(reply) ==> get_jwt_documented(reply.status),
        is_lookup_outcome(found, secret@, key@, now, r),
{
    match found {
        Err(_) => RefreshLookup::Done(internal_err("Failed to fetch refresh token")),
        Ok(None) => RefreshLookup::Done(message_reply(404, "Refresh token not found")),
        Ok(Some(token)) => {
            if is_refresh_expired(token.created_at, now) {
                return RefreshLookup::DeleteExpired;
            }
            let presented = hash_token(secret);
            if presented == token.token_hash {
                let token_id = uuid_to_text(token.id);
                match gen_jwt(token_id, key) {
                    Ok(access_token) => RefreshLookup::Done(Reply {
                        status: 200,
                        body: ReplyBody::Jwt(JwtResponse { access_token }),
                        cookie: None,
                    }),
                    Err(_) => RefreshLookup::Done(internal_err("Failed to generate JWT")),
                }
            } else {
                RefreshLookup::Done(message_reply(401, "Invalid refresh token"))
            }
        },
    }
}

/// Access-token refresh, once the token lookup returned, judged at the current time: the
/// secret of a stored token that has not expired is exchanged for a new access token.
pub fn get_jwt_token_found(found: Result<Option<RefreshToken>, DbError>, secret: &str, key: &[u8]) -> (r: RefreshLookup)
    ensures
        found is Err ==> (r matches RefreshLookup::Done(reply)
            && is_message_reply(reply, 500, "Failed to fetch refresh token"@)),
        found matches Ok(None) ==> (r matches RefreshLookup::Done(reply)
            && is_message_reply(reply, 404, "Refresh token not found"@)),
        found matches Ok(Some(t)) ==> (token_digest(secret@) == t.token_hash@ ==> (
            r is DeleteExpired || (r matches RefreshLookup::Done(reply) && is_jwt_reply(reply, t.id, key@)))),
        found matches Ok(Some(t)) ==> (token_digest(secret@) != t.token_hash@ ==> (
            r is DeleteExpired || (r matches RefreshLookup::Done(reply)
                && is_message_reply(reply, 401, "Invalid refresh token"@)))),
        r matches RefreshLookup::Done(reply) ==> get_jwt_documented(reply.status),
        exists|now: Timestamp| clock_reading(now) && #[trigger] is_lookup_outcome(found, secret@, key@, now, r),
{
    let now = current_time();
    get_jwt_token_found_at(found, secret, key, now)
}

/// Deleting an expired refresh token: a failure is answered 500.
pub fn expired_token_deleted(deleted: Result<(), DbError>) -> (r: Option<Reply>)
    ensures
        deleted is Ok <==> r is None,
        r matches Some(reply) ==> is_message_reply(reply, 500, "Failed to delete expired refresh token"@),
{
    match deleted {
        Ok(()) => None,
        Err(_) => Some(internal_err("Failed to delete expired refresh token")),
    }
}

/// After deleting an expired refresh token, once the commit returned: 401, or 500.
pub fn expired_token_committed(committed: Result<(), DbError>) -> (r: Reply)
    ensures
        committed is Ok ==> is_message_reply(r, 401, "Refresh token expired"@),
        committed is Err ==> is_message_reply(r, 500, "Failed to commit changes"@),
        get_jwt_documented(r.status),
{
    match committed {
        Ok(()) => message_reply(401, "Refresh token expired"),
        Err(_) => internal_err("Failed to commit changes"),
    }
}

/// Logout: the refresh-token identifier that the authentication layer attached to the
/// request; without one the answer is 500.
pub fn disconnect_token_id(attached: Option<u128>) -> (r: Result<u128, Reply>)
    ensures
        attached matches Some(id) ==> r == Ok::<u128, Reply>(id),
        attached is None ==> (r matches Err(reply) && is_message_reply(reply, 500, "Middleware failed"@)),
{
    match attached {
        Some(id) => Ok(id),
        None => Err(internal_err("Middleware failed")),
    }
}

/// Logout, once the refresh token's deletion returned: a failure is answered 500.
pub fn disconnect_deleted(deleted: Result<(), DbError>) -> (r: Option<Reply>)
    ensures
        deleted is Ok <==> r is None,
        r matches Some(reply) ==> is_message_reply(reply, 500, "Failed to disconnect user"@),
{
    match deleted {
        Ok(()) => None,
        Err(_) => Some(internal_err("Failed to disconnect user")),
    }
}

/// Logout, once the commit returned: 200 with a message and the cookie that deletes the
/// refresh-token cookie, or 500.
pub fn disconnect_committed(committed: Result<(), DbError>) -> (r: Reply)
    ensures
        committed is Ok ==> is_logout_reply(r),
        committed is Err ==> is_message_reply(r, 500, "Failed to commit changes"@),
        disconnect_documented(r.status),
{
    match committed {
        Ok(()) => {
            let mut reply = message_reply(200, "User successfully disconnected");
            reply.cookie = Some(remove_refresh_token_cookie());
            reply
        },
        Err(_) => internal_err("Failed to commit changes"),
    }
}

/// An access token issued now for the refresh token `id`, checked by the authentication
/// layer under the same key, is accepted as `id` exactly when the check's clock reading is at
/// least 60 s past the epoch and at most one day and 60 s after the reading at which the
/// token was issued; otherwise it is answered 401 "Wrong JWT".
pub proof fn lemma_fresh_token_accepted_within_a_day(token: Seq<char>, id: u128, key: Seq<u8>, r: Result<u128, Reply>)
    requires
        is_fresh_access_token(token, id, key),
        is_token_check_outcome(r, token, key),
    ensures
        exists|issued: Timestamp, checked: Timestamp| clock_reading(issued) && clock_reading(checked)
            && (r == Ok::<u128, Reply>(id) <==> (60 <= checked.seconds && checked.seconds <= issued.seconds + 86400 + 60)),
        r is Ok ==> r == Ok::<u128, Reply>(id),
        r matches Err(reply) ==> is_text_reply(reply, 401, "Wrong JWT"@),
{
    let issued = choose|issued: Timestamp| clock_reading(issued)
        && token == #[trigger] hs256_jwt(API_URL@, jwt_expiry(issued.seconds), FRONT_URL@, uuid_text(id), key);
    lemma_access_expiry_after_issue(issued);
    let exp = jwt_expiry(issued.seconds);
    assert(token == hs256_jwt(API_URL@, exp, FRONT_URL@, uuid_text(id), key));
    let checked = choose|checked: Timestamp| clock_reading(checked)
        && (r == Ok::<u128, Reply>(id) <==> (checked.seconds >= 60 && exp + 60 >= checked.seconds));
    assert(clock_reading(issued) && clock_reading(checked)
        && (r == Ok::<u128, Reply>(id) <==> (60 <= checked.seconds && checked.seconds <= issued.seconds + 86400 + 60)));
}

/// The access token of a session opened by a login (status 200) or a registration (status
/// 201) is accepted by the authentication layer as the session's refresh token while the
/// check's clock reading is at least 60 s past the epoch and at most one day and 60 s after
/// the reading at which the session was opened, and is answered 401 "Wrong JWT" otherwise.
pub proof fn lemma_session_token_accepted_within_a_day(reply: Reply, status: u16, s: NewSession, id: u128, key: Seq<u8>, r: Result<u128, Reply>)
    requires
        is_session_reply(reply, status, s, id, key),
        reply.body matches ReplyBody::Token(t) && is_token_check_outcome(r, t.access_token@, key),
    ensures
        exists|issued: Timestamp, checked: Timestamp| clock_reading(issued) && clock_reading(checked)
            && (r == Ok::<u128, Reply>(id) <==> (60 <= checked.seconds && checked.seconds <= issued.seconds + 86400 + 60)),
        r is Ok ==> r == Ok::<u128, Reply>(id),
        r matches Err(e) ==> is_text_reply(e, 401, "Wrong JWT"@),
{
    let t = reply.body->Token_0;
    lemma_fresh_token_accepted_within_a_day(t.access_token@, id, key, r);
}

/// The access token that a token refresh answers for the refresh token `id` is accepted by
/// the authentication layer as `id` while the check's clock reading is at least 60 s past
/// the epoch and at most one day and 60 s after the reading at which it was issued, and is
/// answered 401 "Wrong JWT" otherwise.
pub proof fn lemma_refreshed_token_accepted_within_a_day(reply: Reply, id: u128, key: Seq<u8>, r: Result<u128, Reply>)
    requires
        is_jwt_reply(reply, id, key),
        reply.body matches ReplyBody::Jwt(j) && is_token_check_outcome(r, j.access_token@, key),
    ensures
        exists|issued: Timestamp, checked: Timestamp| clock_reading(issued) && clock_reading(checked)
            && (r == Ok::<u128, Reply>(id) <==> (60 <= checked.seconds && checked.seconds <= issued.seconds + 86400 + 60)),
        r is Ok ==> r == Ok::<u128, Reply>(id),
        r matches Err(e) ==> is_text_reply(e, 401, "Wrong JWT"@),
{
    let j = reply.body->Jwt_0;
    lemma_fresh_token_accepted_within_a_day(j.access_token@, id, key, r);
}

/// A token refresh is judged at a clock reading `now`: a stored refresh token whose 30-day
/// lifetime (2 592 000 s) ends after `now` is kept and, presented with its secret, exchanged
/// for an access token issued now for it; one whose lifetime ended a second or more before
/// `now` is deleted.
pub proof fn lemma_refresh_judged_at_clock(t: RefreshToken, secret: Seq<char>, key: Seq<u8>, r: RefreshLookup)
    requires
        exists|now: Timestamp| clock_reading(now)
            && #[trigger] is_lookup_outcome(Ok::<Option<RefreshToken>, DbError>(Some(t)), secret, key, now, r),
    ensures
        exists|now: Timestamp| clock_reading(now)
            && (now.seconds < t.created_at.seconds + 2_592_000 ==> !(r is DeleteExpired))
            && (now.seconds < t.created_at.seconds + 2_592_000 && token_digest(secret) == t.token_hash@ ==> (
                r matches RefreshLookup::Done(reply) && is_jwt_reply(reply, t.id, key)))
            && (now.seconds > t.created_at.seconds + 2_592_000 ==> r is DeleteExpired),
{
    let now = choose|now: Timestamp| clock_reading(now)
        && #[trigger] is_lookup_outcome(Ok::<Option<RefreshToken>, DbError>(Some(t)), secret, key, now, r);
    assert(clock_reading(now)
        && (now.seconds < t.created_at.seconds + 2_592_000 ==> !(r is DeleteExpired))
        && (now.seconds < t.created_at.seconds + 2_592_000 && token_digest(secret) == t.token_hash@ ==> (
            r matches RefreshLookup::Done(reply) && is_jwt_reply(reply, t.id, key)))
        && (now.seconds > t.created_at.seconds + 2_592_000 ==> r is DeleteExpired));
}

} // verus!
