use auth_api::auth::{
    disconnect_committed, disconnect_deleted, disconnect_token_id, expired_token_committed,
    expired_token_deleted, get_jwt_cookie, get_jwt_token_found_at, issue_session,
    login_committed, login_user_found, refresh_token_stored, register_committed,
    register_prepare, register_user_inserted, transaction_opened, transaction_opened_verbose,
    DbError, RefreshLookup,
};
use auth_api::queries::new_user;
use auth_api::db::{RefreshToken, User};
use auth_api::password::{hash_password, hash_token, verify_jwt, verify_password};
use auth_api::queries::{new_refresh_token, refresh_token_record, user_record};
use auth_api::requests::{LoginRequest, RegisterRequest, UserInfo};
use auth_api::time::Timestamp;
use auth_api::utils::{build_refresh_token_cookie, Reply, ReplyBody};

fn db_err(message: &str, constraint: Option<&str>) -> DbError {
    DbError { message: message.to_string(), constraint: constraint.map(|c| c.to_string()) }
}

fn message_of(r: &Reply) -> String {
    match &r.body {
        ReplyBody::Message(m) => m.message.clone(),
        ReplyBody::Text(t) => t.clone(),
        _ => panic!("expected a message"),
    }
}

fn register_req() -> RegisterRequest {
    RegisterRequest {
        mail: "ada@example.com".to_string(),
        name: "Ada".to_string(),
        password: "hunter2".to_string(),
    }
}

const ID: u128 = 0x67e5_5044_10b1_426f_9247_bb68_0e5f_e0c8;

fn at(seconds: i64) -> Timestamp {
    Timestamp { seconds, nanos: 0 }
}

#[test]
fn opening_the_transaction() {
    assert!(transaction_opened(Ok(())).is_none());
    let r = transaction_opened(Err(db_err("pool closed", None))).unwrap();
    assert_eq!((r.status, message_of(&r)), (500, "Failed to retrieve database connection".to_string()));
    let r = transaction_opened_verbose(Err(db_err("pool closed", None))).unwrap();
    assert_eq!((r.status, message_of(&r)), (500, "pool closed".to_string()));
}

#[test]
fn registration_prepares_account() {
    let req = register_req();
    let phc = register_prepare(&req).unwrap();
    assert!(verify_password("hunter2", &phc).is_ok());
    let user = new_user(req.mail.clone(), req.name.clone(), phc.clone());
    assert_eq!(user.mail, req.mail);
    assert_eq!(user.name, req.name);
    assert_eq!(user.password_hash, phc);
    assert!(user.dashboard_map.is_none());
}

#[test]
fn registration_with_taken_mail_is_conflict() {
    let req = register_req();
    let r = register_user_inserted(&req, Err(db_err("dup", Some("users_mail_key")))).unwrap_err();
    assert_eq!((r.status, message_of(&r)), (409, "An account with this email already exists".to_string()));
    let r = register_user_inserted(&req, Err(db_err("dup", Some("other_key")))).unwrap_err();
    assert_eq!((r.status, message_of(&r)), (500, "Failed to create account".to_string()));
    let r = register_user_inserted(&req, Err(db_err("down", None))).unwrap_err();
    assert_eq!((r.status, message_of(&r)), (500, "Failed to create account".to_string()));
}

#[test]
fn registration_issues_session() {
    let req = register_req();
    let user = user_record(7, req.mail.clone(), req.name.clone(), "h".to_string(), at(0));
    let s = register_user_inserted(&req, Ok(user)).unwrap();
    assert_eq!(s.user.id, 7);
    assert_eq!(s.user.mail, req.mail);
    assert_eq!(s.secret.len(), 64);

    let stored = new_refresh_token(7, &s.secret);
    assert_eq!(stored.user_id, 7);
    assert_eq!(stored.token_hash, hash_token(&s.secret));
    let t = refresh_token_stored(Ok(stored.clone())).unwrap();
    assert_eq!(t.id, stored.id);
    let r = refresh_token_stored(Err(db_err("x", None))).unwrap_err();
    assert_eq!((r.status, message_of(&r)), (500, "Failed to store refresh token".to_string()));

    let r = register_committed(s.clone(), &t, Err(db_err("x", None)), b"key");
    assert_eq!((r.status, message_of(&r)), (500, "Fail to commit changes to db".to_string()));
    assert!(r.cookie.is_none());

    let r = register_committed(s.clone(), &t, Ok(()), b"key");
    assert_eq!(r.status, 201);
    let cookie = r.cookie.clone().unwrap();
    let expected = build_refresh_token_cookie(t.id, s.secret.clone());
    assert_eq!(cookie.value, expected.value);
    match r.body {
        ReplyBody::Token(tr) => {
            assert_eq!(tr.user.id, 7);
            assert_eq!(tr.user.name, "Ada");
            assert_eq!(tr.access_token.split('.').count(), 3);
        }
        _ => panic!("expected a token body"),
    }
}

#[test]
fn login_decisions() {
    let req = LoginRequest { mail: "ada@example.com".to_string(), password: "hunter2".to_string() };
    let r = login_user_found(&req, Err(db_err("x", None))).unwrap_err();
    assert_eq!((r.status, message_of(&r)), (500, "Failed to fetch user".to_string()));
    let r = login_user_found(&req, Ok(None)).unwrap_err();
    assert_eq!((r.status, message_of(&r)), (404, "Unknown user".to_string()));

    let phc = hash_password("hunter2").unwrap();
    let user = user_record(9, req.mail.clone(), "Ada".to_string(), phc.clone(), at(0));
    let s = login_user_found(&req, Ok(Some(user.clone()))).unwrap();
    assert_eq!(s.user.id, 9);
    assert_eq!(s.user.name, "Ada");
    assert_eq!(s.secret.len(), 64);

    let wrong = LoginRequest { mail: req.mail.clone(), password: "nope".to_string() };
    let r = login_user_found(&wrong, Ok(Some(user))).unwrap_err();
    assert_eq!((r.status, message_of(&r)), (401, "Wrong password".to_string()));

    let t = new_refresh_token(9, &s.secret);
    let r = login_committed(s, &t, Ok(()), b"key");
    assert_eq!(r.status, 200);
    assert!(r.cookie.is_some());
}

#[test]
fn refresh_cookie_decisions() {
    let r = get_jwt_cookie(None).unwrap_err();
    assert_eq!((r.status, message_of(&r)), (404, "Missing refresh token".to_string()));
    let r = get_jwt_cookie(Some("nodot")).unwrap_err();
    assert_eq!((r.status, message_of(&r)), (400, "Wrong cookie format".to_string()));
    let r = get_jwt_cookie(Some("zzz.secret")).unwrap_err();
    assert_eq!((r.status, message_of(&r)), (400, "Wrong cookie format".to_string()));
    let c = build_refresh_token_cookie(42, "abc".to_string());
    assert_eq!(get_jwt_cookie(Some(&c.value)).unwrap(), (42, "abc".to_string()));
}

fn stored(created: Timestamp, hash: &str) -> RefreshToken {
    RefreshToken { id: 42, user_id: 7, token_hash: hash.to_string(), created_at: created }
}

#[test]
fn refresh_lookup_decisions() {
    let now = at(10_000_000);
    match get_jwt_token_found_at(Err(db_err("x", None)), "s", b"k", now) {
        RefreshLookup::Done(r) => assert_eq!((r.status, message_of(&r)), (500, "Failed to fetch refresh token".to_string())),
        _ => panic!(),
    }
    match get_jwt_token_found_at(Ok(None), "s", b"k", now) {
        RefreshLookup::Done(r) => assert_eq!((r.status, message_of(&r)), (404, "Refresh token not found".to_string())),
        _ => panic!(),
    }
    let old = stored(at(10_000_000 - 30 * 86_400 - 1), "h");
    assert!(matches!(get_jwt_token_found_at(Ok(Some(old)), "s", b"k", now), RefreshLookup::DeleteExpired));
}

#[test]
fn issued_refresh_token_is_exchanged() {
    let now = at(10_000_000);
    let issued = new_refresh_token(7, "abc");
    assert_eq!(issued.token_hash, "ba7816bf8f01cfea414140de5dae2223b00361a396177a9cb410ff61f20015ad");
    let t = refresh_token_record(ID, 7, "abc", now);
    match get_jwt_token_found_at(Ok(Some(t)), "abc", b"k", now) {
        RefreshLookup::Done(r) => {
            assert_eq!(r.status, 200);
            assert!(r.cookie.is_none());
            match r.body {
                ReplyBody::Jwt(j) => {
                    let claims = verify_jwt(&j.access_token, b"k").unwrap();
                    assert_eq!(claims.sub, "67e55044-10b1-426f-9247-bb680e5fe0c8");
                }
                _ => panic!("expected an access token"),
            }
        }
        _ => panic!(),
    }
}

#[test]
fn refresh_with_wrong_secret_is_refused() {
    let now = at(10_000_000);
    let t = refresh_token_record(ID, 7, "abc", now);
    match get_jwt_token_found_at(Ok(Some(t.clone())), "abd", b"k", now) {
        RefreshLookup::Done(r) => assert_eq!((r.status, message_of(&r)), (401, "Invalid refresh token".to_string())),
        _ => panic!(),
    }
    let phc = hash_password("abc").unwrap();
    let t = RefreshToken { token_hash: phc, ..t };
    match get_jwt_token_found_at(Ok(Some(t)), "abc", b"k", now) {
        RefreshLookup::Done(r) => assert_eq!(r.status, 401),
        _ => panic!(),
    }
}

#[test]
fn expired_token_path() {
    assert!(expired_token_deleted(Ok(())).is_none());
    let r = expired_token_deleted(Err(db_err("x", None))).unwrap();
    assert_eq!((r.status, message_of(&r)), (500, "Failed to delete expired refresh token".to_string()));
    let r = expired_token_committed(Ok(()));
    assert_eq!((r.status, message_of(&r)), (401, "Refresh token expired".to_string()));
    let r = expired_token_committed(Err(db_err("x", None)));
    assert_eq!((r.status, message_of(&r)), (500, "Failed to commit changes".to_string()));
}

#[test]
fn disconnect_path() {
    assert_eq!(disconnect_token_id(Some(5)).unwrap(), 5);
    let r = disconnect_token_id(None).unwrap_err();
    assert_eq!((r.status, message_of(&r)), (500, "Middleware failed".to_string()));
    assert!(disconnect_deleted(Ok(())).is_none());
    let r = disconnect_deleted(Err(db_err("x", None))).unwrap();
    assert_eq!((r.status, message_of(&r)), (500, "Failed to disconnect user".to_string()));
    let r = disconnect_committed(Ok(()));
    assert_eq!((r.status, message_of(&r)), (200, "User successfully disconnected".to_string()));
    let c = r.cookie.unwrap();
    assert_eq!(c.value, "");
    assert_eq!(c.max_age_seconds, Some(0));
    let r = disconnect_committed(Err(db_err("x", None)));
    assert_eq!((r.status, message_of(&r)), (500, "Failed to commit changes".to_string()));
}

#[test]
fn issued_session_belongs_to_user() {
    let info = UserInfo { id: 3, mail: "m".to_string(), name: "n".to_string() };
    let s = issue_session(info);
    assert_eq!(s.user.id, 3);
    assert_eq!(s.secret.len(), 64);
    let _u: User = user_record(1, "a".into(), "b".into(), "c".into(), at(1));
}
