use auth_api::constants::{COOKIE_PATH, REFRESH_COOKIE_NAME};
use auth_api::utils::{
    build_refresh_token_cookie, internal_err, message_reply, parse_refresh_cookie,
    remove_refresh_token_cookie, split_first_dot, text_reply, ReplyBody, SameSitePolicy,
};

const ID: u128 = 0x67e5_5044_10b1_426f_9247_bb68_0e5f_e0c8;

#[test]
fn refresh_cookie_value_is_id_dot_secret() {
    let c = build_refresh_token_cookie(ID, "s3cr3t".to_string());
    assert_eq!(c.name, REFRESH_COOKIE_NAME);
    assert_eq!(c.value, "67e55044-10b1-426f-9247-bb680e5fe0c8.s3cr3t");
    assert_eq!(c.path, COOKIE_PATH);
    assert_eq!(c.http_only, Some(true));
    assert_eq!(c.secure, Some(true));
    assert_eq!(c.same_site, Some(SameSitePolicy::Strict));
    assert_eq!(c.max_age_seconds, None);
    assert_eq!(c.value, format!("{}.s3cr3t", uuid::Uuid::from_u128(ID)));
}

#[test]
fn refresh_cookie_round_trip() {
    for secret in ["abc", "", "a.b.c", "ffff"] {
        let c = build_refresh_token_cookie(ID, secret.to_string());
        assert_eq!(parse_refresh_cookie(&c.value), Some((ID, secret.to_string())));
    }
    let c = build_refresh_token_cookie(0, "x".to_string());
    assert_eq!(c.value, "00000000-0000-0000-0000-000000000000.x");
    assert_eq!(parse_refresh_cookie(&c.value), Some((0, "x".to_string())));
}

#[test]
fn malformed_refresh_cookies() {
    assert_eq!(parse_refresh_cookie("no-dot-here"), None);
    assert_eq!(parse_refresh_cookie("not-a-uuid.secret"), None);
    assert_eq!(parse_refresh_cookie(".secret"), None);
    assert_eq!(
        parse_refresh_cookie("67E55044-10B1-426F-9247-BB680E5FE0C8.x"),
        Some((ID, "x".to_string()))
    );
    assert_eq!(
        parse_refresh_cookie("67e5504410b1426f9247bb680e5fe0c8.y.z"),
        Some((ID, "y.z".to_string()))
    );
}

#[test]
fn removal_cookie() {
    let c = remove_refresh_token_cookie();
    assert_eq!(c.name, REFRESH_COOKIE_NAME);
    assert_eq!(c.value, "");
    assert_eq!(c.path, COOKIE_PATH);
    assert_eq!(c.max_age_seconds, Some(0));
    assert_eq!(c.http_only, Some(true));
    assert_eq!(c.secure, None);
    assert_eq!(c.same_site, None);
}

#[test]
fn split_at_first_dot() {
    assert_eq!(split_first_dot("a.b.c"), Some(("a", "b.c")));
    assert_eq!(split_first_dot(".x"), Some(("", "x")));
    assert_eq!(split_first_dot("x."), Some(("x", "")));
    assert_eq!(split_first_dot("xyz"), None);
    assert_eq!(split_first_dot("é.ü"), Some(("é", "ü")));
}

#[test]
fn error_replies() {
    let r = internal_err("boom");
    assert_eq!(r.status, 500);
    assert!(r.cookie.is_none());
    match r.body {
        ReplyBody::Message(m) => assert_eq!(m.message, "boom"),
        _ => panic!("expected a message body"),
    }
    let r = message_reply(404, "Unknown user");
    assert_eq!(r.status, 404);
    let r = text_reply(401, "Wrong JWT");
    match r.body {
        ReplyBody::Text(t) => assert_eq!(t, "Wrong JWT"),
        _ => panic!("expected a text body"),
    }
}
