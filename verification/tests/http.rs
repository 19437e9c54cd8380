use auth_api::about::{about_document, about_reply_at, i64_to_decimal};
use auth_api::middleware::{bearer_token, jwt_auth_check, jwt_auth_claims, jwt_auth_token, AuthHeader};
use auth_api::password::gen_jwt;
use auth_api::password::Claims;
use auth_api::utils::ReplyBody;

fn text_of(body: &ReplyBody) -> String {
    match body {
        ReplyBody::Text(t) => t.clone(),
        ReplyBody::Json(t) => t.clone(),
        ReplyBody::Message(m) => m.message.clone(),
        _ => panic!("unexpected body"),
    }
}

#[test]
fn decimal_text() {
    assert_eq!(i64_to_decimal(0), "0");
    assert_eq!(i64_to_decimal(1_700_000_000), "1700000000");
    assert_eq!(i64_to_decimal(-42), "-42");
    assert_eq!(i64_to_decimal(i64::MIN), i64::MIN.to_string());
    assert_eq!(i64_to_decimal(i64::MAX), i64::MAX.to_string());
}

#[test]
fn about_document_matches_serde_json() {
    for host in ["localhost:8080", "we\"ird\\host\n", "\u{1}\u{1f}\u{7f}\u{8}\u{c}\r\t/é"] {
        let doc = about_document(host, 1_700_000_000).unwrap();
        let mut client = serde_json::Map::new();
        client.insert("host".to_string(), serde_json::Value::from(host));
        let mut server = serde_json::Map::new();
        server.insert("current_time".to_string(), serde_json::Value::from(1_700_000_000i64));
        server.insert("services".to_string(), serde_json::Value::Array(Vec::new()));
        let mut root = serde_json::Map::new();
        root.insert("client".to_string(), serde_json::Value::Object(client));
        root.insert("server".to_string(), serde_json::Value::Object(server));
        let expected = serde_json::to_string(&serde_json::Value::Object(root)).unwrap();
        assert_eq!(doc, expected);
    }
    assert_eq!(
        about_document("h", -5).unwrap(),
        "{\"client\":{\"host\":\"h\"},\"server\":{\"current_time\":-5,\"services\":[]}}"
    );
}

#[test]
fn about_reply() {
    let r = about_reply_at("h", 7);
    assert_eq!(r.status, 200);
    assert_eq!(text_of(&r.body), "{\"client\":{\"host\":\"h\"},\"server\":{\"current_time\":7,\"services\":[]}}");
}

#[test]
fn bearer_header_decisions() {
    let r = bearer_token(&AuthHeader::Missing).unwrap_err();
    assert_eq!((r.status, text_of(&r.body)), (401, "Missing header".to_string()));
    let r = bearer_token(&AuthHeader::Unreadable).unwrap_err();
    assert_eq!((r.status, text_of(&r.body)), (401, "Wrong header format".to_string()));
    let r = bearer_token(&AuthHeader::Text("Basic abc".to_string())).unwrap_err();
    assert_eq!((r.status, text_of(&r.body)), (401, "Missing Bearer token".to_string()));
    let r = bearer_token(&AuthHeader::Text("Bearer".to_string())).unwrap_err();
    assert_eq!(r.status, 401);
    assert_eq!(bearer_token(&AuthHeader::Text("Bearer abc.def".to_string())).unwrap(), "abc.def");
    assert_eq!(bearer_token(&AuthHeader::Text("Bearer ".to_string())).unwrap(), "");
}

#[test]
fn secret_must_be_configured() {
    let h = AuthHeader::Text("Bearer t".to_string());
    let r = jwt_auth_token(&h, None).unwrap_err();
    assert_eq!((r.status, text_of(&r.body)), (500, "Secret fetch fail".to_string()));
    assert_eq!(jwt_auth_token(&h, Some(b"k")).unwrap(), "t");
    let r = jwt_auth_token(&AuthHeader::Missing, None).unwrap_err();
    assert_eq!(r.status, 401);
}

#[test]
fn claims_subject_names_token() {
    let r = jwt_auth_claims(None).unwrap_err();
    assert_eq!((r.status, text_of(&r.body)), (401, "Wrong JWT".to_string()));
    let claims = |sub: &str| Claims { aud: "a".into(), exp: 1, iss: "i".into(), sub: sub.into() };
    assert_eq!(
        jwt_auth_claims(Some(claims("00000000-0000-0000-0000-00000000002a"))).unwrap(),
        42
    );
    let r = jwt_auth_claims(Some(claims("nope"))).unwrap_err();
    assert_eq!((r.status, text_of(&r.body)), (401, "Wrong JWT".to_string()));
}

#[test]
fn bearer_access_token_names_refresh_token() {
    let id: u128 = 0x67e5_5044_10b1_426f_9247_bb68_0e5f_e0c8;
    let token = gen_jwt(uuid::Uuid::from_u128(id).to_string(), b"key").unwrap();
    let header = AuthHeader::Text(format!("Bearer {}", token));
    assert_eq!(jwt_auth_check(&header, Some(b"key")).unwrap(), id);
    let r = jwt_auth_check(&header, Some(b"wrong")).unwrap_err();
    assert_eq!((r.status, text_of(&r.body)), (401, "Wrong JWT".to_string()));
    let r = jwt_auth_check(&header, None).unwrap_err();
    assert_eq!((r.status, text_of(&r.body)), (500, "Secret fetch fail".to_string()));
    let not_uuid = gen_jwt("nope".to_string(), b"key").unwrap();
    let r = jwt_auth_check(&AuthHeader::Text(format!("Bearer {}", not_uuid)), Some(b"key")).unwrap_err();
    assert_eq!(r.status, 401);
}
