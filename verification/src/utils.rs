use vstd::prelude::*;

use crate::constants::{COOKIE_PATH, REFRESH_COOKIE_NAME};
use crate::encoding::{lemma_uuid_text_shape, parse_uuid, uuid_parsed, uuid_text, uuid_to_text};
use crate::requests::{JwtResponse, MessageResponse, TokenResponse};

verus! {

/// The `SameSite` attribute of a cookie.
#[derive(Clone, Copy, Debug, PartialEq, Eq, Structural)]
pub enum SameSitePolicy {
    Strict,
    Lax,
    Unrestricted,
}

/// A cookie to set on the client, with the attributes the service uses; `None` leaves an
/// attribute out of the `Set-Cookie` header.
#[derive(Clone, Debug)]
pub struct CookieSpec {
    pub name: String,
    pub value: String,
    pub path: String,
    pub http_only: Option<bool>,
    pub secure: Option<bool>,
    pub same_site: Option<SameSitePolicy>,
    pub max_age_seconds: Option<i64>,
}

/// The body of an HTTP answer.
#[derive(Clone, Debug)]
pub enum ReplyBody {
    /// JSON `{"message": ...}`.
    Message(MessageResponse),
    /// JSON access token and account.
    Token(TokenResponse),
    /// JSON access token.
    Jwt(JwtResponse),
    /// Plain text.
    Text(String),
    /// Ready-made JSON text.
    Json(String),
}

/// An HTTP answer: status code, body and the cookie it sets, if any.
#[derive(Clone, Debug)]
pub struct Reply {
    pub status: u16,
    pub body: ReplyBody,
    pub cookie: Option<CookieSpec>,
}

/// `r` answers `status` with the JSON message `message` and sets no cookie.
pub open spec fn is_message_reply(r: Reply, status: u16, message: Seq<char>) -> bool {
    &&& r.status == status
    &&& r.body matches ReplyBody::Message(m) && m.message@ == message
    &&& r.cookie is None
}

/// `r` answers `status` with the plain text `text` and sets no cookie.
pub open spec fn is_text_reply(r: Reply, status: u16, text: Seq<char>) -> bool {
    &&& r.status == status
    &&& r.body matches ReplyBody::Text(t) && t@ == text
    &&& r.cookie is None
}

/// Builds an answer with a JSON message.
pub fn message_reply(status: u16, message: &str) -> (r: Reply)
    ensures
        is_message_reply(r, status, message@),
{
    Reply {
        status,
        body: ReplyBody::Message(MessageResponse { message: String::from_str(message) }),
        cookie: None,
    }
}

/// Builds a plain-text answer.
pub fn text_reply(status: u16, text: &str) -> (r: Reply)
    ensures
        is_text_reply(r, status, text@),
{
    Reply { status, body: ReplyBody::Text(String::from_str(text)), cookie: None }
}

/// An internal-server-error answer (500) with the JSON message `msg`.
pub fn internal_err(msg: &str) -> (r: Reply)
    ensures
        is_message_reply(r, 500, msg@),
{
    message_reply(500, msg)
}

/// Text of the refresh-token cookie: the token's identifier, a dot, the secret.
pub open spec fn refresh_cookie_text(id: u128, secret: Seq<char>) -> Seq<char> {
    uuid_text(id) + seq!['.'] + secret
}

/// `c` is the refresh-token cookie for the token `id` with secret `secret`.
pub open spec fn is_refresh_cookie(c: CookieSpec, id: u128, secret: Seq<char>) -> bool {
    &&& c.name@ == REFRESH_COOKIE_NAME@
    &&& c.value@ == refresh_cookie_text(id, secret)
    &&& c.path@ == COOKIE_PATH@
    &&& c.http_only == Some(true)
    &&& c.same_site == Some(SameSitePolicy::Strict)
    &&& c.secure == Some(true)
    &&& c.max_age_seconds is None
}

/// `c` deletes the refresh-token cookie: same name and path, empty value, zero lifetime.
pub open spec fn is_removal_cookie(c: CookieSpec) -> bool {
    &&& c.name@ == REFRESH_COOKIE_NAME@
    &&& c.value@ == Seq::<char>::empty()
    &&& c.path@ == COOKIE_PATH@
    &&& c.max_age_seconds == Some(0i64)
    &&& c.http_only == Some(true)
    &&& c.same_site is None
    &&& c.secure is None
}

/// The removal cookie replaces the refresh-token cookie on the client: it has the same
/// name and path, an empty value and a zero lifetime.
pub proof fn lemma_removal_replaces_refresh_cookie(issued: CookieSpec, removal: CookieSpec, id: u128, secret: Seq<char>)
    requires
        is_refresh_cookie(issued, id, secret),
        is_removal_cookie(removal),
    ensures
        removal.name@ == issued.name@,
        removal.path@ == issued.path@,
        removal.value@.len() == 0,
        removal.max_age_seconds == Some(0i64),
        issued.max_age_seconds is None,
{
}

/// The refresh-token cookie: `<token id>.<secret>`, HTTP-only, secure, same-site strict.
pub fn build_refresh_token_cookie(token_id: u128, secret: String) -> (c: CookieSpec)
    ensures
        is_refresh_cookie(c, token_id, secret@),
{
    let mut value = uuid_to_text(token_id);
    proof {
        reveal_strlit(".");
    }
    value.append(".");
    value.append(secret.as_str());
    assert(".".view() =~= seq!['.']);
    assert(value@ =~= refresh_cookie_text(token_id, secret@));
    CookieSpec {
        name: String::from_str(REFRESH_COOKIE_NAME),
        value,
        path: String::from_str(COOKIE_PATH),
        http_only: Some(true),
        secure: Some(true),
        same_site: Some(SameSitePolicy::Strict),
        max_age_seconds: None,
    }
}

/// The cookie that deletes the refresh-token cookie on the client.
pub fn remove_refresh_token_cookie() -> (c: CookieSpec)
    ensures
        is_removal_cookie(c),
{
    CookieSpec {
        name: String::from_str(REFRESH_COOKIE_NAME),
        value: String::new(),
        path: String::from_str(COOKIE_PATH),
        http_only: Some(true),
        secure: None,
        same_site: None,
        max_age_seconds: Some(0),
    }
}

/// Splits `s` at its first dot, as `str::split_once('.')` does.
pub fn split_first_dot(s: &str) -> (r: Option<(&str, &str)>)
    ensures
        r is None <==> !s@.contains('.'),
        r matches Some((head, tail)) ==> s@ == head@ + seq!['.'] + tail@ && !head@.contains('.'),
{
    let n = s.unicode_len();
    let mut i: usize = 0;
    while i < n
        invariant
            n == s@.len(),
            i <= n,
            forall|j: int| 0 <= j < i ==> s@[j] != '.',
        decreases n - i,
    {
        if s.get_char(i) == '.' {
            let head = s.substring_char(0, i);
            let tail = s.substring_char(i + 1, n);
            assert(s@ =~= head@ + seq!['.'] + tail@);
            assert(!head@.contains('.')) by {
                if head@.contains('.') {
                    let k = choose|k: int| 0 <= k < head@.len() && head@[k] == '.';
                    assert(s@[k] == '.');
                }
            }
            return Some((head, tail));
        }
        i = i + 1;
    }
    None
}

/// A text has at most one way to be cut as `head . tail` with no dot in `head`.
pub proof fn lemma_first_dot_unique(x: Seq<char>, y: Seq<char>, a: Seq<char>, b: Seq<char>)
    requires
        x + seq!['.'] + y == a + seq!['.'] + b,
        !x.contains('.'),
        !a.contains('.'),
    ensures
        x == a,
        y == b,
{
    let s = x + seq!['.'] + y;
    assert(s[x.len() as int] == '.');
    assert((a + seq!['.'] + b)[a.len() as int] == '.');
    if x.len() < a.len() {
        assert(a[x.len() as int] == (a + seq!['.'] + b)[x.len() as int]);
        assert(a.contains('.'));
    }
    if a.len() < x.len() {
        assert(x[a.len() as int] == s[a.len() as int]);
        assert(x.contains('.'));
    }
    assert(x =~= s.subrange(0, x.len() as int));
    assert(a =~= (a + seq!['.'] + b).subrange(0, a.len() as int));
    assert(y =~= s.subrange(x.len() as int + 1, s.len() as int));
    assert(b =~= (a + seq!['.'] + b).subrange(a.len() as int + 1, s.len() as int));
}

/// Reads a refresh-token cookie value `<token id>.<secret>`: the text before the first dot
/// must parse as a token identifier. Every value built by `build_refresh_token_cookie` is
/// read back as the identifier and secret it was built from.
pub fn parse_refresh_cookie(value: &str) -> (r: Option<(u128, String)>)
    ensures
        r matches Some((id, secret)) ==> exists|head: Seq<char>|
            value@ == head + seq!['.'] + secret@ && !head.contains('.') && #[trigger] uuid_parsed(head) == Some(id),
        r is None ==> !value@.contains('.') || exists|head: Seq<char>|
            head.len() < value@.len() && value@.subrange(0, head.len() as int) == head && value@[head.len() as int] == '.'
                && !head.contains('.') && #[trigger] uuid_parsed(head) is None,
        forall|id: u128, secret: Seq<char>| value@ == #[trigger] refresh_cookie_text(id, secret) ==> (
            r matches Some((i, s)) && i == id && s@ == secret),
{
    match split_first_dot(value) {
        None => {
            assert forall|id: u128, secret: Seq<char>| value@ == #[trigger] refresh_cookie_text(id, secret) implies false by {
                assert(value@[uuid_text(id).len() as int] == '.');
            }
            None
        },
        Some((head, tail)) => {
            let parsed = parse_uuid(head);
            assert forall|id: u128, secret: Seq<char>| value@ == #[trigger] refresh_cookie_text(id, secret) implies
                head@ == uuid_text(id) && tail@ == secret by {
                lemma_uuid_text_shape(id);
                lemma_first_dot_unique(head@, tail@, uuid_text(id), secret);
            }
            match parsed {
                Some(id) => Some((id, String::from_str(tail))),
                None => {
                    assert(value@.subrange(0, head@.len() as int) =~= head@);
                    assert(value@[head@.len() as int] == '.');
                    None
                },
            }
        },
    }
}

} // verus!
