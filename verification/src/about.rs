use vstd::prelude::*;

use crate::encoding::hex_digits;
use crate::time::{clock_reading, current_time, Timestamp};
use crate::utils::{Reply, ReplyBody};

verus! {

/// Decimal digits of a natural number, most significant first, without leading zeros.
pub open spec fn decimal_digits(n: nat) -> Seq<char>
    decreases n,
{
    if n < 10 {
        seq![hex_digits()[n as int]]
    } else {
        decimal_digits(n / 10) + seq![hex_digits()[(n % 10) as int]]
    }
}

/// Decimal text of an integer, with a leading `-` when negative.
pub open spec fn decimal(n: int) -> Seq<char> {
    if n < 0 {
        seq!['-'] + decimal_digits((-n) as nat)
    } else {
        decimal_digits(n as nat)
    }
}

/// Appends the decimal digits of `n` to `out`.
fn push_decimal_digits(out: &mut String, n: u64)
    ensures
        final(out)@ == old(out)@ + decimal_digits(n as nat),
    decreases n,
{
    if n >= 10 {
        push_decimal_digits(out, n / 10);
    }
    let digits = "0123456789";
    proof {
        reveal_strlit("0123456789");
    }
    let d: usize = (n % 10) as usize;
    let digit = digits.substring_char(d, d + 1);
    assert(digit@ =~= seq![hex_digits()[(n % 10) as int]]);
    out.append(digit);
    assert(final(out)@ =~= old(out)@ + decimal_digits(n as nat));
}

/// Decimal text of a signed 64-bit integer.
pub fn i64_to_decimal(n: i64) -> (text: String)
    ensures
        text@ == decimal(n as int),
{
    let mut text = String::new();
    if n < 0 {
        proof {
            reveal_strlit("-");
        }
        text.append("-");
        let magnitude: u64 = if n == i64::MIN {
            9223372036854775808u64
        } else {
            (-n) as u64
        };
        push_decimal_digits(&mut text, magnitude);
        assert(text@ =~= decimal(n as int));
    } else {
        push_decimal_digits(&mut text, n as u64);
        assert(text@ =~= decimal(n as int));
    }
    text
}

/// How `serde_json` writes one character inside a string literal: quote and backslash are
/// escaped by a backslash; backspace, tab, line feed, form feed and carriage return by their
/// short escapes; other control characters below U+0020 as `\u00XX` in lowercase hex; every
/// other character as itself.
pub open spec fn json_char_escape(c: char) -> Seq<char> {
    if c == '"' {
        seq!['\\', '"']
    } else if c == '\\' {
        seq!['\\', '\\']
    } else if c == '\u{8}' {
        seq!['\\', 'b']
    } else if c == '\t' {
        seq!['\\', 't']
    } else if c == '\n' {
        seq!['\\', 'n']
    } else if c == '\u{c}' {
        seq!['\\', 'f']
    } else if c == '\r' {
        seq!['\\', 'r']
    } else if (c as int) < 0x20 {
        seq!['\\', 'u', '0', '0', hex_digits()[(c as int) / 16], hex_digits()[(c as int) % 16]]
    } else {
        seq![c]
    }
}

/// The escaped characters of a text, in order.
pub open spec fn json_escaped(text: Seq<char>) -> Seq<char>
    decreases text.len(),
{
    if text.len() == 0 {
        Seq::empty()
    } else {
        json_char_escape(text[0]) + json_escaped(text.drop_first())
    }
}

/// JSON string literal of a text, as `serde_json::to_string` writes it: the escaped text
/// between double quotes.
pub open spec fn json_string(text: Seq<char>) -> Seq<char> {
    seq!['"'] + json_escaped(text) + seq!['"']
}

/// JSON string literal of `text`, from `serde_json::to_string`; a failure becomes the
/// error's text.
/// Trusted: it succeeds, and the literal it returns is `json_string` of the text (the
/// escape table `ESCAPE` and `write_char_escape` in `ser.rs`).
/// (Serialising a `str` into the in-memory buffer that `to_string` uses cannot fail: the
/// documented failures are a `Serialize` impl that fails and a map with non-string keys.)
#[verifier::external_body]
fn json_quote(text: &str) -> (r: Result<String, String>)
    ensures
        r is Ok,
        r matches Ok(quoted) ==> quoted@ == json_string(text@),
{
    match serde_json::to_string(text) {
        Ok(quoted) => Ok(quoted),
        Err(e) => Err(e.to_string()),
    }
}

/// The `about.json` document for a client seen as `host` at `now_seconds`, in compact JSON
/// with the keys in sorted order and no services listed.
pub open spec fn about_text(host_json: Seq<char>, now_seconds: i64) -> Seq<char> {
    "{\"client\":{\"host\":"@ + host_json + "},\"server\":{\"current_time\":"@ + decimal(now_seconds as int)
        + ",\"services\":[]}}"@
}

/// Builds the `about.json` document; quoting the host cannot fail, so it always succeeds.
pub fn about_document(host: &str, now_seconds: i64) -> (r: Result<String, String>)
    ensures
        r is Ok,
        r matches Ok(doc) ==> doc@ == about_text(json_string(host@), now_seconds),
{
    let quoted = match json_quote(host) {
        Ok(q) => q,
        Err(e) => return Err(e),
    };
    let mut doc = String::from_str("{\"client\":{\"host\":");
    doc.append(quoted.as_str());
    doc.append("},\"server\":{\"current_time\":");
    let now_text = i64_to_decimal(now_seconds);
    doc.append(now_text.as_str());
    doc.append(",\"services\":[]}}");
    assert(doc@ =~= about_text(json_string(host@), now_seconds));
    Ok(doc)
}

/// The `about.json` answer at `now_seconds`: 200 with the document as JSON, or 500 with the
/// failure's text.
pub fn about_reply_at(host: &str, now_seconds: i64) -> (r: Reply)
    ensures
        r.cookie is None,
        r.status == 200,
        r.status == 200 ==> (r.body matches ReplyBody::Json(doc)
            && doc@ == about_text(json_string(host@), now_seconds)),
        r.status != 200 ==> r.status == 500,
        r.status != 200 ==> (r.body matches ReplyBody::Text(t)
            && exists|e: Seq<char>| t@ == "Failed to generate about.json file: "@ + e),
{
    match about_document(host, now_seconds) {
        Ok(doc) => Reply { status: 200, body: ReplyBody::Json(doc), cookie: None },
        Err(e) => {
            let mut text = String::from_str("Failed to generate about.json file: ");
            text.append(e.as_str());
            Reply { status: 500, body: ReplyBody::Text(text), cookie: None }
        },
    }
}

/// The `about.json` answer for a client seen as `host`, at the clock reading taken during
/// the call.
pub fn about_json(host: &str) -> (r: Reply)
    ensures
        r.cookie is None,
        r.status == 200,
        r.status == 200 ==> (r.body matches ReplyBody::Json(doc) && exists|now_seconds: i64|
            doc@ == #[trigger] about_text(json_string(host@), now_seconds)),
        r.status != 200 ==> r.status == 500,
        r.body matches ReplyBody::Json(doc) ==> exists|now: Timestamp| clock_reading(now)
            && doc@ == #[trigger] about_text(json_string(host@), now.seconds),
{
    let now = current_time();
    about_reply_at(host, now.seconds)
}

} // verus!
