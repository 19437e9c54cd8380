use vstd::prelude::*;

use crate::constants::{JWT_LIFETIME_DAYS, REFRESH_TOKEN_LIFETIME_DAYS, SECONDS_PER_DAY};

verus! {

/// A UTC instant: whole seconds since the Unix epoch and the nanoseconds past that second.
#[derive(Clone, Copy, Debug, PartialEq, Eq, Structural)]
pub struct Timestamp {
    pub seconds: i64,
    pub nanos: u32,
}

/// `a` is strictly earlier than `b` (seconds first, then nanoseconds).
pub open spec fn earlier(a_seconds: int, a_nanos: int, b_seconds: int, b_nanos: int) -> bool {
    a_seconds < b_seconds || (a_seconds == b_seconds && a_nanos < b_nanos)
}

/// Lifetime of a refresh token, in seconds.
pub open spec fn refresh_lifetime_seconds() -> int {
    REFRESH_TOKEN_LIFETIME_DAYS * SECONDS_PER_DAY
}

/// Lifetime of an access token, in seconds.
pub open spec fn jwt_lifetime_seconds() -> int {
    JWT_LIFETIME_DAYS * SECONDS_PER_DAY
}

/// A refresh token created at `created` has expired at `now`: its creation time plus the
/// refresh lifetime lies strictly before `now`.
pub open spec fn refresh_expired(created: Timestamp, now: Timestamp) -> bool {
    earlier(created.seconds + refresh_lifetime_seconds(), created.nanos as int, now.seconds as int, now.nanos as int)
}

/// Expiry claim of an access token issued at `now_seconds`: the issue time plus the access
/// lifetime, as an unsigned 64-bit number (a time before the epoch wraps around).
pub open spec fn jwt_expiry(now_seconds: i64) -> u64 {
    let t = now_seconds + jwt_lifetime_seconds();
    if t >= 0 {
        t as u64
    } else {
        (t + 0x1_0000_0000_0000_0000) as u64
    }
}

/// Decides whether a refresh token created at `created` has expired at `now`.
pub fn is_refresh_expired(created: Timestamp, now: Timestamp) -> (expired: bool)
    ensures
        expired == refresh_expired(created, now),
{
    let lifetime: i128 = (REFRESH_TOKEN_LIFETIME_DAYS as i128) * (SECONDS_PER_DAY as i128);
    assert(lifetime == refresh_lifetime_seconds());
    let deadline: i128 = created.seconds as i128 + lifetime;
    let now_seconds: i128 = now.seconds as i128;
    deadline < now_seconds || (deadline == now_seconds && created.nanos < now.nanos)
}

/// Computes the expiry claim of an access token issued at `now_seconds`.
pub fn access_expiry(now_seconds: i64) -> (exp: u64)
    ensures
        exp == jwt_expiry(now_seconds),
{
    let lifetime: i128 = (JWT_LIFETIME_DAYS as i128) * (SECONDS_PER_DAY as i128);
    assert(lifetime == jwt_lifetime_seconds());
    let t: i128 = now_seconds as i128 + lifetime;
    if t >= 0 {
        t as u64
    } else {
        (t + 0x1_0000_0000_0000_0000i128) as u64
    }
}

/// `t` is a reading of the system clock. The service reads the clock through `current_time`
/// (and `jsonwebtoken` reads it when it checks a token's expiry); both read
/// `SystemTime::now()` since the Unix epoch and panic on an earlier time, so a reading is at
/// or after the epoch and carries less than a second of nanoseconds. Outside this module a
/// reading is known only from what the clock-reading functions promise.
pub closed spec fn clock_reading(t: Timestamp) -> bool {
    t.seconds >= 0 && t.nanos < 1_000_000_000
}

/// A clock reading is at or after the Unix epoch, with less than a second of nanoseconds.
pub proof fn lemma_clock_reading_shape(t: Timestamp)
    requires
        clock_reading(t),
    ensures
        t.seconds >= 0,
        t.nanos < 1_000_000_000,
{
}

/// An access token issued at a clock reading is not yet expired at that reading: its expiry
/// is the reading plus the access lifetime.
pub proof fn lemma_access_expiry_after_issue(issued: Timestamp)
    requires
        clock_reading(issued),
    ensures
        jwt_expiry(issued.seconds) == issued.seconds + jwt_lifetime_seconds(),
        jwt_expiry(issued.seconds) > issued.seconds,
{
}

/// An access token issued at one clock reading is still within its expiry (with the 60 s
/// leeway of the token check) at exactly the readings no more than the access lifetime plus
/// 60 s after it.
pub proof fn lemma_access_token_fresh_until(issued: Timestamp, checked: Timestamp)
    requires
        clock_reading(issued),
        clock_reading(checked),
    ensures
        jwt_expiry(issued.seconds) + 60 >= checked.seconds
            <==> checked.seconds <= issued.seconds + jwt_lifetime_seconds() + 60,
{
}

/// The current UTC time, from `chrono::Utc::now`.
/// Trusted: the result is a clock reading (`Utc::now` takes `SystemTime::now()` since the
/// epoch, panicking on an earlier time, with `subsec_nanos` below one second).
#[verifier::external_body]
pub(crate) fn current_time() -> (now: Timestamp)
    ensures
        clock_reading(now),
{
    let now = chrono::Utc::now();
    Timestamp { seconds: now.timestamp(), nanos: now.timestamp_subsec_nanos() }
}

} // verus!
