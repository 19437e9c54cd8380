use vstd::prelude::*;

verus! {

/// Path attribute of the refresh-token cookie.
pub const COOKIE_PATH: &'static str = "/api/auth";

/// Audience written into access tokens.
pub const API_URL: &'static str = "http://localhost:8080/api";

/// Issuer written into access tokens.
pub const FRONT_URL: &'static str = "http://localhost:8081";

/// Name of the cookie that carries the refresh token.
pub const REFRESH_COOKIE_NAME: &'static str = "refresh_token";

/// Lifetime of an access token, in days.
pub const JWT_LIFETIME_DAYS: i64 = 1;

/// Lifetime of a refresh token, in days.
pub const REFRESH_TOKEN_LIFETIME_DAYS: i64 = 30;

/// Seconds in one day.
pub const SECONDS_PER_DAY: i64 = 86400;

} // verus!
