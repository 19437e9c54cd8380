//! Account registration, login and session handling for the dashboard API:
//! password hashing, refresh-token issuing, access-token signing and the
//! request decisions of each authentication endpoint.

pub mod constants;
pub mod encoding;
pub mod time;
pub mod password;
pub mod requests;
pub mod db;
pub mod utils;
pub mod queries;
pub mod auth;
pub mod middleware;
pub mod about;
