use vstd::prelude::*;

use crate::time::Timestamp;

verus! {

/// A stored account.
#[derive(Clone, Debug)]
pub struct User {
    pub id: u128,
    pub mail: String,
    pub name: String,
    /// Argon2 PHC string of the password.
    pub password_hash: String,
    /// JSON text of the user's dashboard layout, if any.
    pub dashboard_map: Option<String>,
    pub created_at: Timestamp,
}

/// A stored refresh token: the digest of its secret, never the secret itself.
#[derive(Clone, Debug)]
pub struct RefreshToken {
    pub id: u128,
    pub user_id: u128,
    pub token_hash: String,
    pub created_at: Timestamp,
}

} // verus!
