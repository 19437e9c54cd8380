use vstd::prelude::*;

verus! {

/// A JSON body carrying one human-readable message.
#[derive(Clone, Debug)]
pub struct MessageResponse {
    pub message: String,
}

/// The public part of an account.
#[derive(Clone, Debug)]
pub struct UserInfo {
    pub id: u128,
    pub mail: String,
    pub name: String,
}

/// Answer to a successful registration or login.
#[derive(Clone, Debug)]
pub struct TokenResponse {
    pub access_token: String,
    pub user: UserInfo,
}

/// Body of a registration request.
#[derive(Clone, Debug)]
pub struct RegisterRequest {
    pub mail: String,
    pub name: String,
    pub password: String,
}

pub type RegisterResponse = TokenResponse;

/// Body of a login request.
#[derive(Clone, Debug)]
pub struct LoginRequest {
    pub mail: String,
    pub password: String,
}

pub type LoginResponse = TokenResponse;

/// Answer to a successful access-token refresh.
#[derive(Clone, Debug)]
pub struct JwtResponse {
    pub access_token: String,
}

pub type DisconnectResponse = MessageResponse;

/// The OpenAPI description of the service; its document is generated where the HTTP
/// layer is built.
pub struct ApiDoc;

} // verus!
