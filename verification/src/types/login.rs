//! Login-related types.

use vstd::prelude::*;

verus! {

/// The credentials presented when logging in.
#[derive(Debug)]
pub struct LoginCredentials {
    /// The username.
    pub login: String,
    /// The password.
    pub password: String,
    /// Whether the session should be remembered.
    pub remember_me: bool,
}

/// The user part of a login response.
#[derive(Debug)]
pub struct LoginResponseUser {
    /// The user's email address.
    pub email: String,
    /// The user's username.
    pub username: String,
    /// The user's external identifier.
    pub external_id: String,
}

/// The response to a successful login.
#[derive(Debug)]
pub struct LoginResponse {
    /// The user the session belongs to.
    pub user: LoginResponseUser,
    /// The session token.
    pub session_token: String,
    /// The remember token, if one was requested.
    pub remember_token: Option<String>,
}

} // verus!
