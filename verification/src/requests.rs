//! The bodies of the login and account-creation requests.

use vstd::prelude::*;

verus! {

/// Credentials presented at login.
#[derive(Debug)]
pub struct LoginRequest {
    /// Name of the account logging in.
    pub username: String,
    /// Plain-text password.
    pub password: String,
}

/// The details of an account to create.
#[derive(Debug)]
pub struct NewUserRequest {
    /// Desired unique name.
    pub username: String,
    /// Plain-text password, hashed before it is stored.
    pub password: String,
    /// Display name.
    pub full_name: String,
}

} // verus!
