//! Request and response bodies of the authentication operations.

use vstd::prelude::*;

verus! {

/// Credentials of a login.
#[derive(Debug, Clone, PartialEq, Eq)]
pub struct LoginData {
    pub name: String,
    pub password: String,
}

/// A refresh request: the refresh token issued earlier.
#[derive(Debug, Clone, PartialEq, Eq)]
pub struct RefreshData {
    pub refresh_token: String,
}

/// A password change: the current password and its replacement.
#[derive(Debug, Clone, PartialEq, Eq)]
pub struct ChangePasswordDto {
    pub old_password: String,
    pub new_password: String,
}

/// The pair of tokens handed out on register, login and refresh.
#[derive(Debug, Clone, PartialEq, Eq)]
pub struct TokenResponse {
    pub access_token: String,
    pub refresh_token: String,
}

} // verus!
