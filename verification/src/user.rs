//! Request shapes for user registration, login and profile updates.
//! Field-level input validation (address format, lengths) happens in
//! the surrounding service before these reach any logic.

use vstd::prelude::*;

verus! {

/// A registration request.
#[derive(Debug)]
pub struct CreateUserRequest {
    pub email: String,
    pub username: String,
    pub password: String,
    pub full_name: Option<String>,
}

/// A login request; the first field holds either the username or the
/// email address.
#[derive(Debug)]
pub struct LoginRequest {
    pub username_or_email: String,
    pub password: String,
}

/// A profile update; absent fields stay as they are.
#[derive(Debug)]
pub struct UpdateUserRequest {
    pub email: Option<String>,
    pub username: Option<String>,
    pub full_name: Option<String>,
}

} // verus!
