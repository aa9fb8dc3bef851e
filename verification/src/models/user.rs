//! Credentials and the payloads of registration and login.
use vstd::prelude::*;

verus! {

/// A stored credential: identity, unique username, one-way password hash.
#[derive(Debug, Clone)]
pub struct User {
    pub id: Vec<u8>,
    pub username: String,
    pub password_hash: String,
}

/// Mathematical value of a [`User`].
pub struct UserView {
    pub id: Seq<u8>,
    pub username: Seq<char>,
    pub password_hash: Seq<char>,
}

impl View for User {
    type V = UserView;

    open spec fn view(&self) -> UserView {
        UserView { id: self.id@, username: self.username@, password_hash: self.password_hash@ }
    }
}

/// Payload of a registration.
#[derive(Debug)]
pub struct RegisterRequest {
    pub username: String,
    pub password: String,
}

/// Payload of a login.
#[derive(Debug)]
pub struct LoginRequest {
    pub username: String,
    pub password: String,
}

/// Answer to a successful login.
#[derive(Debug)]
pub struct AuthResponse {
    pub token: String,
}

/// Mathematical value of a user that may be absent.
pub open spec fn seen_user(user: Option<User>) -> Option<UserView> {
    match user {
        Some(u) => Some(u@),
        None => None,
    }
}

/// Mathematical value of a list of users.
pub open spec fn seen_users(users: Seq<User>) -> Seq<UserView> {
    users.map_values(|u: User| u@)
}

} // verus!
