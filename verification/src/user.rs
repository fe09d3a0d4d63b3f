//! User records and the request bodies of the auth endpoints.

use vstd::prelude::*;

verus! {

/// The mathematical image of a [`User`]: every field as a plain value.
pub ghost struct UserView {
    pub id: int,
    pub username: Seq<char>,
    pub email: Seq<char>,
    pub password_hash: Seq<char>,
    pub created_at: int,
}

/// A persisted user. The username is unique and folded to lowercase at
/// write time; the password hash is opaque and never reversible.
#[derive(Debug, Clone)]
pub struct User {
    pub id: i64,
    pub username: String,
    pub email: String,
    pub password_hash: String,
    pub created_at: i64,
}

impl View for User {
    type V = UserView;

    open spec fn view(&self) -> UserView {
        UserView {
            id: self.id as int,
            username: self.username@,
            email: self.email@,
            password_hash: self.password_hash@,
            created_at: self.created_at as int,
        }
    }
}

impl User {
    /// A record not yet persisted: the store assigns the identifier and
    /// the creation instant, so both start at zero.
    pub fn new(username: String, email: String, hash: String) -> (r: Self)
        ensures
            r@.id == 0,
            r@.username == username@,
            r@.email == email@,
            r@.password_hash == hash@,
            r@.created_at == 0,
    {
        Self { id: 0, username, email, password_hash: hash, created_at: 0 }
    }

    /// A field-wise copy whose image is the same as the original's.
    pub fn duplicate(&self) -> (r: Self)
        ensures
            r@ == self@,
    {
        Self {
            id: self.id,
            username: self.username.clone(),
            email: self.email.clone(),
            password_hash: self.password_hash.clone(),
            created_at: self.created_at,
        }
    }
}

/// The body of a registration request.
#[derive(Debug, Clone)]
pub struct RegisterUser {
    pub username: String,
    pub email: String,
    pub password: String,
}

/// The body of a login request.
#[derive(Debug, Clone)]
pub struct LoginUser {
    pub username: String,
    pub password: String,
}

/// What a successful login hands back to the client.
#[derive(Debug, Clone)]
pub struct TokenResponse {
    pub access_token: String,
    pub username: String,
}

} // verus!
