use vstd::prelude::*;

verus! {

/// A row of the `users` table.
#[derive(Debug, Clone, PartialEq, Eq)]
pub struct User {
    pub id: i64,
    pub username: String,
    pub password_hash: String,
    pub role_id: i64,
}

/// A row of the `roles` table.
#[derive(Debug, Clone, PartialEq, Eq)]
pub struct Role {
    pub id: i64,
    pub name: String,
}

/// The body of a registration request.
#[derive(Debug, Clone, PartialEq, Eq)]
pub struct RegisterUser {
    pub username: String,
    pub password: String,
    pub role: String,
}

/// The body of a login request.
#[derive(Debug, Clone, PartialEq, Eq)]
pub struct LoginRequest {
    pub username: String,
    pub password: String,
}

/// What registration answers: the stored user without its hash.
#[derive(Debug, Clone, PartialEq, Eq)]
pub struct UserResponse {
    pub id: i64,
    pub username: String,
    pub role_id: i64,
}

/// A row of the `categories` table.
#[derive(Debug, Clone, PartialEq, Eq)]
pub struct Category {
    pub id: i64,
    pub name: String,
}

/// The body of a category creation request.
#[derive(Debug, Clone, PartialEq, Eq)]
pub struct CreateCategory {
    pub name: String,
}

/// The body of a category update request; an absent field is left as it is.
#[derive(Debug, Clone, PartialEq, Eq)]
pub struct UpdateCategory {
    pub name: Option<String>,
}

/// The query string of an item search.
#[derive(Debug, Clone, PartialEq, Eq)]
pub struct ItemQuery {
    pub name: Option<String>,
    pub page: Option<u32>,
    pub page_size: Option<u32>,
}

/// The identity a token carries: its subject (a username), the subject's
/// role name, and the unix time at which it expires.
#[derive(Debug, Clone, PartialEq, Eq)]
pub struct Claims {
    pub sub: String,
    pub role: String,
    pub exp: usize,
}

/// The claims as plain values: subject, role and expiry.
pub open spec fn claims_triple(c: Claims) -> (Seq<char>, Seq<char>, usize) {
    (c.sub@, c.role@, c.exp)
}

} // verus!
