use vstd::prelude::*;

verus! {

/// Every way in which registration, login or a request gate can fail.
#[derive(Debug, Clone, Copy, PartialEq, Eq, Structural)]
pub enum AuthError {
    /// The role named at registration does not exist.
    InvalidRole,
    /// Unknown username or wrong password; the two are not told apart.
    InvalidCredentials,
    /// No `Authorization` header, or one without the `Bearer ` prefix.
    MissingToken,
    /// The token is malformed, carries a bad signature or unusable claims.
    TokenInvalid,
    /// The token verified but its expiry has passed.
    TokenExpired,
    /// A role gate ran on a request that carries no verified claims.
    MissingClaims,
    /// The verified role is not the one the route requires.
    Forbidden,
    /// The credential store failed or lacks a row it should hold.
    StoreFailure,
    /// The password hasher failed.
    HashFailure,
    /// The token could not be signed, or the clock gave no usable expiry.
    SignFailure,
}

/// The HTTP status that answers each failure.
pub open spec fn status_of(e: AuthError) -> u16 {
    match e {
        AuthError::InvalidRole => 400,
        AuthError::InvalidCredentials => 401,
        AuthError::MissingToken => 401,
        AuthError::TokenInvalid => 401,
        AuthError::TokenExpired => 401,
        AuthError::MissingClaims => 401,
        AuthError::Forbidden => 403,
        AuthError::StoreFailure => 500,
        AuthError::HashFailure => 500,
        AuthError::SignFailure => 500,
    }
}

impl AuthError {
    /// The HTTP status code for this failure.
    pub fn status_code(&self) -> (r: u16)
        ensures
            r == status_of(*self),
    {
        match self {
            AuthError::InvalidRole => 400,
            AuthError::InvalidCredentials => 401,
            AuthError::MissingToken => 401,
            AuthError::TokenInvalid => 401,
            AuthError::TokenExpired => 401,
            AuthError::MissingClaims => 401,
            AuthError::Forbidden => 403,
            AuthError::StoreFailure => 500,
            AuthError::HashFailure => 500,
            AuthError::SignFailure => 500,
        }
    }
}

} // verus!
