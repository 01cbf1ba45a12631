use vstd::prelude::*;
use crate::error::{status_of, AuthError};
use crate::models::{LoginRequest, RegisterUser, Role, User, UserResponse};
use crate::password::{bcrypt_prefix, check_password, hash_password, password_verdict, HASH_COST};
use crate::token::{
    expiry_spec, issue_token, issued_token, signed_token, token_claims, token_view, unix_now,
    TOKEN_LIFETIME_SECS,
};

verus! {

/// A failure reported by the credential store, whatever its cause
/// (including a duplicate username on insert).
#[derive(Debug, Clone, Copy, PartialEq, Eq, Structural)]
pub struct StoreError;

/// The row that registration asks the credential store to insert.
#[derive(Debug, Clone, PartialEq, Eq)]
pub struct NewUser {
    pub username: String,
    pub password_hash: String,
    pub role_id: i64,
}

/// `row` is a correct insertion for the registration `data` under the role
/// `role` that the store found: same username, that role's id, and a bcrypt
/// hash made at cost `HASH_COST` that accepts the registered password.
pub open spec fn admits_registration(data: RegisterUser, role: Role, row: NewUser) -> bool {
    &&& row.username@ == data.username@
    &&& row.role_id == role.id
    &&& password_verdict(data.password@, row.password_hash@) == Some(true)
    &&& row.password_hash@.len() == 60
    &&& row.password_hash@.take(7) == bcrypt_prefix(HASH_COST)
}

/// Registration, once the store has looked up the requested role by name:
/// an unknown role is the caller's error; otherwise the password is hashed
/// and the row to insert is returned.
pub fn registration_row(data: &RegisterUser, role: Result<Option<Role>, StoreError>) -> (r: Result<
    NewUser,
    AuthError,
>)
    ensures
        match role {
            Err(_) => r == Err::<NewUser, AuthError>(AuthError::StoreFailure),
            Ok(None) => r == Err::<NewUser, AuthError>(AuthError::InvalidRole),
            Ok(Some(found)) => match r {
                Ok(row) => admits_registration(*data, found, row),
                Err(e) => e == AuthError::HashFailure,
            },
        },
{
    let found = match role {
        Err(_) => return Err(AuthError::StoreFailure),
        Ok(None) => return Err(AuthError::InvalidRole),
        Ok(Some(found)) => found,
    };
    let password_hash = match hash_password(data.password.as_str()) {
        Ok(h) => h,
        Err(e) => return Err(e),
    };
    Ok(NewUser { username: data.username.clone(), password_hash, role_id: found.id })
}

/// Registration, once the store has inserted the row and read it back: the
/// summary of the stored user.
pub fn registration_response(stored: Result<User, StoreError>) -> (r: Result<UserResponse, AuthError>)
    ensures
        match stored {
            Err(_) => r == Err::<UserResponse, AuthError>(AuthError::StoreFailure),
            Ok(u) => r matches Ok(s) && s.id == u.id && s.username@ == u.username@ && s.role_id
                == u.role_id,
        },
{
    match stored {
        Err(_) => Err(AuthError::StoreFailure),
        Ok(u) => Ok(UserResponse { id: u.id, username: u.username, role_id: u.role_id }),
    }
}

/// What login decides once the store has looked up the user by name: the
/// user whose password matched, or why the attempt fails. An unknown user
/// and a wrong password fail alike.
pub open spec fn login_outcome(data: LoginRequest, found: Result<Option<User>, StoreError>) -> Result<
    User,
    AuthError,
> {
    match found {
        Err(_) => Err(AuthError::StoreFailure),
        Ok(None) => Err(AuthError::InvalidCredentials),
        Ok(Some(u)) => match password_verdict(data.password@, u.password_hash@) {
            None => Err(AuthError::HashFailure),
            Some(false) => Err(AuthError::InvalidCredentials),
            Some(true) => Ok(u),
        },
    }
}

/// What login makes of the password check on a found user: a match lets
/// the user in, a mismatch fails as bad credentials, a fault stays a fault.
pub fn password_decision(user: User, verdict: Result<bool, AuthError>) -> (r: Result<User, AuthError>)
    ensures
        match verdict {
            Ok(true) => r == Ok::<User, AuthError>(user),
            Ok(false) => r == Err::<User, AuthError>(AuthError::InvalidCredentials),
            Err(e) => r == Err::<User, AuthError>(e),
        },
{
    match verdict {
        Ok(true) => Ok(user),
        Ok(false) => Err(AuthError::InvalidCredentials),
        Err(e) => Err(e),
    }
}

/// Login, once the store has looked up the user by name: checks the
/// password against the stored hash.
pub fn verify_login(data: &LoginRequest, found: Result<Option<User>, StoreError>) -> (r: Result<
    User,
    AuthError,
>)
    ensures
        r == login_outcome(*data, found),
{
    let user = match found {
        Err(_) => return Err(AuthError::StoreFailure),
        Ok(None) => return Err(AuthError::InvalidCredentials),
        Ok(Some(u)) => u,
    };
    let verdict = check_password(data.password.as_str(), user.password_hash.as_str());
    password_decision(user, verdict)
}

/// What login's last step gives, once the store has looked up the name of
/// the user's role, for a token issued at unix time `now`.
pub open spec fn login_token_outcome(
    user: User,
    role_name: Result<String, StoreError>,
    secret: Seq<char>,
    now: i64,
) -> Result<Seq<char>, AuthError> {
    match role_name {
        Err(_) => Err(AuthError::StoreFailure),
        Ok(name) => issued_token(user.username@, name@, secret, now),
    }
}

/// Login, once the store has looked up the name of the user's role: the
/// token for that user and role, issued at unix time `now`.
pub fn login_token_at(user: &User, role_name: Result<String, StoreError>, secret: &str, now: i64) -> (r:
    Result<String, AuthError>)
    ensures
        token_view(r) == login_token_outcome(*user, role_name, secret@, now),
        r matches Ok(t) ==> (role_name matches Ok(name) && expiry_spec(now) matches Some(exp)
            && token_claims(t@, secret@) == Some((user.username@, name@, exp))),
{
    match role_name {
        Err(_) => Err(AuthError::StoreFailure),
        Ok(name) => issue_token(&user.username, &name, now, secret),
    }
}

/// Login, once the store has looked up the name of the user's role: the
/// token for that user and role, issued now. It expires
/// `TOKEN_LIFETIME_SECS` after the time read.
pub fn login_token(user: &User, role_name: Result<String, StoreError>, secret: &str) -> (r: Result<
    String,
    AuthError,
>)
    ensures
        exists|now: i64|
            0 <= now && token_view(r) == #[trigger] login_token_outcome(*user, role_name, secret@, now)
                && (r matches Ok(t) ==> (role_name matches Ok(name) && expiry_spec(now) matches Some(
                exp,
            ) && token_claims(t@, secret@) == Some((user.username@, name@, exp)))),
{
    let now = unix_now();
    login_token_at(user, role_name, secret, now)
}

/// A user registered under a role and then logging in with the same
/// username and password passes the password check; and where the store
/// found that role by its name and gives that name back for the user's role
/// id, the token login issues at any time `now` whose expiry is
/// representable is the one signed for the registered username and role.
pub proof fn lemma_register_then_login(
    data: RegisterUser,
    role: Role,
    row: NewUser,
    login: LoginRequest,
    stored: User,
    role_name: String,
    secret: Seq<char>,
    now: i64,
)
    requires
        admits_registration(data, role, row),
        role.name@ == data.role@,
        login.username@ == data.username@,
        login.password@ == data.password@,
        stored.username@ == row.username@,
        stored.password_hash@ == row.password_hash@,
        stored.role_id == row.role_id,
        role_name@ == role.name@,
        0 <= now,
        now + TOKEN_LIFETIME_SECS <= usize::MAX,
    ensures
        login_outcome(login, Ok(Some(stored))) == Ok::<User, AuthError>(stored),
        stored.role_id == role.id,
        login_token_outcome(stored, Ok(role_name), secret, now) == Ok::<Seq<char>, AuthError>(
            signed_token(data.username@, data.role@, (now + TOKEN_LIFETIME_SECS) as usize, secret),
        ),
{
}

/// Login with a password that the stored hash rejects fails as
/// unauthenticated (401); login never answers with a forbidden outcome.
pub proof fn lemma_wrong_password_unauthorized(
    login: LoginRequest,
    stored: User,
    found: Result<Option<User>, StoreError>,
)
    requires
        password_verdict(login.password@, stored.password_hash@) == Some(false),
    ensures
        login_outcome(login, Ok(Some(stored))) == Err::<User, AuthError>(AuthError::InvalidCredentials),
        status_of(AuthError::InvalidCredentials) == 401,
        login_outcome(login, found) != Err::<User, AuthError>(AuthError::Forbidden),
{
}

} // verus!
