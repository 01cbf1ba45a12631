use vstd::prelude::*;
use crate::error::AuthError;

verus! {

/// The work factor of every password hash this library makes.
pub const HASH_COST: u32 = 10;

/// What bcrypt's verification answers for a password and a stored hash:
/// `Some(true)` when they match, `Some(false)` when they do not, `None`
/// when the hash cannot be read.
pub uninterp spec fn password_verdict(password: Seq<char>, hash: Seq<char>) -> Option<bool>;

/// The decimal digit `d`, for `d` below ten.
pub open spec fn digit_char(d: u32) -> char {
    if d == 0 {
        '0'
    } else if d == 1 {
        '1'
    } else if d == 2 {
        '2'
    } else if d == 3 {
        '3'
    } else if d == 4 {
        '4'
    } else if d == 5 {
        '5'
    } else if d == 6 {
        '6'
    } else if d == 7 {
        '7'
    } else if d == 8 {
        '8'
    } else {
        '9'
    }
}

/// How a bcrypt hash of version 2b made at `cost` begins: `$2b$`, the cost
/// in two digits, `$`.
pub open spec fn bcrypt_prefix(cost: u32) -> Seq<char> {
    seq!['$', '2', 'b', '$', digit_char(cost / 10), digit_char(cost % 10), '$']
}

/// Relies on `bcrypt::hash`: it refuses a cost outside 4 to 31; otherwise it
/// salts at random and writes `$2b$`, the two-digit cost, `$`, 22 characters
/// of salt and 31 of hash. Of the salted result only this is known besides,
/// that `bcrypt::verify` accepts the same password against it.
#[verifier::external_body]
fn bcrypt_hash(password: &str, cost: u32) -> (r: Option<String>)
    ensures
        r matches Some(h) ==> 4 <= cost <= 31 && h@.len() == 60 && h@.take(7) == bcrypt_prefix(cost)
            && password_verdict(password@, h@) == Some(true),
{
    bcrypt::hash(password, cost).ok()
}

/// Relies on `bcrypt::verify`: a deterministic answer for a password and a
/// stored hash, an error where the hash is malformed.
#[verifier::external_body]
fn bcrypt_verify(password: &str, hash: &str) -> (r: Option<bool>)
    ensures
        password_verdict(password@, hash@) == r,
{
    bcrypt::verify(password, hash).ok()
}

/// Hashes a password with a fresh salt at cost `HASH_COST`.
pub fn hash_password(password: &str) -> (r: Result<String, AuthError>)
    ensures
        match r {
            Ok(h) => password_verdict(password@, h@) == Some(true) && h@.len() == 60 && h@.take(7)
                == bcrypt_prefix(HASH_COST),
            Err(e) => e == AuthError::HashFailure,
        },
{
    match bcrypt_hash(password, HASH_COST) {
        Some(h) => Ok(h),
        None => Err(AuthError::HashFailure),
    }
}

/// Whether `password` matches the stored `hash`; a hash that cannot be read
/// is a hashing fault.
pub fn check_password(password: &str, hash: &str) -> (r: Result<bool, AuthError>)
    ensures
        r == match password_verdict(password@, hash@) {
            Some(b) => Ok::<bool, AuthError>(b),
            None => Err(AuthError::HashFailure),
        },
{
    match bcrypt_verify(password, hash) {
        Some(b) => Ok(b),
        None => Err(AuthError::HashFailure),
    }
}

} // verus!
