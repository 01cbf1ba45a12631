use vstd::prelude::*;
use crate::error::AuthError;
use crate::models::{claims_triple, Claims};

verus! {

/// How long a token stays valid after it is issued, in seconds.
pub const TOKEN_LIFETIME_SECS: usize = 1200;

/// The signing secret used when the environment supplies none. It is a
/// development fallback and must not be relied on in production.
pub const DEFAULT_SECRET: &'static str = "secret";

/// What the HS256 signer makes of a subject, role, expiry and secret.
pub uninterp spec fn signed_token(sub: Seq<char>, role: Seq<char>, exp: usize, secret: Seq<char>) -> Seq<char>;

/// What the HS256 verifier reads out of a token under a secret, with no
/// regard to the time: `None` where the token is malformed, its signature or
/// algorithm does not match the secret, or its payload lacks a string `sub`,
/// a string `role` or an unsigned `exp`.
pub uninterp spec fn token_claims(token: Seq<char>, secret: Seq<char>) -> Option<(Seq<char>, Seq<char>, usize)>;

/// Relies on `jsonwebtoken::encode` with the default header (HS256) over the
/// object `{"sub", "role", "exp"}`: deterministic; it cannot fail, since an
/// HMAC key takes a secret of any length and HMAC signing always succeeds;
/// and its output is read back by `jsonwebtoken::decode` under the same
/// secret.
#[verifier::external_body]
fn jwt_encode(claims: &Claims, secret: &str) -> (r: String)
    ensures
        r@ == signed_token(claims.sub@, claims.role@, claims.exp, secret@),
        token_claims(r@, secret@) == Some(claims_triple(*claims)),
{
    let mut payload = serde_json::Map::new();
    payload.insert("sub".to_string(), serde_json::Value::from(claims.sub.clone()));
    payload.insert("role".to_string(), serde_json::Value::from(claims.role.clone()));
    payload.insert("exp".to_string(), serde_json::Value::from(claims.exp));
    let key = jsonwebtoken::EncodingKey::from_secret(secret.as_bytes());
    jsonwebtoken::encode(&jsonwebtoken::Header::default(), &serde_json::Value::Object(payload), &key)
        .expect("HMAC signing does not fail")
}

/// Relies on `jsonwebtoken::decode` with HS256 and its own expiry check
/// switched off, so that the result depends on the token and secret alone
/// (`accept_claims` checks the expiry, strictly and without leeway); the
/// payload fields are read as a string, a string and an unsigned number.
#[verifier::external_body]
fn jwt_decode(token: &str, secret: &str) -> (r: Option<Claims>)
    ensures
        token_claims(token@, secret@) == match r {
            Some(c) => Some(claims_triple(c)),
            None => None,
        },
{
    let mut validation = jsonwebtoken::Validation::new(jsonwebtoken::Algorithm::HS256);
    validation.validate_exp = false;
    let key = jsonwebtoken::DecodingKey::from_secret(secret.as_bytes());
    let data = jsonwebtoken::decode::<serde_json::Value>(token, &key, &validation).ok()?;
    let sub = data.claims["sub"].as_str()?.to_string();
    let role = data.claims["role"].as_str()?.to_string();
    let exp = serde_json::from_value::<usize>(data.claims["exp"].clone()).ok()?;
    Some(Claims { sub, role, exp })
}

/// Relies on `chrono::Utc::now`: the current unix time in seconds. It
/// stops on a clock set before 1970, so what it returns is not negative.
#[verifier::external_body]
pub(crate) fn unix_now() -> (r: i64)
    ensures
        r >= 0,
{
    chrono::Utc::now().timestamp()
}

/// The expiry of a token issued at `now`, where it is representable.
pub open spec fn expiry_spec(now: i64) -> Option<usize> {
    if 0 <= now && now + TOKEN_LIFETIME_SECS <= usize::MAX {
        Some((now + TOKEN_LIFETIME_SECS) as usize)
    } else {
        None
    }
}

/// A token is live at `now` when its expiry lies strictly after it.
pub open spec fn is_live(exp: usize, now: i64) -> bool {
    now < exp
}

/// The expiry of a token issued at unix time `now`: `now` plus the lifetime.
pub fn expiry_after(now: i64) -> (r: Option<usize>)
    ensures
        r == expiry_spec(now),
{
    if now < 0 {
        return None;
    }
    let n: u64 = now as u64;
    if n > (usize::MAX - TOKEN_LIFETIME_SECS) as u64 {
        None
    } else {
        Some(n as usize + TOKEN_LIFETIME_SECS)
    }
}

/// The signing secret: the configured one, or the development default.
pub fn secret_or_default(configured: Option<String>) -> (r: String)
    ensures
        match configured {
            Some(s) => r@ == s@,
            None => r@ == DEFAULT_SECRET@,
        },
{
    match configured {
        Some(s) => s,
        None => DEFAULT_SECRET.to_owned(),
    }
}

/// What issuing a token for `sub` in role `role` under `secret` at unix
/// time `now` gives: the signed token, or a signing failure where the expiry
/// is not representable.
pub open spec fn issued_token(sub: Seq<char>, role: Seq<char>, secret: Seq<char>, now: i64) -> Result<
    Seq<char>,
    AuthError,
> {
    match expiry_spec(now) {
        None => Err(AuthError::SignFailure),
        Some(exp) => Ok(signed_token(sub, role, exp, secret)),
    }
}

/// A token result as plain values.
pub open spec fn token_view(r: Result<String, AuthError>) -> Result<Seq<char>, AuthError> {
    match r {
        Ok(t) => Ok(t@),
        Err(e) => Err(e),
    }
}

/// Signs `claims` into a compact token under `secret`.
pub fn encode_token(claims: &Claims, secret: &str) -> (r: String)
    ensures
        r@ == signed_token(claims.sub@, claims.role@, claims.exp, secret@),
        token_claims(r@, secret@) == Some(claims_triple(*claims)),
{
    jwt_encode(claims, secret)
}

/// Issues a token for `sub` in role `role` at unix time `now`; it expires
/// `TOKEN_LIFETIME_SECS` later.
pub fn issue_token(sub: &String, role: &String, now: i64, secret: &str) -> (r: Result<String, AuthError>)
    ensures
        token_view(r) == issued_token(sub@, role@, secret@, now),
        r matches Ok(t) ==> (expiry_spec(now) matches Some(exp) && token_claims(t@, secret@) == Some(
            (sub@, role@, exp),
        )),
{
    match expiry_after(now) {
        None => Err(AuthError::SignFailure),
        Some(exp) => {
            let claims = Claims { sub: sub.clone(), role: role.clone(), exp };
            Ok(encode_token(&claims, secret))
        },
    }
}

/// What verification makes of the claims read out of a token, at unix time
/// `now`: none read means an invalid token; claims whose expiry is not after
/// `now` mean an expired one.
pub fn accept_claims(decoded: Option<Claims>, now: i64) -> (r: Result<Claims, AuthError>)
    ensures
        match decoded {
            None => r == Err::<Claims, AuthError>(AuthError::TokenInvalid),
            Some(c) => if is_live(c.exp, now) {
                r == Ok::<Claims, AuthError>(c)
            } else {
                r == Err::<Claims, AuthError>(AuthError::TokenExpired)
            },
        },
{
    match decoded {
        None => Err(AuthError::TokenInvalid),
        Some(c) => {
            if now < 0 || (c.exp as u64) > (now as u64) {
                Ok(c)
            } else {
                Err(AuthError::TokenExpired)
            }
        },
    }
}

/// Verifies `token` under `secret` at unix time `now`: the signature must
/// match and the expiry must lie after `now`.
pub fn verify_token(token: &str, secret: &str, now: i64) -> (r: Result<Claims, AuthError>)
    ensures
        match r {
            Ok(c) => token_claims(token@, secret@) == Some(claims_triple(c)) && is_live(c.exp, now),
            Err(e) => match token_claims(token@, secret@) {
                None => e == AuthError::TokenInvalid,
                Some(t) => e == AuthError::TokenExpired && !is_live(t.2, now),
            },
        },
{
    accept_claims(jwt_decode(token, secret), now)
}

/// Verifies `token` under `secret` against the current time.
pub fn decode_token(token: &str, secret: &str) -> (r: Result<Claims, AuthError>)
    ensures
        match r {
            Ok(c) => token_claims(token@, secret@) == Some(claims_triple(c)),
            Err(e) => match token_claims(token@, secret@) {
                None => e == AuthError::TokenInvalid,
                Some(_) => e == AuthError::TokenExpired,
            },
        },
{
    let now = unix_now();
    verify_token(token, secret, now)
}

} // verus!
