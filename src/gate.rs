use vstd::prelude::*;
use vstd::string::StringSliceAdditionalSpecFns;
use vstd::utf8::*;
use crate::error::AuthError;
use crate::models::{claims_triple, Claims};
use crate::token::{is_live, token_claims, unix_now, verify_token};

verus! {

broadcast use {vstd::utf8::encode_utf8_decode_utf8, vstd::utf8::encode_utf8_valid_utf8};

/// The bytes of `Bearer `, the scheme that must open an `Authorization`
/// header, space included.
pub open spec fn bearer_prefix_bytes() -> Seq<u8> {
    seq![66u8, 101u8, 97u8, 114u8, 101u8, 114u8, 32u8]
}

/// The token of a header value given as UTF-8 bytes: what follows the
/// case-sensitive prefix `Bearer `, or `None` where the prefix is absent.
pub open spec fn bearer_token_of(header: Seq<u8>) -> Option<Seq<char>> {
    if header.len() >= 7 && header.take(7) == bearer_prefix_bytes() {
        Some(decode_utf8(header.subrange(7, header.len() as int)))
    } else {
        None
    }
}

/// The bytes of a header value, where there is one.
pub open spec fn header_bytes(header: Option<&str>) -> Option<Seq<u8>> {
    match header {
        Some(h) => Some(h.spec_bytes()),
        None => None,
    }
}

/// What the auth gate decides for a request with this `Authorization`
/// header, under `secret`, at unix time `now`: the verified claims, or why
/// the request is rejected.
pub open spec fn auth_outcome(header: Option<Seq<u8>>, secret: Seq<char>, now: i64) -> Result<
    (Seq<char>, Seq<char>, usize),
    AuthError,
> {
    match header {
        None => Err(AuthError::MissingToken),
        Some(h) => match bearer_token_of(h) {
            None => Err(AuthError::MissingToken),
            Some(t) => match token_claims(t, secret) {
                None => Err(AuthError::TokenInvalid),
                Some(c) => if is_live(c.2, now) {
                    Ok(c)
                } else {
                    Err(AuthError::TokenExpired)
                },
            },
        },
    }
}

/// In valid UTF-8, the position just after an ASCII byte that starts a
/// character starts one too, or is the end.
proof fn lemma_boundary_after_ascii(b: Seq<u8>, i: int)
    requires
        valid_utf8(b),
        0 <= i < b.len(),
        is_char_boundary(b, i),
        b[i] <= 0x7f,
    ensures
        is_char_boundary(b, i + 1),
    decreases b.len(),
{
    let l = length_of_first_scalar(b);
    let rest = pop_first_scalar(b);
    assert(1 <= l <= b.len());
    assert(rest.len() == b.len() - l);
    if i == 0 {
        assert(l == 1);
        assert(is_char_boundary(rest, 0));
    } else {
        assert(is_char_boundary(rest, i - l));
        assert(rest[i - l] == b[i]);
        lemma_boundary_after_ascii(rest, i - l);
    }
}

/// In valid UTF-8, the end of a prefix made of ASCII bytes starts a
/// character, or is the end.
proof fn lemma_boundary_after_ascii_prefix(b: Seq<u8>, n: int)
    requires
        valid_utf8(b),
        0 <= n <= b.len(),
        forall|k: int| 0 <= k < n ==> b[k] <= 0x7f,
    ensures
        is_char_boundary(b, n),
    decreases n,
{
    if n > 0 {
        lemma_boundary_after_ascii_prefix(b, n - 1);
        lemma_boundary_after_ascii(b, n - 1);
    }
}

/// The token that an `Authorization` header value carries after `Bearer `.
pub fn bearer_token(header: &str) -> (r: Option<&str>)
    ensures
        match bearer_token_of(header.spec_bytes()) {
            Some(t) => r matches Some(s) && s@ == t,
            None => r is None,
        },
{
    let b = header.as_bytes();
    if b.len() < 7 {
        return None;
    }
    let p: Vec<u8> = vec![66u8, 101u8, 97u8, 114u8, 101u8, 114u8, 32u8];
    assert(p@ =~= bearer_prefix_bytes());
    let mut i: usize = 0;
    while i < 7
        invariant
            0 <= i <= 7,
            b@ == header.spec_bytes(),
            b@.len() >= 7,
            p@ == bearer_prefix_bytes(),
            forall|k: int| 0 <= k < i ==> b@[k] == p@[k],
        decreases 7 - i,
    {
        if b[i] != p[i] {
            assert(b@.take(7)[i as int] != bearer_prefix_bytes()[i as int]);
            return None;
        }
        i = i + 1;
    }
    assert(b@.take(7) =~= bearer_prefix_bytes());
    proof {
        let bytes = header.spec_bytes();
        assert forall|k: int| 0 <= k < 7 implies bytes[k] <= 0x7f by {
            assert(bytes[k] == bearer_prefix_bytes()[k]);
        }
        lemma_boundary_after_ascii_prefix(bytes, 7);
    }
    let (_, rest) = header.split_at(7);
    proof {
        assert(rest@ == decode_utf8(encode_utf8(rest@)));
    }
    Some(rest)
}

/// The per-request slot in which the auth gate leaves the verified claims
/// for the gates and handlers after it.
pub struct RequestContext {
    pub claims: Option<Claims>,
}

impl RequestContext {
    /// A request on which nothing has been verified yet.
    pub fn new() -> (r: RequestContext)
        ensures
            r.claims is None,
    {
        RequestContext { claims: None }
    }
}

/// The auth gate at unix time `now`: reads the bearer token from `header`,
/// verifies it under `secret`, and on success attaches its claims to `ctx`.
/// On failure `ctx` is left as it was.
pub fn authenticate(ctx: &mut RequestContext, header: Option<&str>, secret: &str, now: i64) -> (r:
    Result<(), AuthError>)
    ensures
        match auth_outcome(header_bytes(header), secret@, now) {
            Ok(c) => r == Ok::<(), AuthError>(()) && (final(ctx).claims matches Some(k) && claims_triple(k) == c),
            Err(e) => r == Err::<(), AuthError>(e) && final(ctx).claims == old(ctx).claims,
        },
{
    let h = match header {
        Some(h) => h,
        None => return Err(AuthError::MissingToken),
    };
    let token = match bearer_token(h) {
        Some(t) => t,
        None => return Err(AuthError::MissingToken),
    };
    match verify_token(token, secret, now) {
        Ok(c) => {
            ctx.claims = Some(c);
            Ok(())
        },
        Err(e) => Err(e),
    }
}

/// The auth gate against the current time.
pub fn require_auth(ctx: &mut RequestContext, header: Option<&str>, secret: &str) -> (r: Result<
    (),
    AuthError,
>)
    ensures
        exists|now: i64|
            match #[trigger] auth_outcome(header_bytes(header), secret@, now) {
                Ok(c) => r == Ok::<(), AuthError>(()) && (final(ctx).claims matches Some(k) && claims_triple(k) == c),
                Err(e) => r == Err::<(), AuthError>(e) && final(ctx).claims == old(ctx).claims,
            },
{
    let now = unix_now();
    authenticate(ctx, header, secret, now)
}

/// What the role gate decides for a request whose context holds `claims`.
pub open spec fn role_outcome(claims: Option<Claims>, role_required: Seq<char>) -> Result<(), AuthError> {
    match claims {
        None => Err(AuthError::MissingClaims),
        Some(c) => if c.role@ == role_required {
            Ok(())
        } else {
            Err(AuthError::Forbidden)
        },
    }
}

/// The role gate: admits a request whose verified role is exactly
/// `role_required`; forbids one with another role; rejects one that carries
/// no verified claims as unauthenticated.
pub fn require_role(ctx: &RequestContext, role_required: &str) -> (r: Result<(), AuthError>)
    ensures
        r == role_outcome(ctx.claims, role_required@),
{
    match &ctx.claims {
        None => Err(AuthError::MissingClaims),
        Some(c) => {
            let wanted = role_required.to_owned();
            if c.role == wanted {
                Ok(())
            } else {
                Err(AuthError::Forbidden)
            }
        },
    }
}

} // verus!
