use vstd::prelude::*;
use crate::error::{status_of, AuthError};
use crate::gate::{
    auth_outcome, authenticate, bearer_token_of, header_bytes, require_role, role_outcome,
    RequestContext,
};
use crate::models::Claims;
use crate::token::{is_live, token_claims, unix_now};

verus! {

/// The role that the write routes require.
pub const WRITE_ROLE: &'static str = "seller";

/// The three route groups and the gates each one passes through.
#[derive(Debug, Clone, Copy, PartialEq, Eq, Structural)]
pub enum Tier {
    /// Registration and login: no gate.
    Public,
    /// Reads: the auth gate only, any role.
    Open,
    /// Writes: the auth gate, then the role gate.
    Protected,
}

/// The HTTP methods the service routes.
#[derive(Debug, Clone, Copy, PartialEq, Eq, Structural)]
pub enum Method {
    Get,
    Post,
    Delete,
}

/// One route: a method, a path pattern (`:name` marks a path parameter) and
/// the group it belongs to.
#[derive(Debug, Clone, PartialEq, Eq)]
pub struct Route {
    pub method: Method,
    pub path: String,
    pub tier: Tier,
}

/// The routes of the service and their groups, in order.
pub open spec fn route_plan() -> Seq<(Method, Seq<char>, Tier)> {
    seq![
        (Method::Post, "/auth/register"@, Tier::Public),
        (Method::Post, "/auth/login"@, Tier::Public),
        (Method::Get, "/items"@, Tier::Open),
        (Method::Get, "/items/:id"@, Tier::Open),
        (Method::Get, "/items/category/:id"@, Tier::Open),
        (Method::Get, "/categories"@, Tier::Open),
        (Method::Get, "/categories/:id"@, Tier::Open),
        (Method::Get, "/items/search"@, Tier::Open),
        (Method::Get, "/items/search/category/:category_name"@, Tier::Open),
        (Method::Post, "/items/create"@, Tier::Protected),
        (Method::Post, "/items/:id"@, Tier::Protected),
        (Method::Delete, "/items/:id"@, Tier::Protected),
    ]
}

/// A route as plain values.
pub open spec fn route_view(r: Route) -> (Method, Seq<char>, Tier) {
    (r.method, r.path@, r.tier)
}

fn route(method: Method, path: &str, tier: Tier) -> (r: Route)
    ensures
        route_view(r) == (method, path@, tier),
{
    Route { method, path: path.to_owned(), tier }
}

/// The route table: every route of the service with the group whose gates
/// guard it.
pub fn create_routes() -> (r: Vec<Route>)
    ensures
        r@.len() == route_plan().len(),
        forall|i: int| 0 <= i < r@.len() ==> route_view(#[trigger] r@[i]) == route_plan()[i],
{
    let r = vec![
        route(Method::Post, "/auth/register", Tier::Public),
        route(Method::Post, "/auth/login", Tier::Public),
        route(Method::Get, "/items", Tier::Open),
        route(Method::Get, "/items/:id", Tier::Open),
        route(Method::Get, "/items/category/:id", Tier::Open),
        route(Method::Get, "/categories", Tier::Open),
        route(Method::Get, "/categories/:id", Tier::Open),
        route(Method::Get, "/items/search", Tier::Open),
        route(Method::Get, "/items/search/category/:category_name", Tier::Open),
        route(Method::Post, "/items/create", Tier::Protected),
        route(Method::Post, "/items/:id", Tier::Protected),
        route(Method::Delete, "/items/:id", Tier::Protected),
    ];
    assert(r@.map_values(|x: Route| route_view(x)) =~= route_plan());
    proof {
        assert forall|i: int| 0 <= i < r@.len() implies route_view(#[trigger] r@[i])
            == route_plan()[i] by {
            assert(r@.map_values(|x: Route| route_view(x))[i] == route_view(r@[i]));
        }
    }
    r
}

/// What the gates of `tier` decide for a request with this header, under
/// `secret`, at unix time `now`, the write routes requiring `write_role`:
/// the auth gate runs first, and the role gate only on what it verified.
pub open spec fn gate_outcome(
    tier: Tier,
    write_role: Seq<char>,
    header: Option<Seq<u8>>,
    secret: Seq<char>,
    now: i64,
) -> Result<(), AuthError> {
    match tier {
        Tier::Public => Ok(()),
        Tier::Open => match auth_outcome(header, secret, now) {
            Ok(_) => Ok(()),
            Err(e) => Err(e),
        },
        Tier::Protected => match auth_outcome(header, secret, now) {
            Ok(c) => if c.1 == write_role {
                Ok(())
            } else {
                Err(AuthError::Forbidden)
            },
            Err(e) => Err(e),
        },
    }
}

/// Runs the gates of `tier` on a request at unix time `now`: none for a
/// public route; the auth gate for an open one; the auth gate and then the
/// role gate for a protected one. Verified claims are left in `ctx`.
pub fn pass_gates_at(
    tier: Tier,
    write_role: &str,
    ctx: &mut RequestContext,
    header: Option<&str>,
    secret: &str,
    now: i64,
) -> (r: Result<(), AuthError>)
    ensures
        r == gate_outcome(tier, write_role@, header_bytes(header), secret@, now),
        tier == Tier::Public ==> final(ctx).claims == old(ctx).claims,
        tier != Tier::Public ==> match auth_outcome(header_bytes(header), secret@, now) {
            Ok(c) => final(ctx).claims matches Some(k) && k.sub@ == c.0 && k.role@ == c.1 && k.exp
                == c.2,
            Err(_) => final(ctx).claims == old(ctx).claims,
        },
{
    match tier {
        Tier::Public => Ok(()),
        Tier::Open => authenticate(ctx, header, secret, now),
        Tier::Protected => {
            match authenticate(ctx, header, secret, now) {
                Err(e) => Err(e),
                Ok(()) => require_role(ctx, write_role),
            }
        },
    }
}

/// Runs the gates of `tier` on a request against the current time.
pub fn pass_gates(tier: Tier, write_role: &str, ctx: &mut RequestContext, header: Option<&str>, secret: &str) -> (r:
    Result<(), AuthError>)
    ensures
        exists|now: i64|
            {
                &&& 0 <= now
                &&& r == #[trigger] gate_outcome(tier, write_role@, header_bytes(header), secret@, now)
                &&& tier == Tier::Public ==> final(ctx).claims == old(ctx).claims
                &&& tier != Tier::Public ==> match auth_outcome(header_bytes(header), secret@, now) {
                    Ok(c) => final(ctx).claims matches Some(k) && k.sub@ == c.0 && k.role@ == c.1
                        && k.exp == c.2,
                    Err(_) => final(ctx).claims == old(ctx).claims,
                }
            },
        tier == Tier::Public ==> r is Ok && final(ctx).claims == old(ctx).claims,
{
    let now = unix_now();
    pass_gates_at(tier, write_role, ctx, header, secret, now)
}

/// For every required role, the role gate forbids (403) a request whose
/// verified role differs from it, and rejects as unauthenticated (401) a
/// request that carries no verified claims.
pub proof fn lemma_role_gate_denies(claims: Option<Claims>, role_required: Seq<char>)
    ensures
        claims matches Some(c) && c.role@ != role_required ==> role_outcome(claims, role_required)
            == Err::<(), AuthError>(AuthError::Forbidden),
        claims is None ==> role_outcome(claims, role_required) == Err::<(), AuthError>(
            AuthError::MissingClaims,
        ),
        status_of(AuthError::Forbidden) == 403,
        status_of(AuthError::MissingClaims) == 401,
{
}

/// On a protected route, a request whose token verifies with a role other
/// than the write role is forbidden (403).
pub proof fn lemma_protected_wrong_role_forbidden(
    write_role: Seq<char>,
    header: Seq<u8>,
    secret: Seq<char>,
    now: i64,
)
    requires
        auth_outcome(Some(header), secret, now) matches Ok(c) && c.1 != write_role,
    ensures
        gate_outcome(Tier::Protected, write_role, Some(header), secret, now) == Err::<(), AuthError>(
            AuthError::Forbidden,
        ),
{
}

/// A token whose expiry is not after `now` fails verification even under
/// the secret that signed it: every gated route rejects it as expired.
pub proof fn lemma_expired_token_rejected(
    tier: Tier,
    write_role: Seq<char>,
    header: Seq<u8>,
    secret: Seq<char>,
    now: i64,
)
    requires
        tier != Tier::Public,
        bearer_token_of(header) matches Some(t) && token_claims(t, secret) matches Some(c)
            && !is_live(c.2, now),
    ensures
        auth_outcome(Some(header), secret, now) == Err::<(Seq<char>, Seq<char>, usize), AuthError>(
            AuthError::TokenExpired,
        ),
        gate_outcome(tier, write_role, Some(header), secret, now) == Err::<(), AuthError>(
            AuthError::TokenExpired,
        ),
{
}

} // verus!
