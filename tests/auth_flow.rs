use inventory_auth::credentials::{
    login_token, login_token_at, password_decision, registration_response, registration_row,
    verify_login, NewUser,
    StoreError,
};
use inventory_auth::error::AuthError;
use inventory_auth::gate::{authenticate, bearer_token, require_auth, require_role, RequestContext};
use inventory_auth::models::{Claims, LoginRequest, RegisterUser, Role, User, UserResponse};
use inventory_auth::password::{check_password, hash_password};
use inventory_auth::routes::{create_routes, pass_gates, pass_gates_at, Method, Tier, WRITE_ROLE};
use inventory_auth::token::{
    accept_claims, decode_token, encode_token, expiry_after, issue_token, secret_or_default, verify_token,
    DEFAULT_SECRET, TOKEN_LIFETIME_SECS,
};

const SECRET: &str = "test-signing-secret";

fn roles() -> Vec<Role> {
    vec![
        Role { id: 1, name: "seller".to_string() },
        Role { id: 2, name: "customer".to_string() },
    ]
}

fn find_role(name: &str) -> Option<Role> {
    roles().into_iter().find(|r| r.name == name)
}

fn role_name(id: i64) -> Result<String, StoreError> {
    roles().into_iter().find(|r| r.id == id).map(|r| r.name).ok_or(StoreError)
}

/// Runs registration against a store whose users table is `users`.
fn register(users: &mut Vec<User>, username: &str, password: &str, role: &str) -> Result<UserResponse, AuthError> {
    let data = RegisterUser {
        username: username.to_string(),
        password: password.to_string(),
        role: role.to_string(),
    };
    let row: NewUser = registration_row(&data, Ok(find_role(role)))?;
    let id = users.len() as i64 + 1;
    users.push(User { id, username: row.username, password_hash: row.password_hash, role_id: row.role_id });
    registration_response(Ok(users[users.len() - 1].clone()))
}

/// Runs login against a store whose users table is `users`.
fn login(users: &[User], username: &str, password: &str) -> Result<String, AuthError> {
    let data = LoginRequest { username: username.to_string(), password: password.to_string() };
    let found = users.iter().find(|u| u.username == username).cloned();
    let user = verify_login(&data, Ok(found))?;
    login_token(&user, role_name(user.role_id), SECRET)
}

fn bearer(token: &str) -> String {
    format!("Bearer {}", token)
}

#[test]
fn register_login_and_write_route_scenario() {
    let mut users = Vec::new();
    let alice = register(&mut users, "alice", "pw123", "seller").unwrap();
    assert_eq!(alice.username, "alice");
    assert_eq!(alice.role_id, 1);
    let t = login(&users, "alice", "pw123").unwrap();

    let header = bearer(&t);
    let mut ctx = RequestContext::new();
    assert_eq!(pass_gates(Tier::Protected, WRITE_ROLE, &mut ctx, Some(&header), SECRET), Ok(()));
    assert_eq!(ctx.claims.as_ref().unwrap().role, "seller");

    register(&mut users, "carol", "pw456", "customer").unwrap();
    let c = login(&users, "carol", "pw456").unwrap();
    let header = bearer(&c);
    let mut ctx = RequestContext::new();
    let r = pass_gates(Tier::Protected, WRITE_ROLE, &mut ctx, Some(&header), SECRET);
    assert_eq!(r, Err(AuthError::Forbidden));
    assert_eq!(r.unwrap_err().status_code(), 403);

    let mut ctx = RequestContext::new();
    let r = pass_gates(Tier::Protected, WRITE_ROLE, &mut ctx, None, SECRET);
    assert_eq!(r.unwrap_err().status_code(), 401);
    assert!(ctx.claims.is_none());

    let mut tampered = t.clone();
    let last = tampered.pop().unwrap();
    tampered.push(if last == 'A' { 'B' } else { 'A' });
    let header = bearer(&tampered);
    let mut ctx = RequestContext::new();
    let r = pass_gates(Tier::Protected, WRITE_ROLE, &mut ctx, Some(&header), SECRET);
    assert_eq!(r, Err(AuthError::TokenInvalid));
    assert_eq!(r.unwrap_err().status_code(), 401);
    assert!(ctx.claims.is_none());
}

#[test]
fn register_with_unknown_role_is_bad_request() {
    let mut users = Vec::new();
    let r = register(&mut users, "bob", "pw", "not-a-role");
    assert_eq!(r, Err(AuthError::InvalidRole));
    assert_eq!(r.unwrap_err().status_code(), 400);
    assert!(users.is_empty());
}

#[test]
fn registered_role_comes_back_in_token() {
    for role in ["seller", "customer"] {
        let mut users = Vec::new();
        register(&mut users, "dave", "s3cret!", role).unwrap();
        let t = login(&users, "dave", "s3cret!").unwrap();
        let claims = decode_token(&t, SECRET).unwrap();
        assert_eq!(claims.role, role);
        assert_eq!(claims.sub, "dave");
    }
}

#[test]
fn wrong_password_is_unauthorized() {
    let mut users = Vec::new();
    register(&mut users, "erin", "right", "seller").unwrap();
    let r = login(&users, "erin", "wrong");
    assert_eq!(r, Err(AuthError::InvalidCredentials));
    assert_eq!(r.unwrap_err().status_code(), 401);
}

#[test]
fn unknown_user_is_unauthorized() {
    let users: Vec<User> = Vec::new();
    assert_eq!(login(&users, "nobody", "pw"), Err(AuthError::InvalidCredentials));
}

#[test]
fn store_faults_are_server_errors() {
    let data = RegisterUser { username: "f".to_string(), password: "p".to_string(), role: "seller".to_string() };
    assert_eq!(registration_row(&data, Err(StoreError)), Err(AuthError::StoreFailure));
    assert_eq!(registration_response(Err(StoreError)), Err(AuthError::StoreFailure));
    let req = LoginRequest { username: "f".to_string(), password: "p".to_string() };
    assert_eq!(verify_login(&req, Err(StoreError)), Err(AuthError::StoreFailure));
    let user = User { id: 1, username: "f".to_string(), password_hash: "x".to_string(), role_id: 9 };
    let r = login_token(&user, Err(StoreError), SECRET);
    assert_eq!(r, Err(AuthError::StoreFailure));
    assert_eq!(r.unwrap_err().status_code(), 500);
}

#[test]
fn registration_row_keeps_username_and_role() {
    let data = RegisterUser { username: "gina".to_string(), password: "pw".to_string(), role: "seller".to_string() };
    let row = registration_row(&data, Ok(Some(Role { id: 7, name: "seller".to_string() }))).unwrap();
    assert_eq!(row.username, "gina");
    assert_eq!(row.role_id, 7);
    assert_ne!(row.password_hash, "pw");
    assert_eq!(row.password_hash.len(), 60);
    assert!(row.password_hash.starts_with("$2b$10$"));
    assert_eq!(check_password("pw", &row.password_hash), Ok(true));
}

#[test]
fn registration_response_drops_the_hash() {
    let u = User { id: 42, username: "hank".to_string(), password_hash: "h".to_string(), role_id: 2 };
    assert_eq!(
        registration_response(Ok(u)),
        Ok(UserResponse { id: 42, username: "hank".to_string(), role_id: 2 })
    );
}

#[test]
fn malformed_stored_hash_is_a_hash_failure() {
    let req = LoginRequest { username: "ivy".to_string(), password: "pw".to_string() };
    let u = User { id: 1, username: "ivy".to_string(), password_hash: "not-a-hash".to_string(), role_id: 1 };
    let r = verify_login(&req, Ok(Some(u)));
    assert_eq!(r, Err(AuthError::HashFailure));
    assert_eq!(r.unwrap_err().status_code(), 500);
}

#[test]
fn hash_then_check_password() {
    let h = hash_password("hunter2").unwrap();
    assert!(h.starts_with("$2b$10$"));
    assert_eq!(check_password("hunter2", &h), Ok(true));
    assert_eq!(check_password("hunter3", &h), Ok(false));
    assert_eq!(check_password("hunter2", "garbage"), Err(AuthError::HashFailure));
}

#[test]
fn token_from_other_secret_is_invalid() {
    let t = issue_token(&"jo".to_string(), &"seller".to_string(), 1_000, "first-secret").unwrap();
    assert_eq!(verify_token(&t, "second-secret", 1_000), Err(AuthError::TokenInvalid));
    assert_eq!(verify_token(&t, "first-secret", 1_000).unwrap().role, "seller");
}

#[test]
fn expired_token_is_rejected_with_right_secret() {
    let t = issue_token(&"kim".to_string(), &"seller".to_string(), 1_000, SECRET).unwrap();
    let c = verify_token(&t, SECRET, 2_199).unwrap();
    assert_eq!(c.exp, 2_200);
    assert_eq!(verify_token(&t, SECRET, 2_200), Err(AuthError::TokenExpired));
    assert_eq!(verify_token(&t, SECRET, 5_000), Err(AuthError::TokenExpired));
    assert_eq!(decode_token(&t, SECRET), Err(AuthError::TokenExpired));
    let header = bearer(&t);
    let mut ctx = RequestContext::new();
    let r = pass_gates_at(Tier::Open, WRITE_ROLE, &mut ctx, Some(&header), SECRET, 3_000);
    assert_eq!(r, Err(AuthError::TokenExpired));
    assert_eq!(r.unwrap_err().status_code(), 401);
}

#[test]
fn encoded_token_is_deterministic_and_three_segments() {
    let claims = Claims { sub: "lee".to_string(), role: "customer".to_string(), exp: 4_000_000_000 };
    let a = encode_token(&claims, SECRET);
    let b = encode_token(&claims, SECRET);
    assert_eq!(a, b);
    assert_eq!(a.split('.').count(), 3);
    assert!(a.starts_with("eyJ"));
    let back = verify_token(&a, SECRET, 0).unwrap();
    assert_eq!(back, claims);
    assert_eq!(verify_token("not.a.token", SECRET, 0), Err(AuthError::TokenInvalid));
    assert_eq!(verify_token("", SECRET, 0), Err(AuthError::TokenInvalid));
}

#[test]
fn login_token_at_sets_expiry_twenty_minutes_ahead() {
    let user = User { id: 3, username: "max".to_string(), password_hash: "h".to_string(), role_id: 1 };
    let t = login_token_at(&user, Ok("seller".to_string()), SECRET, 10_000).unwrap();
    let c = verify_token(&t, SECRET, 10_000).unwrap();
    assert_eq!(c, Claims { sub: "max".to_string(), role: "seller".to_string(), exp: 11_200 });
    assert_eq!(login_token_at(&user, Ok("seller".to_string()), SECRET, -5), Err(AuthError::SignFailure));
}

#[test]
fn expiry_after_adds_the_lifetime() {
    assert_eq!(TOKEN_LIFETIME_SECS, 1200);
    assert_eq!(expiry_after(0), Some(1200));
    assert_eq!(expiry_after(1_700_000_000), Some(1_700_001_200));
    assert_eq!(expiry_after(-1), None);
    assert_eq!(expiry_after(i64::MAX), Some(i64::MAX as usize + 1200));
}

#[test]
fn secret_falls_back_to_default() {
    assert_eq!(secret_or_default(None), "secret");
    assert_eq!(DEFAULT_SECRET, "secret");
    assert_eq!(secret_or_default(Some("prod".to_string())), "prod");
}

#[test]
fn bearer_prefix_is_exact() {
    assert_eq!(bearer_token("Bearer abc.def.ghi"), Some("abc.def.ghi"));
    assert_eq!(bearer_token("Bearer "), Some(""));
    assert_eq!(bearer_token("Bearer"), None);
    assert_eq!(bearer_token("bearer abc"), None);
    assert_eq!(bearer_token("Bearer  x"), Some(" x"));
    assert_eq!(bearer_token("Basic abc"), None);
    assert_eq!(bearer_token("Bearer é"), Some("é"));
}

#[test]
fn auth_gate_attaches_claims_only_on_success() {
    let t = issue_token(&"ned".to_string(), &"customer".to_string(), 100, SECRET).unwrap();
    let header = bearer(&t);
    let mut ctx = RequestContext::new();
    assert_eq!(authenticate(&mut ctx, Some(&header), SECRET, 200), Ok(()));
    let c = ctx.claims.clone().unwrap();
    assert_eq!((c.sub.as_str(), c.role.as_str(), c.exp), ("ned", "customer", 1_300));

    let mut ctx = RequestContext::new();
    assert_eq!(authenticate(&mut ctx, Some(&t), SECRET, 200), Err(AuthError::MissingToken));
    assert_eq!(authenticate(&mut ctx, None, SECRET, 200), Err(AuthError::MissingToken));
    assert!(ctx.claims.is_none());
    assert_eq!(require_auth(&mut ctx, Some("Bearer x"), SECRET), Err(AuthError::TokenInvalid));
    assert!(ctx.claims.is_none());
}

#[test]
fn role_gate_outcomes() {
    let mut ctx = RequestContext::new();
    let r = require_role(&ctx, "seller");
    assert_eq!(r, Err(AuthError::MissingClaims));
    assert_eq!(r.unwrap_err().status_code(), 401);
    ctx.claims = Some(Claims { sub: "o".to_string(), role: "customer".to_string(), exp: 1 });
    for required in ["seller", "Customer", "", "customer "] {
        let r = require_role(&ctx, required);
        assert_eq!(r, Err(AuthError::Forbidden));
        assert_eq!(r.unwrap_err().status_code(), 403);
    }
    assert_eq!(require_role(&ctx, "customer"), Ok(()));
}

#[test]
fn gates_by_tier() {
    let t = issue_token(&"pat".to_string(), &"customer".to_string(), 100, SECRET).unwrap();
    let header = bearer(&t);
    let mut ctx = RequestContext::new();
    assert_eq!(pass_gates_at(Tier::Public, WRITE_ROLE, &mut ctx, None, SECRET, 200), Ok(()));
    assert!(ctx.claims.is_none());
    assert_eq!(pass_gates_at(Tier::Open, WRITE_ROLE, &mut ctx, None, SECRET, 200), Err(AuthError::MissingToken));
    assert_eq!(pass_gates_at(Tier::Open, WRITE_ROLE, &mut ctx, Some(&header), SECRET, 200), Ok(()));
    let mut ctx = RequestContext::new();
    assert_eq!(
        pass_gates_at(Tier::Protected, WRITE_ROLE, &mut ctx, Some(&header), SECRET, 200),
        Err(AuthError::Forbidden)
    );
    assert_eq!(pass_gates_at(Tier::Protected, "customer", &mut ctx, Some(&header), SECRET, 200), Ok(()));
}

#[test]
fn route_table_groups() {
    let routes = create_routes();
    assert_eq!(routes.len(), 12);
    let tier_of = |m: Method, p: &str| routes.iter().find(|r| r.method == m && r.path == p).map(|r| r.tier);
    assert_eq!(tier_of(Method::Post, "/auth/register"), Some(Tier::Public));
    assert_eq!(tier_of(Method::Post, "/auth/login"), Some(Tier::Public));
    assert_eq!(tier_of(Method::Get, "/items/:id"), Some(Tier::Open));
    assert_eq!(tier_of(Method::Get, "/items/search"), Some(Tier::Open));
    assert_eq!(tier_of(Method::Post, "/items/create"), Some(Tier::Protected));
    assert_eq!(tier_of(Method::Post, "/items/:id"), Some(Tier::Protected));
    assert_eq!(tier_of(Method::Delete, "/items/:id"), Some(Tier::Protected));
    assert_eq!(routes.iter().filter(|r| r.tier == Tier::Open).count(), 7);
}

#[test]
fn status_codes() {
    assert_eq!(AuthError::InvalidRole.status_code(), 400);
    assert_eq!(AuthError::TokenExpired.status_code(), 401);
    assert_eq!(AuthError::Forbidden.status_code(), 403);
    assert_eq!(AuthError::HashFailure.status_code(), 500);
    assert_eq!(AuthError::SignFailure.status_code(), 500);
}

#[test]
fn accept_claims_decides_by_expiry() {
    let c = Claims { sub: "quinn".to_string(), role: "seller".to_string(), exp: 500 };
    assert_eq!(accept_claims(None, 0), Err(AuthError::TokenInvalid));
    assert_eq!(accept_claims(Some(c.clone()), 499), Ok(c.clone()));
    assert_eq!(accept_claims(Some(c.clone()), 500), Err(AuthError::TokenExpired));
    assert_eq!(accept_claims(Some(c.clone()), -1), Ok(c));
}

#[test]
fn password_decision_outcomes() {
    let u = User { id: 5, username: "rae".to_string(), password_hash: "h".to_string(), role_id: 1 };
    assert_eq!(password_decision(u.clone(), Ok(true)), Ok(u.clone()));
    assert_eq!(password_decision(u.clone(), Ok(false)), Err(AuthError::InvalidCredentials));
    assert_eq!(password_decision(u, Err(AuthError::HashFailure)), Err(AuthError::HashFailure));
}

#[test]
fn login_token_now_decodes_with_fresh_expiry() {
    let user = User { id: 8, username: "sam".to_string(), password_hash: "h".to_string(), role_id: 1 };
    let t = login_token(&user, Ok("seller".to_string()), SECRET).unwrap();
    let c = decode_token(&t, SECRET).unwrap();
    assert_eq!(c.sub, "sam");
    assert_eq!(c.role, "seller");
    let claims = verify_token(&t, SECRET, 0).unwrap();
    assert_eq!(claims.exp, c.exp);
    assert!(c.exp > 1_600_000_000 + TOKEN_LIFETIME_SECS);
}
