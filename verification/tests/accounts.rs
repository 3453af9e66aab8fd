use parcel_tracker::account::{
    authenticate, authenticate_at, register_user, CreateUser, LoginOutcome, LoginUser, RegisterError, User,
    UserRole,
};
use parcel_tracker::auth::{bearer_token, check_request, check_request_now, is_public_route};
use parcel_tracker::clock::{now_unix_nanos, LATEST_INSTANT};
use parcel_tracker::error::SyncError;
use parcel_tracker::password::{hash_password, password_matches};
use parcel_tracker::token::{session_cookie, session_cookie_at, session_cookie_now, verify_session_token, TokenError};

fn form(name: &str, email: &str, password: &str) -> CreateUser {
    CreateUser { name: name.to_string(), email: email.to_string(), password: password.to_string() }
}

fn login(email: &str, password: &str) -> LoginUser {
    LoginUser { email: email.to_string(), password: password.to_string() }
}

#[test]
fn hashed_password_verifies() {
    let h = hash_password("hunter42");
    assert!(h.starts_with("$argon2id$"));
    assert!(password_matches("hunter42", &h));
    assert!(!password_matches("hunter43", &h));
    assert!(!password_matches("hunter42", "not a hash"));
    assert!(!password_matches("hunter42", ""));
    assert!(!password_matches("hunter42", "$x"));
    // a fresh salt each time
    assert_ne!(hash_password("hunter42"), h);
}

#[test]
fn registration_checks() {
    assert_eq!(register_user(&form("", "a@b.c", "pw"), false).unwrap_err(), RegisterError::BadRequest);
    assert_eq!(register_user(&form("Ann", "", "pw"), true).unwrap_err(), RegisterError::BadRequest);
    assert_eq!(register_user(&form("Ann", "a@b.c", "pw"), true).unwrap_err(), RegisterError::Conflict);
    assert_eq!(RegisterError::BadRequest.status_code(), 400);
    assert_eq!(RegisterError::Conflict.status_code(), 409);
    // the password may be empty
    let u = register_user(&form("Ann", "a@b.c", ""), false).unwrap();
    assert!(password_matches("", &u.password));
}

#[test]
fn registered_user_logs_in() {
    let u = register_user(&form("Ann", "ann@example.com", "s3cret"), false).unwrap();
    assert_eq!(u.name, "Ann");
    assert_eq!(u.email, "ann@example.com");
    assert_eq!(u.id.len(), 36);
    assert_eq!(u.id.as_bytes()[14], b'4');
    assert!(u.password.starts_with('$'));
    assert_ne!(u.password, "s3cret");
    let outcome = authenticate(&login("ann@example.com", "s3cret"), Some(&u), Ok("jwt-secret"));
    match outcome {
        LoginOutcome::Authenticated { cookie } => {
            assert!(cookie.starts_with("token="));
            assert!(cookie.ends_with("; HttpOnly; Secure; SameSite=Strict; Path=/"));
        }
        other => panic!("unexpected {:?}", other),
    }
}

#[test]
fn login_refusals() {
    let u = register_user(&form("Ann", "ann@example.com", "s3cret"), false).unwrap();
    assert!(matches!(authenticate(&login("", "s3cret"), Some(&u), Ok("k")), LoginOutcome::BadRequest));
    assert!(matches!(authenticate(&login("ann@example.com", ""), Some(&u), Ok("k")), LoginOutcome::BadRequest));
    assert!(matches!(authenticate(&login("ann@example.com", "wrong"), Some(&u), Ok("k")), LoginOutcome::Unauthorized));
    assert!(matches!(authenticate(&login("ann@example.com", "s3cret"), None, Ok("k")), LoginOutcome::Unauthorized));
    let plain = User { password: "s3cret".to_string(), ..User::new(&form("Ann", "ann@example.com", "x"), String::new()) };
    assert!(matches!(authenticate(&login("ann@example.com", "s3cret"), Some(&plain), Ok("k")), LoginOutcome::Unauthorized));
    match authenticate(&login("ann@example.com", "s3cret"), Some(&u), Err("environment variable not found")) {
        LoginOutcome::TokenFailure { message } => assert_eq!(message, "environment variable not found"),
        other => panic!("unexpected {:?}", other),
    }
    // a wrong password is refused before the secret is looked at
    assert!(matches!(authenticate(&login("ann@example.com", "nope"), Some(&u), Err("missing")), LoginOutcome::Unauthorized));
    assert_eq!(LoginOutcome::BadRequest.status_code(), 400);
    assert_eq!(LoginOutcome::Unauthorized.status_code(), 401);
    assert_eq!(LoginOutcome::Authenticated { cookie: String::new() }.status_code(), 200);
    assert_eq!(LoginOutcome::TokenFailure { message: String::new() }.status_code(), 500);
}

#[test]
fn login_at_fixed_time_is_deterministic() {
    let u = User {
        id: "5f0c0b7e-2d0a-4a4e-9a57-3c1c7b1d2e3f".to_string(),
        name: "Ann".to_string(),
        email: "ann@example.com".to_string(),
        created_at: 0,
        password: hash_password("pw"),
    };
    let now = 1_700_000_000_000_000_000i128;
    let a = authenticate_at(&login("ann@example.com", "pw"), Some(&u), now, Ok("k1"));
    let b = authenticate_at(&login("ann@example.com", "pw"), Some(&u), now, Ok("k1"));
    match (a, b) {
        (LoginOutcome::Authenticated { cookie: c1 }, LoginOutcome::Authenticated { cookie: c2 }) => assert_eq!(c1, c2),
        _ => panic!("expected two tokens"),
    }
}

#[test]
fn cookie_text() {
    assert_eq!(session_cookie("abc"), "token=abc; HttpOnly; Secure; SameSite=Strict; Path=/");
}

fn base64url_decode(s: &str) -> Vec<u8> {
    let alphabet = "ABCDEFGHIJKLMNOPQRSTUVWXYZabcdefghijklmnopqrstuvwxyz0123456789-_";
    let mut bits: u32 = 0;
    let mut n = 0;
    let mut out = Vec::new();
    for c in s.chars() {
        let v = alphabet.find(c).unwrap() as u32;
        bits = (bits << 6) | v;
        n += 6;
        if n >= 8 {
            n -= 8;
            out.push(((bits >> n) & 0xff) as u8);
        }
    }
    out
}

#[test]
fn token_contents() {
    let now = 1_700_000_000_123_456_789i128;
    let cookie = session_cookie_at("user-1", now, "secret-a").unwrap();
    let token = cookie.strip_prefix("token=").unwrap().split(';').next().unwrap().to_string();
    let parts: Vec<&str> = token.split('.').collect();
    assert_eq!(parts.len(), 3);
    let header = jsonwebtoken::decode_header(&token).unwrap();
    assert_eq!(header.alg, jsonwebtoken::Algorithm::HS256);
    let claims: serde_json::Value = serde_json::from_slice(&base64url_decode(parts[1])).unwrap();
    assert_eq!(claims["sub"], "user-1");
    // the expiry is one day after the issuing second
    assert_eq!(claims["exp"], 1_700_086_400i64);
    // another secret gives another signature
    let other = session_cookie_at("user-1", now, "secret-b").unwrap();
    assert_ne!(cookie, other);
}

#[test]
fn token_expiry_out_of_range() {
    assert!(matches!(session_cookie_at("u", LATEST_INSTANT, "k"), Err(TokenError::ExpiryOutOfRange)));
    assert!(session_cookie_at("u", LATEST_INSTANT - 86_400_000_000_000, "k").is_ok());
    assert!(matches!(
        authenticate_at(&login("a@b.c", "pw"), Some(&User { password: hash_password("pw"), ..User::new(&form("A", "a@b.c", "pw"), String::new()) }), LATEST_INSTANT, Ok("k")),
        LoginOutcome::TokenFailure { .. }
    ));
    assert!(now_unix_nanos() > 1_600_000_000_000_000_000);
}

#[test]
fn user_new_copies_the_form() {
    let u = User::new(&form("Bo", "bo@x.y", "pw"), "hash".to_string());
    assert_eq!(u.name, "Bo");
    assert_eq!(u.email, "bo@x.y");
    assert_eq!(u.password, "hash");
    assert_eq!(u.id.len(), 36);
    assert!(u.created_at > 0);
    assert_ne!(User::new(&form("Bo", "bo@x.y", "pw"), "hash".to_string()).id, u.id);
}

#[test]
fn role_names() {
    assert_eq!(UserRole::Customer.as_str(), "customer");
    assert_eq!(UserRole::Driver.as_str(), "driver");
}

fn token_of(cookie: &str) -> String {
    cookie.strip_prefix("token=").unwrap().split(';').next().unwrap().to_string()
}

#[test]
fn public_routes() {
    assert!(!is_public_route("/health"));
    assert!(is_public_route("/login"));
    assert!(is_public_route("/register"));
    assert!(!is_public_route("/ws"));
    assert!(!is_public_route("/metrics"));
    assert_eq!(check_request("/login", None, None, 0), Ok(()));
    assert_eq!(check_request_now("/register", None, None), Ok(()));
    assert_eq!(check_request_now("/health", None, None), Err(401));
}

#[test]
fn bearer_headers() {
    assert_eq!(bearer_token("Bearer abc"), Some("abc"));
    assert_eq!(bearer_token("Bearer "), Some(""));
    assert_eq!(bearer_token("bearer abc"), None);
    assert_eq!(bearer_token("Bear"), None);
}

#[test]
fn issued_tokens_open_protected_routes_until_expiry() {
    let now = 1_700_000_000_000_000_000i128;
    let token = token_of(&session_cookie_at("user-7", now, "secret-a").unwrap());
    let header = format!("Bearer {token}");
    assert_eq!(check_request("/ws", Some(&header), Some("secret-a"), 1_700_000_000), Ok(()));
    assert_eq!(check_request("/ws", Some(&header), Some("secret-a"), 1_700_086_399), Ok(()));
    // expired, wrong secret, no secret, no header, not a bearer header
    assert_eq!(check_request("/ws", Some(&header), Some("secret-a"), 1_700_086_400), Err(401));
    assert_eq!(check_request("/ws", Some(&header), Some("secret-b"), 1_700_000_000), Err(401));
    assert_eq!(check_request("/ws", Some(&header), None, 1_700_000_000), Err(401));
    assert_eq!(check_request("/ws", None, Some("secret-a"), 1_700_000_000), Err(401));
    assert_eq!(check_request("/ws", Some(&token), Some("secret-a"), 1_700_000_000), Err(401));
    assert_eq!(check_request("/ws", Some("Bearer secret-token"), Some("secret-a"), 0), Err(401));
    // a fresh login token passes right now
    let fresh = token_of(&session_cookie_now("user-7", "k").unwrap());
    assert_eq!(check_request_now("/ws", Some(&format!("Bearer {fresh}")), Some("k")), Ok(()));
}

#[test]
fn verified_session_subject() {
    let token = token_of(&session_cookie_at("user-9", 0, "s").unwrap());
    assert_eq!(verify_session_token(&token, "s", 0), Some("user-9".to_string()));
    assert_eq!(verify_session_token(&token, "s", 86_400), None);
    assert_eq!(verify_session_token(&token, "t", 0), None);
    assert_eq!(verify_session_token("not.a.token", "s", 0), None);
}

#[test]
fn sync_error_answers() {
    let e = SyncError::Json("expected value".to_string());
    assert_eq!(e.status_code(), 400);
    assert_eq!(e.message(), "expected value");
    assert_eq!(e.describe(), "JSON failure: expected value");
    assert_eq!(SyncError::Redis("down".to_string()).status_code(), 500);
    assert_eq!(SyncError::Redis("down".to_string()).describe(), "Redis failure: down");
    assert_eq!(SyncError::Postgres("gone".to_string()).describe(), "Database failure: gone");
    assert_eq!(SyncError::Postgres("gone".to_string()).status_code(), 500);
    assert_eq!(SyncError::Other("x".to_string()).describe(), "x");
    assert_eq!(SyncError::Other("x".to_string()).status_code(), 500);
}
