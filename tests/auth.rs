use fast_realworld::auth::jwt::{AuthData, Claims, TOKEN_LIFETIME_SECS};
use fast_realworld::auth::pass::{check_password, hash_password, lanes_fit, CheckedPass};
use fast_realworld::middleware::{bearer_token, token_from_header, Auth};
use fast_realworld::AppError;

#[test]
fn token_header_with_prefix() {
    assert_eq!(token_from_header("Token abc.def").ok(), Some("abc.def".to_string()));
    assert_eq!(token_from_header("Token ").ok(), Some("".to_string()));
    // only the first prefix is taken off
    assert_eq!(token_from_header("Token Token x").ok(), Some("Token x".to_string()));
}

#[test]
fn token_header_with_other_method() {
    assert!(matches!(token_from_header("Bearer abc"), Err(AppError::Unauthorized(_))));
    assert!(matches!(token_from_header("Token"), Err(AppError::Unauthorized(_))));
    assert!(matches!(token_from_header("token abc"), Err(AppError::Unauthorized(_))));
    assert!(matches!(token_from_header(""), Err(AppError::Unauthorized(_))));
}

#[test]
fn bearer_token_of_request() {
    assert!(matches!(bearer_token(None), Ok(None)));
    assert_eq!(bearer_token(Some("Token t1")).ok(), Some(Some("t1".to_string())));
    assert!(matches!(bearer_token(Some("Basic xyz")), Err(AppError::Unauthorized(_))));
}

#[test]
fn auth_admits() {
    assert!(Auth::required().admits(true));
    assert!(!Auth::required().admits(false));
    assert!(Auth::optional().admits(false));
    assert!(Auth::optional().admits(true));
}

#[test]
fn claims_expire_after_three_weeks() {
    assert_eq!(TOKEN_LIFETIME_SECS, 1_814_400);
    let c = Claims::issued_at(7, 1_600_000_000);
    assert_eq!(c.id, 7);
    assert_eq!(c.exp, 1_601_814_400);
    let a = AuthData::from_claims(&c, "tok");
    assert_eq!(a.user_id, 7);
    assert_eq!(a.token, "tok");
}

#[test]
fn checked_pass_outcomes() {
    let p = CheckedPass::from_check(true, true);
    assert!(p.is_valid && p.needs_update);
    let p = CheckedPass::from_check(false, true);
    assert!(!p.is_valid && !p.needs_update);
    let p = CheckedPass::from_check(true, false);
    assert!(p.is_valid && !p.needs_update);
    let p = CheckedPass::new(false, true);
    assert!(!p.is_valid && p.needs_update);
}

#[test]
fn password_hash_round_trip() {
    let hash = hash_password("correct horse battery").ok().unwrap();
    assert_ne!(hash, "correct horse battery");
    let ok = check_password(&hash, "correct horse battery").ok().unwrap();
    assert!(ok.is_valid);
    assert!(!ok.needs_update);
    let bad = check_password(&hash, "wrong horse battery").ok().unwrap();
    assert!(!bad.is_valid);
    assert!(!bad.needs_update);
}

#[test]
fn password_errors() {
    assert!(matches!(hash_password("short"), Err(AppError::PasswordError { .. })));
    assert!(matches!(check_password("not a phc string", "whatever1"), Err(AppError::PasswordError { .. })));
}

#[test]
fn stored_hash_with_many_lanes_is_refused() {
    let stored = "$argon2$lanes=128,len=128,mem=7,passes=3,ver=2$AAAAAAAAAAAAAAAAAAAAAA$AAAAAAAAAAAAAAAAAAAAAA";
    assert!(!lanes_fit(stored));
    assert!(matches!(check_password(stored, "whatever1"), Err(AppError::UnsupportedPasswordHash(_))));
}

#[test]
fn lanes_parameter_check() {
    assert!(lanes_fit("$argon2$lanes=4,mem=12$abc$def"));
    assert!(lanes_fit("$argon2$mem=12$abc$def"));
    assert!(lanes_fit(""));
    assert!(lanes_fit("$argon2$lanes=16,mem=12$abc$def"));
    assert!(lanes_fit("$argon2$lanes=128,mem=10$abc$def"));
    assert!(!lanes_fit("$argon2$lanes=128,mem=9$abc$def"));
    assert!(!lanes_fit("$argon2$mem=12,lanes=17,mem=7$abc"));
    assert!(!lanes_fit("$argon2$mem=2$abc"));
    assert!(!lanes_fit("$argon2$lanes=$abc"));
    assert!(!lanes_fit("lanes="));
    assert!(lanes_fit("lanes=9"));
    assert!(!lanes_fit("lanes=9x"));
    assert!(!lanes_fit("lanes=1000"));
    let hash = hash_password("correct horse battery").ok().unwrap();
    assert!(lanes_fit(&hash));
}

#[test]
fn password_hash_shape() {
    let a = hash_password("correct horse battery").ok().unwrap();
    let b = hash_password("correct horse battery").ok().unwrap();
    assert!(a.starts_with("$argon2$"));
    assert!(a.contains("ver=2,") || a.contains(",ver=2$") || a.contains("$ver=2"));
    assert_ne!(a, b);
}
