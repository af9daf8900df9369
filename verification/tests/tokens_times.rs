use terraria_console_backend::auth::{claims_from_fields, hash_password, verify_password, TokenFields, TokenManager};
use terraria_console_backend::auto_backup::{created_day, day_key, parse_save_created_at};
use terraria_console_backend::error::AppError;
use terraria_console_backend::users::{validate_user_update, UpdateUserRequest};
use terraria_console_backend::auth::Auth;

fn fields() -> TokenFields {
    TokenFields {
        user_id: Some("u1".to_string()),
        username: Some("alice".to_string()),
        role: Some("admin".to_string()),
        exp: Some(200),
        iat: Some(100),
    }
}

#[test]
fn claims_need_every_field() {
    let c = claims_from_fields(fields()).unwrap();
    assert_eq!(c.user_id, "u1");
    assert_eq!(c.username, "alice");
    assert_eq!(c.role, "admin");
    assert_eq!(c.exp, 200);
    assert_eq!(c.iat, 100);
    let mut f = fields();
    f.iat = None;
    assert!(matches!(claims_from_fields(f), Err(AppError::InvalidToken)));
    let mut f = fields();
    f.role = None;
    assert!(matches!(claims_from_fields(f), Err(AppError::InvalidToken)));
}

#[test]
fn a_generated_token_verifies_with_its_claims() {
    let tm = TokenManager::new("secret".to_string(), 24);
    let now = 1_900_000_000;
    let token = tm.generate("u1".to_string(), "alice".to_string(), "admin".to_string(), now).unwrap();
    assert_eq!(token.split('.').count(), 3);
    let again = tm.generate("u1".to_string(), "alice".to_string(), "admin".to_string(), now).unwrap();
    assert_eq!(token, again);
    let c = tm.verify(&token).unwrap();
    assert_eq!(c.user_id, "u1");
    assert_eq!(c.username, "alice");
    assert_eq!(c.role, "admin");
    assert_eq!(c.iat, now);
    assert_eq!(c.exp, now + 24 * 3600);
    let other = TokenManager::new("other".to_string(), 24);
    assert!(matches!(other.verify(&token), Err(AppError::InvalidToken)));
    assert!(matches!(tm.verify("not-a-token"), Err(AppError::InvalidToken)));
    let expired = tm.generate("u1".to_string(), "alice".to_string(), "admin".to_string(), 1000).unwrap();
    assert!(matches!(tm.verify(&expired), Err(AppError::InvalidToken)));
}

#[test]
fn a_hashed_password_verifies() {
    let h = hash_password("hunter2", b"0123456789abcdef").unwrap();
    assert_ne!(h, "hunter2");
    assert!(h.starts_with("$argon2id$"));
    assert!(verify_password("hunter2", &h));
    assert!(!verify_password("hunter3", &h));
    assert!(!verify_password("hunter2", "not a hash"));
    assert_eq!(hash_password("hunter2", b"0123456789abcdef").unwrap(), h);
}

#[test]
fn recorded_times_read() {
    assert_eq!(parse_save_created_at("2024-01-02T03:04:05Z"), Some(1_704_164_645));
    assert_eq!(parse_save_created_at("2024-01-02T03:04:05+01:00"), Some(1_704_164_645 - 3600));
    assert_eq!(parse_save_created_at("yesterday"), None);
    assert!(parse_save_created_at("2024-01-02 03:04:05").is_some());
    assert_eq!(created_day("garbage"), None);
    let day = created_day("2024-01-02T12:00:00Z").unwrap();
    assert!([20240101, 20240102, 20240103].contains(&day));
    let day = created_day("2024-03-01T00:00:00+00:00").unwrap();
    assert!([20240229, 20240301, 20240302].contains(&day));
    assert_eq!(day_key(2024, 1, 2), Some(20240102));
    assert_eq!(day_key(-1, 1, 2), Some(-9898));
    assert_eq!(day_key(2024, 100, 2), None);
}

#[test]
fn user_updates_need_an_admin_and_a_known_role() {
    let admin = Auth { user_id: "a".to_string(), username: "a".to_string(), role: "admin".to_string() };
    let op = Auth { user_id: "o".to_string(), username: "o".to_string(), role: "operator".to_string() };
    let req = |role: Option<&str>| UpdateUserRequest {
        username: None,
        password: None,
        role: role.map(|r| r.to_string()),
    };
    assert!(validate_user_update(&admin, &req(Some("viewer"))).is_ok());
    assert!(validate_user_update(&admin, &req(None)).is_ok());
    match validate_user_update(&admin, &req(Some("root"))) {
        Err(AppError::BadRequest(m)) => assert_eq!(m, "Invalid role. Expected one of: admin, operator, viewer"),
        other => panic!("unexpected {:?}", other),
    }
    match validate_user_update(&op, &req(None)) {
        Err(AppError::Forbidden(m)) => assert_eq!(m, "Only administrators can update users"),
        other => panic!("unexpected {:?}", other),
    }
}
