use terraria_console_backend::auth::Auth;
use terraria_console_backend::console::{
    console_input, console_token, lines_of, requested_lines, server_offline, sort_logs_newest_first,
    tail_lines, LogFile,
};
use terraria_console_backend::error::AppError;
use terraria_console_backend::ssc_config::{default_starting_inventory, SscConfig, SscInventoryItem, SscSettings};
use terraria_console_backend::users::{
    check_user_deletion, known_role, log_page, require_user_admin, username_taken, validate_new_user,
    CreateUserRequest, UpdateUserRequest,
};

fn auth(role: &str) -> Auth {
    Auth { user_id: "me".to_string(), username: "t".to_string(), role: role.to_string() }
}

fn req(u: &str, p: &str, r: &str) -> CreateUserRequest {
    CreateUserRequest { username: u.to_string(), password: p.to_string(), role: r.to_string() }
}

#[test]
fn creating_users() {
    assert!(validate_new_user(&auth("admin"), &req("bob", "pw", "viewer")).is_ok());
    match validate_new_user(&auth("operator"), &req("bob", "pw", "viewer")) {
        Err(AppError::Forbidden(m)) => assert_eq!(m, "Only administrators can create users"),
        other => panic!("unexpected {:?}", other),
    }
    match validate_new_user(&auth("admin"), &req("", "pw", "viewer")) {
        Err(AppError::BadRequest(m)) => assert_eq!(m, "Username and password cannot be empty"),
        other => panic!("unexpected {:?}", other),
    }
    match validate_new_user(&auth("admin"), &req("bob", "pw", "root")) {
        Err(AppError::BadRequest(m)) => assert_eq!(m, "Invalid role. Expected one of: admin, operator, viewer"),
        other => panic!("unexpected {:?}", other),
    }
    assert!(known_role("operator"));
    assert!(!known_role("Admin"));
    assert_eq!(username_taken().status(), 409);
}

#[test]
fn deleting_users() {
    assert!(check_user_deletion(&auth("admin"), "other").is_ok());
    match check_user_deletion(&auth("admin"), "me") {
        Err(AppError::BadRequest(m)) => assert_eq!(m, "Cannot delete your own user account"),
        other => panic!("unexpected {:?}", other),
    }
    match check_user_deletion(&auth("viewer"), "other") {
        Err(AppError::Forbidden(m)) => assert_eq!(m, "Only administrators can delete users"),
        other => panic!("unexpected {:?}", other),
    }
    assert!(require_user_admin(&auth("operator"), "Only administrators can list users").is_err());
    let u = UpdateUserRequest { username: None, password: Some("x".to_string()), role: Some("viewer".to_string()) };
    assert_eq!(u.field_count(), 2);
}

#[test]
fn log_paging() {
    assert_eq!(log_page(None, None), (100, 0));
    assert_eq!(log_page(Some("20"), Some("40")), (20, 40));
    assert_eq!(log_page(Some("abc"), Some("-5")), (100, -5));
}

#[test]
fn ssc_defaults_and_switch() {
    let item = SscInventoryItem::default();
    assert_eq!((item.net_id, item.prefix, item.stack, item.favorited), (0, 0, 1, false));
    let inv = default_starting_inventory();
    let ids: Vec<i32> = inv.iter().map(|i| i.net_id).collect();
    assert_eq!(ids, vec![-15, -13, -16]);
    let s = SscSettings::default();
    assert!(!s.enabled);
    assert_eq!(s.server_side_character_save, 5);
    assert_eq!(s.logon_discard_threshold, 250);
    assert_eq!(s.starting_health, 100);
    assert_eq!(s.starting_mana, 20);
    assert!(s.warn_players_about_bypass_permission);
    assert!(!s.keep_player_appearance);
    let mut c = SscConfig::default();
    assert!(!c.enabled());
    c.set_enabled(true);
    assert!(c.enabled());
    assert_eq!(c.settings.starting_health, 100);
    c.set_enabled(false);
    assert!(!c.enabled());
    let flat = SscConfig::from_flat(SscSettings { enabled: true, ..SscSettings::default() });
    assert!(flat.enabled());
    assert!(flat.extra.is_empty());
}

#[test]
fn console_connections_and_input() {
    assert_eq!(console_token(Some("t".to_string())).unwrap(), "t");
    match console_token(None) {
        Err(AppError::Unauthorized(m)) => assert_eq!(m, "Missing token"),
        other => panic!("unexpected {:?}", other),
    }
    assert_eq!(server_offline().message(), "Server not found or offline");
    assert_eq!(requested_lines(None), 200);
    assert_eq!(requested_lines(Some("50")), 50);
    assert_eq!(requested_lines(Some("-1")), 200);
    assert_eq!(console_input("{\"command\":\"save\"}", Some(Some("save".to_string()))), Some("save".to_string()));
    assert_eq!(console_input("{}", Some(None)), None);
    assert_eq!(console_input("/time day", None), Some("/time day".to_string()));
    assert_eq!(console_input("", None), None);
}

#[test]
fn lines_like_str_lines() {
    assert_eq!(lines_of("a\r\nb\n\nc"), vec!["a", "b", "", "c"]);
    assert_eq!(lines_of("a\n"), vec!["a"]);
    assert!(lines_of("").is_empty());
    assert_eq!(lines_of("x\r"), vec!["x\r"]);
    for s in ["a\r\nb\n\nc", "a\n", "", "x\r", "\n\n", "one"] {
        let expected: Vec<String> = s.lines().map(String::from).collect();
        assert_eq!(lines_of(s), expected);
    }
}

#[test]
fn recent_lines_from_files() {
    let contents = vec!["1\n2\n3\n".to_string(), "4\n5".to_string()];
    assert_eq!(tail_lines(&contents, 2), vec!["4", "5"]);
    assert_eq!(tail_lines(&contents, 10), vec!["1", "2", "3", "4", "5"]);
    assert_eq!(tail_lines(&contents, 0), vec!["5"]);
    assert!(tail_lines(&Vec::new(), 0).is_empty());
}

#[test]
fn log_files_newest_first() {
    let files = vec![
        LogFile { path: "a".to_string(), modified: Some(5) },
        LogFile { path: "b".to_string(), modified: None },
        LogFile { path: "c".to_string(), modified: Some(9) },
        LogFile { path: "d".to_string(), modified: Some(7) },
    ];
    let sorted = sort_logs_newest_first(files);
    let paths: Vec<&str> = sorted.iter().map(|f| f.path.as_str()).collect();
    assert_eq!(paths, vec!["c", "d", "a", "b"]);
}
