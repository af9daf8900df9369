use terraria_console_backend::auth::{
    bearer_token, check_registration, invalid_credentials, old_password_incorrect, registered_role, Auth,
    TokenManager,
};
use terraria_console_backend::backup_policy::{
    global_policy_path, resolve_effective_backup_policy, server_panel_config_path, BackupPolicyOverride,
    GlobalBackupPolicy,
};
use terraria_console_backend::config::{BackupConfig, Config, OssBackupConfig};
use terraria_console_backend::error::AppError;
use terraria_console_backend::models::{
    assign_port, process_status, CreateServerRequest, ServerDetail, ServerStatus, UpdateServerRequest,
};
use terraria_console_backend::names::{name_le_exec, sort_by_name};
use terraria_console_backend::paths::join;
use terraria_console_backend::text::{
    i64_text, last_path_segment, parse_i32, parse_i64, parse_u32, replace_str, str_trim_end_matches,
    str_trim_start_matches, to_lowercase, trimmed, u64_text,
};

fn auth(role: &str) -> Auth {
    Auth { user_id: "u1".to_string(), username: "tester".to_string(), role: role.to_string() }
}

#[test]
fn text_trimming_and_matching() {
    assert_eq!(trimmed("  a b \t\n"), "a b");
    assert_eq!(trimmed("\u{3000}x\u{a0}"), "x");
    assert_eq!(str_trim_end_matches("a///", "/"), "a");
    assert_eq!(str_trim_start_matches("//a/", "/"), "a/");
    assert_eq!(replace_str("a-b-c", "-", "+"), "a+b+c");
    assert_eq!(replace_str("aaa", "aa", "b"), "ba");
    assert_eq!(last_path_segment("dir/sub/file.wld"), "file.wld");
    assert_eq!(last_path_segment("plain"), "plain");
}

#[test]
fn lowercase_goes_through_unicode() {
    assert_eq!(to_lowercase("ÄBC"), "äbc");
    assert_eq!(to_lowercase("TShock"), "tshock");
}

#[test]
fn numbers_to_text_and_back() {
    assert_eq!(u64_text(0), "0");
    assert_eq!(u64_text(18446744073709551615), "18446744073709551615");
    assert_eq!(i64_text(-42), "-42");
    assert_eq!(i64_text(i64::MIN), "-9223372036854775808");
    assert_eq!(parse_u32("+17"), Some(17));
    assert_eq!(parse_u32("4294967296"), None);
    assert_eq!(parse_u32(""), None);
    assert_eq!(parse_i32("-2147483648"), Some(i32::MIN));
    assert_eq!(parse_i32("2147483648"), None);
    assert_eq!(parse_i32("12a"), None);
    assert_eq!(parse_i64("-9223372036854775808"), Some(i64::MIN));
    assert_eq!(parse_i64("9223372036854775807"), Some(i64::MAX));
    assert_eq!(parse_i64(" 1"), None);
}

#[test]
fn names_sort_in_code_point_order() {
    assert!(name_le_exec("a", "b"));
    assert!(name_le_exec("ab", "abc"));
    assert!(!name_le_exec("abc", "ab"));
    assert!(name_le_exec("Z", "a"));
    assert!(name_le_exec("x", "x"));
    let v = vec!["s_20240102".to_string(), "s_20231231".to_string(), "s_20240101".to_string()];
    assert_eq!(sort_by_name(&v), vec!["s_20231231", "s_20240101", "s_20240102"]);
}

#[test]
fn roles_of_auth() {
    assert!(auth("admin").is_admin());
    assert!(auth("admin").is_operator_or_admin());
    assert!(!auth("operator").is_admin());
    assert!(auth("operator").is_operator_or_admin());
    assert!(!auth("viewer").is_operator_or_admin());
    assert!(!auth("Admin").is_admin());
}

#[test]
fn token_claims_expire_after_the_configured_hours() {
    let tm = TokenManager::new("s3cret".to_string(), 24);
    assert_eq!(tm.secret(), "s3cret");
    let c = tm.claims_at("id".to_string(), "bob".to_string(), "viewer".to_string(), 1_700_000_000);
    assert_eq!(c.iat, 1_700_000_000);
    assert_eq!(c.exp, 1_700_000_000 + 24 * 3600);
    assert_eq!(c.username, "bob");
    let a = Auth::from_claims(c);
    assert_eq!(a.role, "viewer");
    assert_eq!(a.user_id, "id");
}

#[test]
fn bearer_header_parsing() {
    assert_eq!(bearer_token(Some("Bearer abc.def")).unwrap(), "abc.def");
    match bearer_token(None) {
        Err(AppError::Unauthorized(m)) => assert_eq!(m, "Missing authorization header"),
        other => panic!("unexpected {:?}", other),
    }
    match bearer_token(Some("Basic xyz")) {
        Err(AppError::Unauthorized(m)) => assert_eq!(m, "Invalid authorization format"),
        other => panic!("unexpected {:?}", other),
    }
}

#[test]
fn registration_rules() {
    assert!(check_registration(&auth("admin"), "new", "pw").is_ok());
    match check_registration(&auth("operator"), "new", "pw") {
        Err(AppError::Forbidden(m)) => assert_eq!(m, "Only administrators can register new users"),
        other => panic!("unexpected {:?}", other),
    }
    match check_registration(&auth("admin"), "", "pw") {
        Err(AppError::BadRequest(m)) => assert_eq!(m, "Username and password cannot be empty"),
        other => panic!("unexpected {:?}", other),
    }
    assert_eq!(registered_role(), "viewer");
    assert_eq!(invalid_credentials().message(), "Invalid username or password");
    assert_eq!(old_password_incorrect().status(), 401);
}

#[test]
fn error_status_and_messages() {
    assert_eq!(AppError::BadRequest("x".to_string()).status(), 400);
    assert_eq!(AppError::Unauthorized("x".to_string()).status(), 401);
    assert_eq!(AppError::Forbidden("x".to_string()).status(), 403);
    assert_eq!(AppError::NotFound("x".to_string()).status(), 404);
    assert_eq!(AppError::Conflict("x".to_string()).status(), 409);
    assert_eq!(AppError::InvalidToken.status(), 401);
    assert_eq!(AppError::InternalServerError("x".to_string()).status(), 500);
    assert_eq!(AppError::DatabaseError("x".to_string()).status(), 500);
    assert_eq!(AppError::FileError("x".to_string()).status(), 500);
    assert_eq!(AppError::ProcessError("x".to_string()).status(), 500);
    assert_eq!(AppError::InvalidToken.message(), "Invalid or expired token");
    assert_eq!(AppError::DatabaseError("boom".to_string()).message(), "Database error: boom");
    assert_eq!(AppError::FileError("boom".to_string()).message(), "File error: boom");
    assert_eq!(AppError::ProcessError("boom".to_string()).message(), "Process error: boom");
    assert_eq!(AppError::Conflict("dup".to_string()).message(), "dup");
}

#[test]
fn server_status_names_round_trip() {
    for s in [ServerStatus::Stopped, ServerStatus::Starting, ServerStatus::Running, ServerStatus::Stopping, ServerStatus::Error] {
        let name = s.as_str();
        assert_eq!(ServerStatus::from_str(name).as_str(), name);
    }
    assert_eq!(ServerStatus::Running.as_str(), "running");
    assert_eq!(ServerStatus::from_str("bogus").as_str(), "stopped");
    assert_eq!(process_status(true).as_str(), "running");
    assert_eq!(process_status(false).as_str(), "stopped");
}

#[test]
fn creating_a_server_fills_defaults() {
    let req = CreateServerRequest {
        name: "Main".to_string(),
        port: None,
        tshock_version: "v5.2.0".to_string(),
        world_name: Some("World".to_string()),
        password: None,
        max_players: None,
        auto_start: None,
    };
    let s = req.into_server("id1".to_string(), "now".to_string(), "u1".to_string(), 7777, 7800, &vec![]);
    assert_eq!(s.port, 7777);
    assert_eq!(s.max_players, 8);
    assert!(!s.auto_start);
    assert_eq!(s.status, "stopped");
    assert_eq!(s.created_by.as_deref(), Some("u1"));
    assert_eq!(s.created_at, "now");
    assert_eq!(s.updated_at, "now");
    let d = ServerDetail::of(s);
    assert_eq!(d.player_count, 0);
    assert_eq!(d.uptime_seconds, 0);
}

#[test]
fn updating_a_server_changes_given_fields() {
    let base = CreateServerRequest {
        name: "Main".to_string(),
        port: Some(7778),
        tshock_version: "v5".to_string(),
        world_name: None,
        password: None,
        max_players: Some(16),
        auto_start: Some(true),
    }
    .into_server("id".to_string(), "t0".to_string(), "u".to_string(), 8000, 8100, &vec![]);
    assert_eq!(base.port, 7778);
    let upd = UpdateServerRequest {
        name: Some("Renamed".to_string()),
        port: None,
        password: None,
        max_players: Some(4),
        auto_start: None,
        world_name: None,
        tshock_version: None,
    };
    assert_eq!(upd.changes(), 2);
    let s = upd.apply_to(base, "t1".to_string());
    assert_eq!(s.name, "Renamed");
    assert_eq!(s.port, 7778);
    assert_eq!(s.max_players, 4);
    assert!(s.auto_start);
    assert_eq!(s.updated_at, "t1");
    assert_eq!(s.created_at, "t0");
}

#[test]
fn joining_paths_like_unix() {
    assert_eq!(join("data", "servers"), "data/servers");
    assert_eq!(join("data/", "servers"), "data/servers");
    assert_eq!(join("", "servers"), "servers");
    assert_eq!(join("data", "/abs"), "/abs");
}

#[test]
fn default_configuration() {
    let c = Config::default();
    assert_eq!(c.server.port, 3000);
    assert_eq!(c.server.data_dir, "./data");
    assert_eq!(c.auth.jwt_expire_hours, 24);
    assert_eq!(c.backup.interval_minutes, 60);
    assert_eq!(c.backup.local_retention_days, 30);
    assert!(c.backup.archive_daily_enabled);
    assert_eq!(c.backup.archive_hour, 1);
    assert_eq!(c.backup.archive_after_days, 2);
    let o = OssBackupConfig::default();
    assert!(!o.enabled);
    assert_eq!(o.provider, "nas");
    assert_eq!(o.prefix, "terraria-panel/saves");
}

fn backup_config() -> BackupConfig {
    BackupConfig {
        enabled: true,
        interval_minutes: 30,
        max_backups_per_server: 5,
        local_retention_days: 7,
        backup_ssc: true,
        archive_daily_enabled: false,
        archive_hour: 3,
        archive_after_days: 1,
        oss: OssBackupConfig::default(),
    }
}

#[test]
fn override_replaces_only_what_it_sets() {
    let g = GlobalBackupPolicy::from_backup_config(&backup_config());
    let none = resolve_effective_backup_policy(&g, None);
    assert_eq!(none.interval_minutes, 30);
    assert_eq!(none.max_backups_per_server, 5);
    let o = BackupPolicyOverride {
        enabled: Some(false),
        interval_minutes: Some(10),
        max_backups_per_server: None,
        local_retention_days: None,
        backup_ssc: None,
    };
    let e = resolve_effective_backup_policy(&g, Some(&o));
    assert!(!e.enabled);
    assert_eq!(e.interval_minutes, 10);
    assert_eq!(e.max_backups_per_server, 5);
    assert_eq!(e.local_retention_days, 7);
    assert_eq!(e.archive_hour, 3);
}

#[test]
fn policy_paths() {
    assert_eq!(global_policy_path("./data"), "./data/settings/backup-policy.json");
    assert_eq!(server_panel_config_path("./data", "s1"), "./data/servers/s1/tshock/panel-config.json");
}

#[test]
fn new_servers_get_a_port_of_the_range() {
    let req = |port: Option<u16>| CreateServerRequest {
        name: "S".to_string(),
        port,
        tshock_version: "v5".to_string(),
        world_name: None,
        password: None,
        max_players: None,
        auto_start: None,
    };
    let s = req(None).into_server("a".to_string(), "t".to_string(), "u".to_string(), 8000, 8100, &vec![8000, 8001, 8003]);
    assert_eq!(s.port, 8002);
    let s = req(Some(7777)).into_server("b".to_string(), "t".to_string(), "u".to_string(), 8000, 8100, &vec![]);
    assert_eq!(s.port, 7777);
    let s = req(None).into_server("c".to_string(), "t".to_string(), "u".to_string(), 8000, 8001, &vec![8001, 8000]);
    assert_eq!(s.port, 8000);
    assert_eq!(assign_port(None, 9, 9, &vec![]), 9);
    assert_eq!(assign_port(None, 10, 9, &vec![]), 10);
    assert_eq!(assign_port(Some(5), 10, 9, &vec![5]), 5);
}
