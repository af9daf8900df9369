use terraria_console_backend::auth::Auth;
use terraria_console_backend::error::AppError;
use terraria_console_backend::tshock_admin::{
    add_permission_to_list, character_backup_dir, character_backup_name, character_not_found,
    character_summary, check_group_deletion, group_exists_error, group_not_found, is_commands_column,
    listed_permissions, missing_database_error, no_permission_storage_error, parse_commands,
    permission_missing, permission_storage, permission_table_name, remove_permission_from_list,
    require_admin, require_operator, required_field, serialize_commands, tshock_db_path, user_moved_message,
    user_not_found, PermissionStorage,
};

fn auth(role: &str) -> Auth {
    Auth { user_id: "u1".to_string(), username: "t".to_string(), role: role.to_string() }
}

fn strings(v: &[&str]) -> Vec<String> {
    v.iter().map(|s| s.to_string()).collect()
}

#[test]
fn access_checks() {
    assert!(require_admin(&auth("admin"), "no").is_ok());
    match require_admin(&auth("operator"), "Only admins can manage permissions") {
        Err(AppError::Forbidden(m)) => assert_eq!(m, "Only admins can manage permissions"),
        other => panic!("unexpected {:?}", other),
    }
    assert!(require_operator(&auth("operator"), "no").is_ok());
    assert!(require_operator(&auth("viewer"), "no").is_err());
    assert_eq!(required_field(Some("x".to_string()), "group").unwrap(), "x");
    match required_field(None, "group") {
        Err(AppError::BadRequest(m)) => assert_eq!(m, "Missing 'group' field"),
        other => panic!("unexpected {:?}", other),
    }
}

#[test]
fn database_location_and_storage() {
    assert_eq!(tshock_db_path("./data", "s1"), "./data/servers/s1/tshock/tshock.sqlite");
    assert_eq!(
        missing_database_error().message(),
        "TShock database not found. Start the server at least once to create it."
    );
    assert_eq!(permission_storage(true, true, true), PermissionStorage::GroupPermissions);
    assert_eq!(permission_storage(false, true, true), PermissionStorage::Permissions);
    assert_eq!(permission_storage(false, false, true), PermissionStorage::CommandsColumn);
    assert_eq!(permission_storage(false, false, false), PermissionStorage::Unsupported);
    assert_eq!(permission_table_name(PermissionStorage::GroupPermissions).as_deref(), Some("GroupPermissions"));
    assert_eq!(permission_table_name(PermissionStorage::Permissions).as_deref(), Some("Permissions"));
    assert_eq!(permission_table_name(PermissionStorage::CommandsColumn), None);
    assert!(is_commands_column("Commands"));
    assert!(is_commands_column("COMMANDS"));
    assert!(!is_commands_column("Command"));
    assert_eq!(no_permission_storage_error().message(), "Database error: No supported TShock permission storage found");
}

#[test]
fn commands_column_parsing() {
    assert_eq!(parse_commands(" tshock.a, ,tshock.b ,,"), strings(&["tshock.a", "tshock.b"]));
    assert!(parse_commands("").is_empty());
    assert_eq!(serialize_commands(&strings(&["a", "b", "c"])), "a,b,c");
    assert_eq!(serialize_commands(&Vec::new()), "");
    let perms = strings(&["tshock.kick", "tshock.ban"]);
    assert_eq!(parse_commands(&serialize_commands(&perms)), perms);
    assert_eq!(listed_permissions("z,a, m"), strings(&["a", "m", "z"]));
}

#[test]
fn adding_a_permission_sorts_and_dedups() {
    let perms = strings(&["tshock.z", "tshock.a", "tshock.a"]);
    let r = add_permission_to_list(&perms, "tshock.m", "g").unwrap();
    assert_eq!(r, strings(&["tshock.a", "tshock.m", "tshock.z"]));
    match add_permission_to_list(&perms, "tshock.z", "vip") {
        Err(AppError::Conflict(m)) => assert_eq!(m, "Permission 'tshock.z' already exists for group 'vip'"),
        other => panic!("unexpected {:?}", other),
    }
}

#[test]
fn removing_a_permission() {
    let perms = strings(&["a", "b", "a", "c"]);
    assert_eq!(remove_permission_from_list(&perms, "a"), Some(strings(&["b", "c"])));
    assert_eq!(remove_permission_from_list(&perms, "x"), None);
    let added = add_permission_to_list(&strings(&["b", "a"]), "c", "g").unwrap();
    assert_eq!(remove_permission_from_list(&added, "c"), Some(strings(&["a", "b"])));
    assert_eq!(
        permission_missing("x", "g").message(),
        "Permission 'x' not found for group 'g'"
    );
}

#[test]
fn deleting_groups() {
    for g in ["superadmin", "Owner", "GUEST", "default"] {
        match check_group_deletion(g, 0) {
            Err(AppError::BadRequest(m)) => assert_eq!(m, format!("Cannot delete built-in group '{}'", g)),
            other => panic!("unexpected {:?}", other),
        }
    }
    match check_group_deletion("vip", 3) {
        Err(AppError::BadRequest(m)) => {
            assert_eq!(m, "Cannot delete group 'vip': 3 users still belong to it. Move them first.")
        },
        other => panic!("unexpected {:?}", other),
    }
    assert!(check_group_deletion("vip", 0).is_ok());
    assert_eq!(group_exists_error("vip").message(), "Group 'vip' already exists");
    assert_eq!(group_not_found("vip").status(), 404);
    assert_eq!(user_not_found("bob").message(), "TShock user 'bob' not found");
    assert_eq!(user_moved_message("bob", "vip"), "User 'bob' moved to group 'vip'");
}

#[test]
fn ssc_character_defaults() {
    let c = character_summary(7, None, None, Some(5), None, None);
    assert_eq!(c.account, 7);
    assert_eq!(c.health, 0);
    assert_eq!(c.max_health, 100);
    assert_eq!(c.mana, 5);
    assert_eq!(c.max_mana, 20);
    assert_eq!(c.quests_completed, 0);
    assert!(c.username.is_none());
    assert_eq!(character_not_found(42).message(), "SSC character with account 42 not found");
    assert_eq!(character_backup_dir("./data"), "./data/saves/ssc-backups");
    assert_eq!(character_backup_name("s1", "20240101_000000"), "ssc-backup_s1_20240101_000000.json");
}
