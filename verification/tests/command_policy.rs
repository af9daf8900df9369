use terraria_console_backend::auth::Auth;
use terraria_console_backend::command_policy::{
    can_execute_command, normalize_command, required_scope, requires_game_player_context,
    CommandScope,
};

fn auth(role: &str) -> Auth {
    Auth {
        user_id: "u1".to_string(),
        username: "tester".to_string(),
        role: role.to_string(),
    }
}

#[test]
fn blocks_in_game_only_commands_for_admins() {
    let admin = auth("admin");
    for command in ["/tp Bob", "/spawnmob zombie 1", "/spawnboss eye", "/grow"] {
        assert!(!can_execute_command(&admin, Some("u1"), command));
    }
}

#[test]
fn allows_operator_safe_remote_commands() {
    let operator = auth("operator");
    for command in [
        "/save",
        "/worldevent bloodmoon",
        "/give 29 Bob 1",
        "/heal Bob",
    ] {
        assert!(can_execute_command(&operator, Some("owner"), command));
    }
}

#[test]
fn keeps_owner_scope_for_unknown_slash_commands() {
    let owner = auth("viewer");
    let other = auth("viewer");
    assert!(can_execute_command(&owner, Some("u1"), "/custom"));
    assert!(!can_execute_command(&other, Some("owner"), "/custom"));
}

#[test]
fn normalizes_case_whitespace_and_aliases() {
    assert_eq!(normalize_command("  /TIME   Day  "), "/time day");
    assert_eq!(normalize_command("/time noon"), "/time");
    assert_eq!(normalize_command("/Slay bob"), "/kill");
    assert_eq!(normalize_command("/god"), "/godmode");
    assert_eq!(normalize_command("/g 1 x"), "/give");
    assert_eq!(normalize_command("/gamemode expert"), "/worldmode");
    assert_eq!(normalize_command("/group list"), "/group list");
    assert_eq!(normalize_command("/user   list"), "/user list");
    assert_eq!(normalize_command("   "), "");
    assert_eq!(normalize_command("say\thello"), "say");
}

#[test]
fn scopes_follow_the_table() {
    assert_eq!(required_scope("/who"), CommandScope::Viewer);
    assert_eq!(required_scope("/time"), CommandScope::Viewer);
    assert_eq!(required_scope("/time day"), CommandScope::Operator);
    assert_eq!(required_scope("/off"), CommandScope::Owner);
    assert_eq!(required_scope("/group list"), CommandScope::Admin);
    assert_eq!(required_scope("/hardmode"), CommandScope::Admin);
    assert_eq!(required_scope("/unknown"), CommandScope::Owner);
    assert_eq!(required_scope("save"), CommandScope::Admin);
    assert!(requires_game_player_context("/TP bob"));
    assert!(!requires_game_player_context("/save"));
}

#[test]
fn role_decides_scoped_commands() {
    let viewer = auth("viewer");
    let admin = auth("admin");
    assert!(can_execute_command(&viewer, None, "/who"));
    assert!(!can_execute_command(&viewer, None, "/save"));
    assert!(!can_execute_command(&viewer, None, "/off"));
    assert!(can_execute_command(&viewer, Some("u1"), "/off"));
    assert!(can_execute_command(&admin, None, "/off"));
    assert!(!can_execute_command(&auth("operator"), None, "/hardmode"));
    assert!(can_execute_command(&admin, None, "/hardmode"));
    assert!(!can_execute_command(&viewer, Some("u1"), "exit"));
    assert!(can_execute_command(&admin, None, "exit"));
}
