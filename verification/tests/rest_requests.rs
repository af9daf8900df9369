use terraria_console_backend::config::{
    default_archive_after_days, default_archive_daily_enabled, default_archive_hour, default_backup_enabled,
    default_backup_interval_minutes, default_backup_ssc, default_local_retention_days,
    default_max_backups_per_server, default_oss_prefix, default_oss_provider,
};
use terraria_console_backend::error::AppError;
use terraria_console_backend::item_catalog::empty_catalog_error;
use terraria_console_backend::rest_api::{
    ban_create_request, ban_destroy_request, ban_list_request, ban_read_request, group_create_request,
    group_destroy_request, group_list_request, group_read_request, group_update_request, player_ban_request,
    player_kick_request, player_kill_request, player_list_request, player_mute_request, player_read_request,
    player_unmute_request, server_broadcast_request, server_motd_request, server_rawcmd_request,
    server_reload_request, server_restart_request, server_rules_request, user_active_list_request,
    user_destroy_request, user_list_request, user_read_request, user_update_request, world_autosave_request,
    world_bloodmoon_request, world_meteor_request, world_read_request, world_save_request, HttpMethod, RestRequest,
};
use terraria_console_backend::saves::{is_world_backup_name, is_world_file_name};
use terraria_console_backend::tshock_admin::already_granted;

fn pairs(r: &RestRequest) -> Vec<(&str, &str)> {
    r.params.iter().map(|(k, v)| (k.as_str(), v.as_str())).collect()
}

fn check(r: RestRequest, method: HttpMethod, path: &str, params: &[(&str, &str)]) {
    assert_eq!(r.method, method);
    assert_eq!(r.path, path);
    assert_eq!(pairs(&r), params.to_vec());
}

#[test]
fn server_requests() {
    check(server_broadcast_request("hello"), HttpMethod::Post, "/v2/server/broadcast", &[("msg", "hello")]);
    check(server_reload_request(), HttpMethod::Post, "/v3/server/reload", &[]);
    check(server_restart_request(), HttpMethod::Get, "/v3/server/restart", &[]);
    check(server_rawcmd_request("/time noon"), HttpMethod::Post, "/v3/server/rawcmd", &[("cmd", "/time noon")]);
    check(server_motd_request(), HttpMethod::Get, "/v3/server/motd", &[]);
    check(server_rules_request(), HttpMethod::Get, "/v3/server/rules", &[]);
}

#[test]
fn player_requests() {
    check(player_list_request(), HttpMethod::Get, "/v2/players/list", &[]);
    check(player_read_request("Bob"), HttpMethod::Get, "/v4/players/read", &[("player", "Bob")]);
    check(player_kick_request("Bob", None), HttpMethod::Post, "/v2/players/kick", &[("player", "Bob")]);
    check(
        player_ban_request("Bob", Some("grief")),
        HttpMethod::Post,
        "/v2/players/ban",
        &[("player", "Bob"), ("reason", "grief")],
    );
    check(player_kill_request("Bob"), HttpMethod::Post, "/v2/players/kill", &[("player", "Bob")]);
    check(player_mute_request("Bob"), HttpMethod::Post, "/v2/players/mute", &[("player", "Bob")]);
    check(player_unmute_request("Bob"), HttpMethod::Post, "/v2/players/unmute", &[("player", "Bob")]);
}

#[test]
fn user_requests() {
    check(user_list_request(), HttpMethod::Get, "/v2/users/list", &[]);
    check(user_active_list_request(), HttpMethod::Get, "/v2/users/activelist", &[]);
    check(user_read_request("amy"), HttpMethod::Get, "/v2/users/read", &[("user", "amy"), ("type", "name")]);
    check(
        user_update_request("amy", Some("pw"), Some("vip")),
        HttpMethod::Post,
        "/v2/users/update",
        &[("user", "amy"), ("type", "name"), ("password", "pw"), ("group", "vip")],
    );
    check(
        user_update_request("amy", None, Some("vip")),
        HttpMethod::Post,
        "/v2/users/update",
        &[("user", "amy"), ("type", "name"), ("group", "vip")],
    );
    check(user_destroy_request("amy"), HttpMethod::Post, "/v2/users/destroy", &[("user", "amy"), ("type", "name")]);
}

#[test]
fn group_requests() {
    check(group_list_request(), HttpMethod::Get, "/v2/groups/list", &[]);
    check(group_read_request("vip"), HttpMethod::Get, "/v2/groups/read", &[("group", "vip")]);
    check(
        group_create_request("vip", Some("default"), Some("tshock.tp")),
        HttpMethod::Post,
        "/v2/groups/create",
        &[("group", "vip"), ("parent", "default"), ("permissions", "tshock.tp")],
    );
    check(
        group_update_request("vip", None, Some("a,b")),
        HttpMethod::Post,
        "/v2/groups/update",
        &[("group", "vip"), ("permissions", "a,b")],
    );
    check(group_destroy_request("vip"), HttpMethod::Post, "/v2/groups/destroy", &[("group", "vip")]);
}

#[test]
fn ban_and_world_requests() {
    check(ban_list_request(), HttpMethod::Get, "/v3/bans/list", &[]);
    check(ban_read_request("7"), HttpMethod::Get, "/v3/bans/read", &[("ticketNumber", "7")]);
    check(
        ban_create_request("acc:Bob", Some("spam"), Some("1d")),
        HttpMethod::Post,
        "/v3/bans/create",
        &[("identifier", "acc:Bob"), ("reason", "spam"), ("end", "1d")],
    );
    check(
        ban_destroy_request("7"),
        HttpMethod::Post,
        "/v3/bans/destroy",
        &[("ticketNumber", "7"), ("fullDelete", "true")],
    );
    check(world_read_request(), HttpMethod::Get, "/world/read", &[]);
    check(world_save_request(), HttpMethod::Post, "/v2/world/save", &[]);
    check(world_bloodmoon_request(false), HttpMethod::Post, "/v3/world/bloodmoon", &[("state", "false")]);
    check(world_meteor_request(), HttpMethod::Post, "/world/meteor", &[]);
    check(world_autosave_request(true), HttpMethod::Post, "/v3/world/autosave", &[("state", "true")]);
}

#[test]
fn backup_defaults() {
    assert!(default_backup_enabled());
    assert_eq!(default_backup_interval_minutes(), 60);
    assert_eq!(default_max_backups_per_server(), 0);
    assert_eq!(default_local_retention_days(), 30);
    assert!(default_backup_ssc());
    assert!(default_archive_daily_enabled());
    assert_eq!(default_archive_hour(), 1);
    assert_eq!(default_archive_after_days(), 2);
    assert_eq!(default_oss_provider(), "nas");
    assert_eq!(default_oss_prefix(), "terraria-panel/saves");
}

#[test]
fn world_names_and_messages() {
    assert!(is_world_file_name("Forest.wld"));
    assert!(is_world_file_name("Forest.wld.bak"));
    assert!(!is_world_file_name("Forest.zip"));
    assert!(is_world_backup_name("a_backup_1.bak"));
    assert!(!is_world_backup_name("notes.txt"));
    match already_granted("tshock.tp", "vip") {
        AppError::Conflict(m) => assert_eq!(m, "Permission 'tshock.tp' already exists for group 'vip'"),
        other => panic!("unexpected {:?}", other),
    }
    match empty_catalog_error() {
        AppError::ProcessError(m) => assert_eq!(m, "Downloaded Terraria item catalog is empty"),
        other => panic!("unexpected {:?}", other),
    }
}
