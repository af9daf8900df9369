use terraria_console_backend::error::AppError;
use terraria_console_backend::telegram::{
    action_done_reply, chat_allowed, command_action, console_command_parts, find_server, help_text,
    is_command_text, list_servers_text, normalize_command_token, required_server_arg, server_status_text,
    split_command, split_first_arg, startup_decision, telegram_auth, telegram_url, truncate_message,
    unknown_command_reply, BotAction, BotStartup, TelegramConfig, TelegramServer,
};
use terraria_console_backend::version::{
    available_versions, sort_local_versions, GitHubRelease, LocalVersion, apply_mirror, detect_common_prefix, detect_format_from_url, display_name_for, entry_relative_path,
    is_self_contained, local_version_entry, page_params, page_window, pick_best_asset, release_entry,
    version_dir, ArchiveFormat, GitHubAsset,
};

fn tg(enabled: bool, token: &str, allowed: Vec<i64>, admins: Vec<i64>) -> TelegramConfig {
    TelegramConfig {
        enabled,
        bot_token: token.to_string(),
        allowed_chat_ids: allowed,
        admin_chat_ids: admins,
        poll_timeout_seconds: 30,
        retry_seconds: 5,
    }
}

fn srv(id: &str, name: &str) -> TelegramServer {
    TelegramServer { id: id.to_string(), name: name.to_string(), status: "stopped".to_string(), port: 7777 }
}

#[test]
fn bot_startup_conditions() {
    assert_eq!(startup_decision(&tg(false, "t", vec![1], vec![])), BotStartup::Disabled);
    assert_eq!(startup_decision(&tg(true, "  ", vec![1], vec![])), BotStartup::MissingToken);
    assert_eq!(startup_decision(&tg(true, "t", vec![], vec![])), BotStartup::NoAllowedChats);
    assert_eq!(startup_decision(&tg(true, "t", vec![], vec![9])), BotStartup::Start);
}

#[test]
fn bot_chats_and_identity() {
    let c = tg(true, " tok ", vec![1], vec![2]);
    assert!(chat_allowed(&c, 1));
    assert!(chat_allowed(&c, 2));
    assert!(!chat_allowed(&c, 3));
    let a = telegram_auth(&c, 2);
    assert_eq!(a.role, "admin");
    assert_eq!(a.user_id, "telegram:2");
    assert_eq!(telegram_auth(&c, -5).role, "operator");
    assert_eq!(telegram_auth(&c, -5).username, "telegram:-5");
    assert_eq!(telegram_url(&c, "getUpdates"), "https://api.telegram.org/bottok/getUpdates");
}

#[test]
fn bot_command_parsing() {
    assert_eq!(split_first_arg("  a  b c "), Some(("a".to_string(), "b c".to_string())));
    assert_eq!(split_first_arg("only"), Some(("only".to_string(), String::new())));
    assert_eq!(split_first_arg("   "), None);
    assert_eq!(normalize_command_token("/Status@MyBot"), "status");
    assert_eq!(normalize_command_token("//HELP"), "help");
    assert_eq!(split_command("/cmd@bot survival /save"), ("cmd".to_string(), "survival /save".to_string()));
    assert_eq!(split_command("/servers"), ("servers".to_string(), String::new()));
    assert!(is_command_text("  /help"));
    assert!(!is_command_text("help"));
    assert_eq!(required_server_arg("main extra").unwrap(), "main");
    assert_eq!(required_server_arg(" ").unwrap_err(), "用法：/status <server_id|name>");
    assert_eq!(
        console_command_parts("main /save").unwrap(),
        ("main".to_string(), "/save".to_string())
    );
    assert_eq!(
        console_command_parts("").unwrap_err(),
        "用法：/cmd <server_id|name> <command>\n示例：/cmd survival /save"
    );
    assert_eq!(console_command_parts("main").unwrap_err(), "命令不能为空。示例：/cmd survival /save");
}

#[test]
fn bot_actions() {
    assert!(matches!(command_action("/start"), BotAction::Help));
    assert!(matches!(command_action("/list"), BotAction::ListServers));
    match command_action("/status main") {
        BotAction::Status(a) => assert_eq!(a, "main"),
        other => panic!("unexpected {:?}", other),
    }
    assert!(matches!(command_action("/startserver x"), BotAction::StartServer(_)));
    assert!(matches!(command_action("/stop_server x"), BotAction::StopServer(_)));
    assert!(matches!(command_action("/restartserver x"), BotAction::RestartServer(_)));
    match command_action("/exec main /save") {
        BotAction::Console(a) => assert_eq!(a, "main /save"),
        other => panic!("unexpected {:?}", other),
    }
    match command_action("/Foo") {
        BotAction::Unknown(c) => assert_eq!(c, "foo"),
        other => panic!("unexpected {:?}", other),
    }
    assert_eq!(unknown_command_reply("foo"), format!("未知命令：/foo\n\n{}", help_text()));
    assert!(help_text().starts_with("Terraria Panel Telegram 管理命令："));
}

#[test]
fn bot_replies() {
    let s = srv("id1", "Main");
    assert_eq!(action_done_reply("启动", &s), "启动命令已执行：Main (id1)");
    assert_eq!(list_servers_text(&vec![], &vec![]), "暂无服务器。");
    assert_eq!(
        list_servers_text(&vec![s.clone(), srv("id2", "Other")], &vec![true, false]),
        "服务器列表：\n- Main (id1)：stopped，进程运行，端口 7777\n- Other (id2)：stopped，进程停止，端口 7777"
    );
    assert_eq!(server_status_text(&s, false), "Main (id1)\n状态：stopped\n进程：未运行\n端口：7777");
    let long = "x".repeat(4000);
    let t = truncate_message(&long);
    assert_eq!(t.chars().count(), 3904);
    assert!(t.ends_with("\n..."));
    assert_eq!(truncate_message("short"), "short");
}

#[test]
fn bot_server_lookup() {
    let servers = vec![srv("a1", "Survival"), srv("b2", "Survival Hard"), srv("c3", "Creative")];
    assert_eq!(find_server(&servers, "c3").unwrap().name, "Creative");
    assert_eq!(find_server(&servers, "survival").unwrap().id, "a1");
    assert_eq!(find_server(&servers, "crea").unwrap().id, "c3");
    match find_server(&servers, "surv") {
        Err(AppError::Conflict(_)) => {},
        other => panic!("unexpected {:?}", other),
    }
    match find_server(&servers, "zzz") {
        Err(AppError::NotFound(m)) => assert_eq!(m, "zzz"),
        other => panic!("unexpected {:?}", other),
    }
    match find_server(&servers, "  ") {
        Err(AppError::BadRequest(_)) => {},
        other => panic!("unexpected {:?}", other),
    }
}

fn asset(name: &str) -> GitHubAsset {
    GitHubAsset { name: name.to_string(), browser_download_url: format!("https://github.com/x/{}", name), size: 1 }
}

#[test]
fn archive_formats() {
    assert_eq!(ArchiveFormat::from_filename("a.ZIP"), Some(ArchiveFormat::Zip));
    assert_eq!(ArchiveFormat::from_filename("a.tar.gz"), Some(ArchiveFormat::TarGz));
    assert_eq!(ArchiveFormat::from_filename("a.tgz"), Some(ArchiveFormat::TarGz));
    assert_eq!(ArchiveFormat::from_filename("a.tar"), Some(ArchiveFormat::Tar));
    assert_eq!(ArchiveFormat::from_filename("a.7z"), None);
    assert_eq!(ArchiveFormat::TarGz.temp_filename(), "release.tar.gz");
    assert_eq!(detect_format_from_url("https://h/x/TShock.tar"), ArchiveFormat::Tar);
    assert_eq!(detect_format_from_url("https://h/x/unknown"), ArchiveFormat::Zip);
}

#[test]
fn mirrors() {
    let url = "https://github.com/Pryaxis/TShock/releases/download/v5/a.zip";
    assert_eq!(apply_mirror(url, ""), url);
    assert_eq!(apply_mirror(url, "https://ghproxy.com/"), format!("https://ghproxy.com/{}", url));
    assert_eq!(
        apply_mirror(url, " https://hub.example.com/ "),
        "https://hub.example.com/Pryaxis/TShock/releases/download/v5/a.zip"
    );
}

#[test]
fn choosing_release_assets() {
    let assets = vec![asset("TShock-win.zip"), asset("TShock-linux-arm64.zip"), asset("TShock-linux-x64.tar.gz")];
    assert_eq!(pick_best_asset(&assets, false), Some(2));
    assert_eq!(pick_best_asset(&assets, true), Some(1));
    let only_any = vec![asset("notes.txt"), asset("TShock.zip")];
    assert_eq!(pick_best_asset(&only_any, false), Some(1));
    assert_eq!(pick_best_asset(&vec![asset("notes.txt")], false), None);
}

#[test]
fn unpacking_paths() {
    let paths = vec!["TShock/a.dll".to_string(), "TShock/sub/b".to_string()];
    assert_eq!(detect_common_prefix(&paths), Some("TShock/".to_string()));
    let mixed = vec!["TShock/a.dll".to_string(), "top.txt".to_string()];
    assert_eq!(detect_common_prefix(&mixed), None);
    assert_eq!(detect_common_prefix(&vec![]), None);
    assert_eq!(entry_relative_path("TShock/a.dll", Some("TShock/"), false), Some("a.dll".to_string()));
    assert_eq!(entry_relative_path("TShock/", Some("TShock/"), false), None);
    assert_eq!(entry_relative_path(".", None, true), None);
    assert_eq!(entry_relative_path("x", None, false), Some("x".to_string()));
}

#[test]
fn version_entries_and_pages() {
    assert_eq!(display_name_for("v5.2.0"), "TShock 5.2.0");
    let e = release_entry("v5.2.0", None, "2024".to_string(), &asset("a.zip"), "", true);
    assert_eq!(e.name, "TShock 5.2.0");
    assert_eq!(e.download_url, "https://github.com/x/a.zip");
    assert!(e.downloaded);
    let l = local_version_entry("v5".to_string(), "/v/v5".to_string(), 3, true, "t".to_string());
    assert_eq!(l.name, "TShock 5");
    assert!(is_self_contained(true, false));
    assert!(!is_self_contained(true, true));
    let w = page_window(25, 3, 10);
    assert_eq!((w.start, w.end, w.has_more), (20, 25, false));
    let w2 = page_window(25, 1, 10);
    assert_eq!((w2.start, w2.end, w2.has_more), (0, 10, true));
    let w3 = page_window(5, 4, 10);
    assert_eq!((w3.start, w3.end), (0, 0));
    assert_eq!(page_params(None, None), (1, 10));
    assert_eq!(page_params(Some("0"), Some("500")), (1, 50));
    assert_eq!(page_params(Some("x"), Some("0")), (1, 1));
    assert_eq!(version_dir("/versions", "v5"), "/versions/v5");
}

fn release(tag: &str, name: Option<&str>, assets: Vec<GitHubAsset>) -> GitHubRelease {
    GitHubRelease { tag_name: tag.to_string(), name: name.map(String::from), published_at: "p".to_string(), assets }
}

#[test]
fn release_list_pages() {
    let releases = vec![
        release("v5.2.1", None, vec![asset("TShock-linux-x64.zip")]),
        release("v5.2.0", Some("Big"), vec![asset("notes.txt")]),
        release("v5.1.0", None, vec![asset("TShock.zip"), asset("TShock-linux.tar")]),
        release("v5.0.0", None, vec![asset("a.zip")]),
    ];
    let local = vec!["v5.1.0".to_string()];
    let r = available_versions(&releases, &local, false, "", 1, 2);
    assert_eq!(r.total, 3);
    assert!(r.has_more);
    let tags: Vec<&str> = r.versions.iter().map(|v| v.tag_name.as_str()).collect();
    assert_eq!(tags, vec!["v5.2.1", "v5.1.0"]);
    assert_eq!(r.versions[0].name, "TShock 5.2.1");
    assert_eq!(r.versions[0].version, "v5.2.1");
    assert!(!r.versions[0].downloaded);
    assert!(r.versions[1].downloaded);
    assert_eq!(r.versions[1].download_url, "https://github.com/x/TShock-linux.tar");
    let p2 = available_versions(&releases, &local, false, "https://ghproxy.com", 2, 2);
    assert_eq!(p2.versions.len(), 1);
    assert!(!p2.has_more);
    assert_eq!(p2.versions[0].download_url, "https://ghproxy.com/https://github.com/x/a.zip");
    let p9 = available_versions(&releases, &local, false, "", 9, 2);
    assert!(p9.versions.is_empty());
    assert_eq!(p9.page, 9);
}

fn lv(v: &str) -> LocalVersion {
    LocalVersion {
        version: v.to_string(),
        name: String::new(),
        path: String::new(),
        size: 0,
        is_dotnet: true,
        installed_at: String::new(),
    }
}

#[test]
fn installed_versions_newest_name_first() {
    let sorted = sort_local_versions(vec![lv("v5.1.0"), lv("v5.2.0"), lv("v4.9"), lv("v5.10.0")]);
    let names: Vec<&str> = sorted.iter().map(|v| v.version.as_str()).collect();
    assert_eq!(names, vec!["v5.2.0", "v5.10.0", "v5.1.0", "v4.9"]);
}
