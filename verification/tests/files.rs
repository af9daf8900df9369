use terraria_console_backend::error::AppError;
use terraria_console_backend::frp::{
    FrpTable, frp_config_content, global_frp_settings_path, panel_frp_config_path, pid_from_pgrep_output,
    runtime_frp_dir, server_frp_config_path, write_panel_frp_config, write_server_frp_config,
    FrpRuntimeStatus, GlobalFrpSettings,
};
use terraria_console_backend::mods::{
    check_mod_field, listed_mod, mod_not_found, toggled_filename, toggled_mod, uploaded_mod, ModList, ModManager,
};
use terraria_console_backend::save_manager::{
    normalize_world_filename, save_id_of_file, source_server_of_file, SaveManager,
};
use terraria_console_backend::saves::{
    backup_world_name, check_importable, check_upload_field, content_disposition, is_allowed_save_name,
    no_save_uploaded, save_not_found, save_source_type, SaveInfo, SaveListQuery,
};

#[test]
fn frp_defaults_and_paths() {
    let s = GlobalFrpSettings::with_panel_port(3000);
    assert!(!s.enabled);
    assert_eq!(s.frpc_bin, "frpc");
    assert_eq!(s.server_port, 7000);
    assert_eq!(s.transport_protocol, "tcp");
    assert_eq!(s.log_level, "info");
    assert_eq!(s.panel_tunnel.local_port, 3000);
    assert_eq!(s.panel_tunnel.remote_port, 3000);
    assert_eq!(s.panel_tunnel.proxy_name, "terraria-panel");
    assert_eq!(global_frp_settings_path("./data"), "./data/settings/frp.json");
    assert_eq!(runtime_frp_dir("./data"), "./data/runtime/frp");
    assert_eq!(panel_frp_config_path("./data"), "./data/runtime/frp/panel.toml");
    assert_eq!(server_frp_config_path("./data", "s1"), "./data/runtime/frp/server_s1.toml");
}

#[test]
fn frp_settings_keep_a_set_panel_port() {
    let mut s = GlobalFrpSettings::with_panel_port(3000);
    s.panel_tunnel.local_port = 0;
    assert_eq!(s.with_default_panel_port(8080).panel_tunnel.local_port, 8080);
    let t = GlobalFrpSettings::with_panel_port(3000);
    assert_eq!(t.with_default_panel_port(8080).panel_tunnel.local_port, 3000);
}

#[test]
fn frp_config_text() {
    let mut s = GlobalFrpSettings::with_panel_port(3000);
    s.server_addr = "frp.example.com".to_string();
    s.auth_token = "to\"ken".to_string();
    s.tls_enable = true;
    let c = frp_config_content(&s, "srv", 7777, 17777);
    assert_eq!(
        c,
        "serverAddr = \"frp.example.com\"\nserverPort = 7000\nauth.method = \"token\"\nauth.token = \"to\\\"ken\"\nlog.level = \"info\"\ntransport.protocol = \"tcp\"\ntransport.tls.enable = true\n\n[[proxies]]\nname = \"srv\"\ntype = \"tcp\"\nlocalIP = \"127.0.0.1\"\nlocalPort = 7777\nremotePort = 17777\n"
    );
    let p = write_panel_frp_config("./data", &s);
    assert_eq!(p.path, "./data/runtime/frp/panel.toml");
    assert!(p.content.contains("name = \"terraria-panel\""));
    assert!(p.content.contains("localPort = 3000\nremotePort = 3000\n"));
    let q = write_server_frp_config("./data", &s, "s1", "srv", 7777, 17777);
    assert_eq!(q.path, "./data/runtime/frp/server_s1.toml");
    assert_eq!(q.content, c);
}

#[test]
fn frp_runtime_status() {
    let s = FrpRuntimeStatus::stopped("panel".to_string());
    assert!(!s.running);
    assert!(s.pid.is_none());
    let r = FrpRuntimeStatus::with_process("s1".to_string(), 42, "/c.toml".to_string(), Some(17777), None, true);
    assert!(r.running);
    assert_eq!(r.pid, Some(42));
    assert_eq!(r.config_path.as_deref(), Some("/c.toml"));
    assert_eq!(pid_from_pgrep_output("1234\n5678\n"), Some(1234));
    assert_eq!(pid_from_pgrep_output(" 99 \r\n"), Some(99));
    assert_eq!(pid_from_pgrep_output(""), None);
    assert_eq!(pid_from_pgrep_output("abc\n1\n"), None);
}

#[test]
fn save_names_and_sources() {
    assert!(is_allowed_save_name("a.wld"));
    assert!(is_allowed_save_name("a.wld.bak"));
    assert!(is_allowed_save_name("a.bak"));
    assert!(!is_allowed_save_name("a.zip"));
    let id = "s1".to_string();
    assert_eq!(save_source_type("x.wld", None), "manual_upload");
    assert_eq!(save_source_type("x.wld", Some(&id)), "server_backup");
    assert_eq!(save_source_type("x.zip", Some(&id)), "server_archive");
    let info = SaveInfo::from_row(
        "1".to_string(),
        "a_world_backups.zip".to_string(),
        "/p".to_string(),
        10,
        Some("s1".to_string()),
        Some("Main".to_string()),
        "t".to_string(),
    );
    assert_eq!(info.source_type, "server_archive");
    assert!(SaveListQuery { server_id: Some("s1".to_string()), include_other_servers: false }.restricts_to_server());
    assert!(!SaveListQuery { server_id: Some("s1".to_string()), include_other_servers: true }.restricts_to_server());
    assert!(!SaveListQuery { server_id: None, include_other_servers: false }.restricts_to_server());
}

#[test]
fn normalizing_world_file_names() {
    assert_eq!(normalize_world_filename("a.wld"), "a.wld");
    assert_eq!(normalize_world_filename("a.wld.bak"), "a.wld");
    assert_eq!(normalize_world_filename("a.bak"), "a.wld");
    assert_eq!(normalize_world_filename("a.wld.bak.bak"), "a.wld");
    assert_eq!(normalize_world_filename("a"), "a.wld");
}

#[test]
fn stored_save_file_names() {
    assert_eq!(save_id_of_file("abc_world.wld"), "abc");
    assert_eq!(save_id_of_file("plain.wld"), "plain.wld");
    assert_eq!(source_server_of_file("World_backup_20240101_120000.wld"), Some("backup".to_string()));
    assert_eq!(source_server_of_file("id_World.wld"), None);
}

#[test]
fn save_manager_paths_and_checks() {
    let m = SaveManager::new("./data/saves".to_string(), "./data/servers".to_string());
    assert_eq!(m.saves_dir(), "./data/saves");
    assert!(SaveManager::check_upload("a.wld", 10).is_ok());
    match SaveManager::check_upload("a.txt", 10) {
        Err(AppError::BadRequest(msg)) => assert_eq!(msg, "Only .wld, .wld.bak and .bak files are allowed"),
        other => panic!("unexpected {:?}", other),
    }
    match SaveManager::check_upload("a.wld", 536_870_913) {
        Err(AppError::BadRequest(msg)) => assert_eq!(msg, "Save file too large (max 500MB)"),
        other => panic!("unexpected {:?}", other),
    }
    assert!(SaveManager::check_upload("a.wld", 536_870_912).is_ok());
    assert_eq!(m.upload_path("id1", "w.wld"), "./data/saves/id1_w.wld");
    assert_eq!(m.world_dir("s1"), "./data/servers/s1/world");
    assert_eq!(
        m.import_target("s1", "w.wld.bak").unwrap(),
        ("w.wld".to_string(), "./data/servers/s1/world/w.wld".to_string())
    );
    match m.import_target("s1", "w.zip") {
        Err(AppError::BadRequest(msg)) => assert_eq!(msg, "Imported save must be a .wld, .wld.bak or .bak file"),
        other => panic!("unexpected {:?}", other),
    }
    assert_eq!(m.backup_source_path("s1", "W"), "./data/servers/s1/world/W.wld");
    assert_eq!(m.backup_source_path("s1", "W.bak"), "./data/servers/s1/world/W.bak");
    assert_eq!(
        m.backup_target("W", "20240101_000000"),
        ("W_backup_20240101_000000.wld".to_string(), "./data/saves/W_backup_20240101_000000.wld".to_string())
    );
    assert!(SaveManager::is_file_of_save("id1_w.wld", "id1"));
    assert!(!SaveManager::is_file_of_save("id1_w.txt", "id1"));
    assert_eq!(SaveManager::default().saves_dir(), "./data/saves");
}

#[test]
fn mods_listing_and_toggling() {
    let m = ModManager::new("./data".to_string());
    assert_eq!(m.plugins_dir("s1"), "./data/servers/s1/ServerPlugins");
    assert!(ModManager::check_upload("p.dll", 100).is_ok());
    match ModManager::check_upload("p.zip", 100) {
        Err(AppError::BadRequest(msg)) => assert_eq!(msg, "Only .dll files are allowed"),
        other => panic!("unexpected {:?}", other),
    }
    match ModManager::check_upload("p.dll", 52_428_801) {
        Err(AppError::BadRequest(msg)) => assert_eq!(msg, "Mod file too large (max 50MB)"),
        other => panic!("unexpected {:?}", other),
    }
    let a = listed_mod("P.dll.disabled".to_string(), 5, "t".to_string());
    assert_eq!(a.name, "P.dll");
    assert!(!a.enabled);
    let b = listed_mod("P.dll".to_string(), 5, "t".to_string());
    assert_eq!(b.name, "P.dll");
    assert!(b.enabled);
    assert_eq!(toggled_filename("P.dll"), "P.dll.disabled");
    assert_eq!(toggled_filename("P.dll.disabled"), "P.dll");
    assert_eq!(toggled_filename(&toggled_filename("P.dll")), "P.dll");
    let t = toggled_mod("P.dll", 5, "t".to_string());
    assert_eq!(t.filename, "P.dll.disabled");
    assert!(t.enabled);
}

#[test]
fn frp_tunnel_table() {
    let mut t = FrpTable::new();
    assert!(!t.status("panel", true).running);
    assert_eq!(t.pid_of("panel"), None);
    t.insert("panel", 42, "/r/panel.toml", Some(3000));
    t.insert("server:s1", 43, "/r/s1.toml", None);
    let s = t.status("panel", true);
    assert!(s.running);
    assert_eq!(s.pid, Some(42));
    assert_eq!(s.config_path.as_deref(), Some("/r/panel.toml"));
    assert_eq!(s.remote_port, Some(3000));
    assert_eq!(s.last_error, None);
    assert!(!t.status("panel", false).running);
    assert_eq!(t.tunnel_keys(), vec!["panel", "server:s1"]);
    assert_eq!(t.remove("panel"), Some(42));
    assert_eq!(t.remove("panel"), None);
    assert_eq!(t.pid_of("server:s1"), Some(43));
    assert_eq!(t.tunnel_keys(), vec!["server:s1"]);
    assert!(FrpTable::default().tunnel_keys().is_empty());
}

#[test]
fn save_upload_form_checks() {
    match check_upload_field(None, 1) {
        Err(AppError::BadRequest(m)) => assert_eq!(m, "Missing filename"),
        other => panic!("unexpected {:?}", other),
    }
    match check_upload_field(Some("w.zip"), 1) {
        Err(AppError::BadRequest(m)) => assert_eq!(m, "Only .wld, .wld.bak and .bak files are allowed"),
        other => panic!("unexpected {:?}", other),
    }
    match check_upload_field(Some("w.wld"), 524_288_001) {
        Err(AppError::BadRequest(m)) => assert_eq!(m, "File size exceeds 500MB limit"),
        other => panic!("unexpected {:?}", other),
    }
    assert_eq!(check_upload_field(Some("w.wld"), 524_288_000).unwrap(), "w.wld");
    assert_eq!(no_save_uploaded().message(), "No save file uploaded");
    assert_eq!(save_not_found().status(), 404);
    assert!(check_importable("w.wld.bak").is_ok());
    match check_importable("s1_20240101_world_backups.zip") {
        Err(AppError::BadRequest(m)) => {
            assert_eq!(m, "归档包只能下载，不能直接导入为世界存档。请解压后选择其中的 .wld 文件导入。")
        },
        other => panic!("unexpected {:?}", other),
    }
    assert_eq!(backup_world_name(Some("W".to_string())).unwrap(), "W");
    match backup_world_name(None) {
        Err(AppError::BadRequest(m)) => assert_eq!(m, "Server has no world name set"),
        other => panic!("unexpected {:?}", other),
    }
    assert_eq!(content_disposition("w.wld"), "attachment; filename=\"w.wld\"");
}

#[test]
fn mod_upload_form_checks() {
    match check_mod_field(None, 1) {
        Err(AppError::BadRequest(m)) => assert_eq!(m, "Missing filename"),
        other => panic!("unexpected {:?}", other),
    }
    match check_mod_field(Some("p.dll"), 52_428_801) {
        Err(AppError::BadRequest(m)) => assert_eq!(m, "File size exceeds 50MB limit"),
        other => panic!("unexpected {:?}", other),
    }
    assert!(check_mod_field(Some("p.so"), 1).is_err());
    assert_eq!(check_mod_field(Some("p.dll"), 1).unwrap(), "p.dll");
    assert_eq!(mod_not_found("p.dll").message(), "Mod p.dll not found");
    let u = uploaded_mod("p.dll", 9, "t".to_string());
    assert!(u.enabled);
    assert_eq!(u.name, "p.dll");
    let list = ModList::of(vec![u.clone(), u]);
    assert_eq!(list.total, 2);
}
