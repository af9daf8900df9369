use std::collections::HashMap;

use terraria_console_backend::error::AppError;
use terraria_console_backend::process::{
    launch_plan, stderr_log_line, stdin_line, InstallState, LaunchSettings, ProcessTable,
};
use terraria_console_backend::json::JsonValue;
use terraria_console_backend::server_config::{
    choose_server_config, config_dir, get_templates, merge_tshock_config, setting_json, tshock_config_text,
    ServerConfig, SettingValue,
};
use terraria_console_backend::servers::{
    autocreate_plan, autocreate_size, new_server_dirs, resolve_world_path, server_dir, server_not_found,
    sort_worlds, status_word, version_not_found, world_candidate_paths, world_file, AutoCreateSettings,
    WorldEntry,
};

fn settings() -> LaunchSettings {
    LaunchSettings {
        version_path: "/v/5.2".to_string(),
        config_path: "/d/servers/s1/tshock".to_string(),
        port: 7777,
        max_players: 8,
        password: None,
        world_path: None,
        autocreate: None,
        world_name: None,
    }
}

fn install(bin: bool, dll: bool, world: bool) -> InstallState {
    InstallState { has_binary: bin, has_dll: dll, world_exists: world, dir_listing: "a, b".to_string() }
}

#[test]
fn launches_the_self_contained_binary() {
    let p = launch_plan(&settings(), &install(true, true, false)).unwrap();
    assert!(p.self_contained);
    assert_eq!(p.program, "/v/5.2/TShock.Server");
    assert_eq!(p.args, vec!["-configpath", "/d/servers/s1/tshock", "-port", "7777", "-maxplayers", "8"]);
}

#[test]
fn launches_the_dll_through_dotnet_with_every_option() {
    let mut s = settings();
    s.password = Some("pw".to_string());
    s.world_path = Some("/w/World.wld".to_string());
    s.autocreate = Some(2);
    s.world_name = Some("New".to_string());
    s.max_players = -1;
    let p = launch_plan(&s, &install(false, true, true)).unwrap();
    assert!(!p.self_contained);
    assert_eq!(p.program, "dotnet");
    assert_eq!(
        p.args,
        vec![
            "/v/5.2/TShock.Server.dll",
            "-configpath",
            "/d/servers/s1/tshock",
            "-port",
            "7777",
            "-maxplayers",
            "-1",
            "-password",
            "pw",
            "-world",
            "/w/World.wld",
            "-autocreate",
            "2",
            "-worldname",
            "New"
        ]
    );
}

#[test]
fn skips_missing_world_bad_sizes_and_empty_names() {
    let mut s = settings();
    s.world_path = Some("/w/Gone.wld".to_string());
    s.autocreate = Some(4);
    s.world_name = Some(String::new());
    let p = launch_plan(&s, &install(true, false, false)).unwrap();
    assert_eq!(p.args.len(), 6);
}

#[test]
fn refuses_a_version_without_executable() {
    match launch_plan(&settings(), &install(false, false, false)) {
        Err(AppError::NotFound(m)) => {
            assert_eq!(m, "TShock 可执行文件未找到，请检查版本 /v/5.2 是否正确安装。目录内容: [a, b]")
        },
        other => panic!("unexpected {:?}", other.map(|p| p.program)),
    }
}

#[test]
fn process_lines() {
    assert_eq!(stdin_line("save"), "save\n");
    assert_eq!(stderr_log_line("oops"), "[STDERR] oops");
}

#[test]
fn process_table_start_and_stop() {
    let mut t = ProcessTable::new();
    assert!(!t.is_running("s1"));
    assert_eq!(t.get_status("s1").as_str(), "stopped");
    assert!(t.start("s1").is_ok());
    assert!(t.is_running("s1"));
    assert_eq!(t.get_status("s1").as_str(), "running");
    match t.start("s1") {
        Err(AppError::Conflict(m)) => assert_eq!(m, "Server already running"),
        other => panic!("unexpected {:?}", other),
    }
    assert!(t.start("s2").is_ok());
    assert!(t.command_target("s2").is_ok());
    assert!(t.stop("s1").is_ok());
    assert!(!t.is_running("s1"));
    assert!(t.is_running("s2"));
    match t.stop("s1") {
        Err(AppError::NotFound(m)) => assert_eq!(m, "Server s1 not running"),
        other => panic!("unexpected {:?}", other),
    }
    match t.command_target("s1") {
        Err(e) => assert_eq!(e.status(), 404),
        Ok(()) => panic!("s1 stopped"),
    }
    assert!(!ProcessTable::default().is_running("s2"));
}

#[test]
fn server_directories_and_messages() {
    assert_eq!(server_dir("./data", "s1"), "./data/servers/s1");
    assert_eq!(
        new_server_dirs("./data/servers/s1"),
        vec![
            "./data/servers/s1/world",
            "./data/servers/s1/ServerPlugins",
            "./data/servers/s1/logs",
            "./data/servers/s1/tshock"
        ]
    );
    assert_eq!(server_not_found().message(), "Server not found");
    assert_eq!(version_not_found("v9").message(), "TShock version v9 not found");
    assert_eq!(status_word(true), "running");
    assert_eq!(status_word(false), "stopped");
}

#[test]
fn world_candidates_by_name() {
    assert!(world_candidate_paths("/w", "").is_empty());
    assert_eq!(world_candidate_paths("/w", "A.wld"), vec!["/w/A.wld"]);
    assert_eq!(world_candidate_paths("/w", "A.bak"), vec!["/w/A.bak"]);
    assert_eq!(world_candidate_paths("/w", "A"), vec!["/w/A.wld", "/w/A.wld.bak", "/w/A.bak"]);
}

fn entry(name: &str, is_file: bool) -> WorldEntry {
    WorldEntry { file_name: name.to_string(), path: format!("/w/{}", name), is_file }
}

#[test]
fn resolving_the_world_file() {
    let c = world_candidate_paths("/w", "A");
    let none = vec![false, false, false];
    let entries = vec![entry("B.wld", true), entry("A_dir.wld", false), entry("A_2.txt", true), entry("A_1.wld", true)];
    assert_eq!(resolve_world_path("A", &c, &vec![false, true, true], &entries), Some("/w/A.wld.bak".to_string()));
    assert_eq!(resolve_world_path("A", &c, &none, &entries), Some("/w/A_1.wld".to_string()));
    assert_eq!(resolve_world_path("A", &c, &none, &vec![entry("B.wld", true)]), None);
    assert_eq!(resolve_world_path("", &vec![], &vec![], &entries), None);
}

#[test]
fn creating_worlds_on_start() {
    assert_eq!(autocreate_size(4200), 1);
    assert_eq!(autocreate_size(4201), 2);
    assert_eq!(autocreate_size(6400), 2);
    assert_eq!(autocreate_size(8400), 3);
    let name = Some("Mine".to_string());
    assert_eq!(autocreate_plan(true, &None, &name), (None, None));
    assert_eq!(autocreate_plan(false, &None, &name), (None, name.clone()));
    let off = AutoCreateSettings { auto_create: Some(false), world_width: Some(4200), world_name: None };
    assert_eq!(autocreate_plan(false, &Some(off), &name), (None, name.clone()));
    let on = AutoCreateSettings { auto_create: Some(true), world_width: None, world_name: None };
    assert_eq!(autocreate_plan(false, &Some(on), &name), (Some(2), name.clone()));
    let named = AutoCreateSettings {
        auto_create: Some(true),
        world_width: Some(4200),
        world_name: Some("Cfg".to_string()),
    };
    assert_eq!(autocreate_plan(false, &Some(named), &name), (Some(1), Some("Cfg".to_string())));
}

#[test]
fn worlds_list_before_backups_each_by_name() {
    let files = vec![
        world_file("b.wld.bak", 1, "t"),
        world_file("c.wld", 2, "t"),
        world_file("a.bak", 3, "t"),
        world_file("a.wld", 4, "t"),
    ];
    assert!(files[0].is_backup);
    assert!(!files[1].is_backup);
    let sorted = sort_worlds(files);
    let names: Vec<&str> = sorted.iter().map(|w| w.name.as_str()).collect();
    assert_eq!(names, vec!["a.wld", "c.wld", "a.bak", "b.wld.bak"]);
}

fn json_text(v: &JsonValue) -> String {
    match v {
        JsonValue::Null => "null".to_string(),
        JsonValue::Bool(b) => format!("b:{}", b),
        JsonValue::Number(n) => format!("n:{}", n),
        JsonValue::Str(t) => format!("s:{}", t),
        JsonValue::Array(a) => format!("[{}]", a.iter().map(json_text).collect::<Vec<_>>().join(",")),
        JsonValue::Object(m) => format!("{{{}}}", m.iter().map(|(k, x)| format!("{}={}", k, json_text(x))).collect::<Vec<_>>().join(",")),
    }
}

fn as_map(v: &[(String, JsonValue)]) -> HashMap<String, String> {
    let mut m = HashMap::new();
    for (k, val) in v {
        m.insert(k.clone(), json_text(val));
    }
    m
}

#[test]
fn config_merges_into_tshock_settings() {
    let mut c = ServerConfig::default();
    c.server_name = Some("Hello".to_string());
    c.port = Some(7779);
    c.motd = Some("Welcome".to_string());
    let mut settings = vec![
        ("Keep".to_string(), JsonValue::Number("1".to_string())),
        ("MaxSlots".to_string(), JsonValue::Number("99".to_string())),
        ("ServerFullNoReserveReason".to_string(), JsonValue::Str("Full, try later".to_string())),
    ];
    c.apply_to_tshock_settings(&mut settings);
    let m = as_map(&settings);
    assert_eq!(m["Keep"], "n:1");
    assert_eq!(m["MaxSlots"], "n:8");
    assert_eq!(m["ServerName"], "s:Hello");
    assert_eq!(m["UseServerName"], "b:true");
    assert_eq!(m["ServerPort"], "n:7779");
    assert_eq!(m["Motd"], "s:Welcome");
    assert_eq!(m["ServerFullNoReserveReason"], "s:Full, try later");
    assert_eq!(m["PvPMode"], "s:normal");
    assert_eq!(m["SpawnProtectionRadius"], "n:10");
    assert_eq!(m["RestApiPort"], "n:7878");
    assert!(!m.contains_key("ServerPassword"));
    c.server_full_no_reserve_reason = Some("Full".to_string());
    let mut s2 = Vec::new();
    c.apply_to_tshock_settings(&mut s2);
    assert_eq!(as_map(&s2)["ServerFullNoReserveReason"], "s:Full");
    assert_eq!(json_text(&setting_json(&SettingValue::Number(-5))), "n:-5");
}

#[test]
fn config_json_gets_the_settings_merged() {
    let mut c = ServerConfig::default();
    c.port = Some(7779);
    let text = r#"{"Other": 3, "Settings": {"Keep": "x", "ServerPort": 1}}"#.to_string();
    let merged = merge_tshock_config(Some(text), &c);
    let JsonValue::Object(root) = &merged else { panic!("not an object") };
    let top = as_map(root);
    assert_eq!(top["Other"], "n:3");
    let JsonValue::Object(settings) = &root.iter().rev().find(|(k, _)| k == "Settings").unwrap().1 else {
        panic!("settings not an object")
    };
    let s = as_map(settings);
    assert_eq!(s["Keep"], "s:x");
    assert_eq!(s["ServerPort"], "n:7779");
    assert_eq!(s["MaxSlots"], "n:8");
    // A missing, unreadable or non-object document starts empty.
    for text in [None, Some("not json".to_string()), Some("[1]".to_string()), Some(r#"{"Settings": 5}"#.to_string())] {
        let merged = merge_tshock_config(text, &c);
        let JsonValue::Object(root) = &merged else { panic!("not an object") };
        assert_eq!(root.len(), 1);
        assert_eq!(root[0].0, "Settings");
        let JsonValue::Object(settings) = &root[0].1 else { panic!("settings not an object") };
        assert_eq!(as_map(settings)["ServerPort"], "n:7779");
    }
    let written = tshock_config_text(&merged).unwrap();
    assert!(written.contains("\"ServerPort\": 7779"));
}

#[test]
fn config_sources_and_templates() {
    assert_eq!(config_dir("./data", "s1"), "./data/servers/s1/tshock");
    let mut panel = ServerConfig::default();
    panel.port = Some(1);
    let r = choose_server_config(Some(Ok(panel)), Some(None)).unwrap();
    assert_eq!(r.port, Some(1));
    match choose_server_config(Some(Err("eof".to_string())), None) {
        Err(AppError::BadRequest(m)) => assert_eq!(m, "Invalid JSON: eof"),
        other => panic!("unexpected {:?}", other),
    }
    let mut ts = ServerConfig::default();
    ts.port = Some(2);
    assert_eq!(choose_server_config(None, Some(Some(ts))).unwrap().port, Some(2));
    let d = choose_server_config(None, Some(None)).unwrap();
    assert_eq!(d.max_players, Some(8));
    assert_eq!(d.port, None);
    let t = get_templates();
    assert_eq!(t.len(), 3);
    assert_eq!(t[0].name, "Survival");
    assert_eq!(t[1].config.auto_create, Some(true));
    assert_eq!(t[2].config.difficulty, Some(1));
    assert_eq!(t[2].config.enable_whitelist, Some(true));
}
