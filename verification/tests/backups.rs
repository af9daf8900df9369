use terraria_console_backend::auto_backup::{backup_targets, next_archive_wait_ms, ServerRow,
    archive_dir, archive_groups, archive_hour, archive_object_name, backup_interval_secs, check_cos_settings,
    encode_cos_object_key, excess_backups, expired_saves, expired_ssc_backups, hmac_sha1, hmac_sha1_hex,
    nas_destination, prunes_by_age, prunes_by_count, retention_cutoff, sha1_hex, sqlite_companions,
    ssc_backup_dir, ssc_backup_name, ssc_backup_of, ssc_backups_to_remove, sync_backup_to_oss,
    tencent_cos_authorization, tencent_cos_endpoint, to_hex, tshock_database_path, unsupported_provider_message,
    world_archive_name, BackupRow, SaveRow, SscFile, SyncProvider,
};
use terraria_console_backend::config::{BackupConfig, OssBackupConfig};

fn oss(provider: &str) -> OssBackupConfig {
    let mut c = OssBackupConfig::default();
    c.enabled = true;
    c.provider = provider.to_string();
    c
}

#[test]
fn remote_copy_needs_enabling() {
    let mut c = oss("nas");
    c.enabled = false;
    assert!(sync_backup_to_oss(&c, "/d/a.wld", "a.wld").is_none());
}

#[test]
fn remote_copy_object_keys_and_providers() {
    let mut c = oss("nas");
    c.prefix = "/panel/saves/".to_string();
    let j = sync_backup_to_oss(&c, "/d/a.wld", "a.wld").unwrap();
    assert_eq!(j.object_key, "panel/saves/a.wld");
    assert_eq!(j.file_path, "/d/a.wld");
    assert_eq!(j.provider, SyncProvider::Nas);
    c.prefix = String::new();
    assert_eq!(sync_backup_to_oss(&c, "/d/a.wld", "a.wld").unwrap().object_key, "a.wld");
    assert_eq!(sync_backup_to_oss(&oss("local"), "f", "n").unwrap().provider, SyncProvider::Nas);
    assert_eq!(sync_backup_to_oss(&oss("cos"), "f", "n").unwrap().provider, SyncProvider::TencentCos);
    assert_eq!(sync_backup_to_oss(&oss("tencent_cos"), "f", "n").unwrap().provider, SyncProvider::TencentCos);
    assert_eq!(
        sync_backup_to_oss(&oss("s3"), "f", "n").unwrap().provider,
        SyncProvider::Unsupported("s3".to_string())
    );
    assert_eq!(unsupported_provider_message("s3"), "Unsupported backup provider: s3");
}

#[test]
fn nas_destination_needs_a_path() {
    let mut c = oss("nas");
    assert_eq!(nas_destination(&c, "k/a.wld"), Err("backup.oss.local_path is required for provider=nas".to_string()));
    c.local_path = "/mnt/nas".to_string();
    assert_eq!(nas_destination(&c, "k/a.wld"), Ok("/mnt/nas/k/a.wld".to_string()));
}

#[test]
fn cos_settings_are_checked_in_order() {
    let mut c = oss("cos");
    assert_eq!(check_cos_settings(&c), Err("backup.oss.bucket is required for provider=tencent_cos".to_string()));
    c.bucket = "b-1".to_string();
    assert_eq!(
        check_cos_settings(&c),
        Err("backup.oss.region or backup.oss.endpoint is required for provider=tencent_cos".to_string())
    );
    c.region = "ap-guangzhou".to_string();
    assert_eq!(
        check_cos_settings(&c),
        Err("backup.oss.access_key_id/access_key_secret are required for provider=tencent_cos".to_string())
    );
    c.access_key_id = "id".to_string();
    c.access_key_secret = "secret".to_string();
    assert_eq!(check_cos_settings(&c), Ok(()));
}

#[test]
fn cos_endpoints() {
    let mut c = oss("cos");
    c.bucket = " b-1 ".to_string();
    c.region = "ap-guangzhou".to_string();
    assert_eq!(tencent_cos_endpoint(&c), "https://b-1.cos.ap-guangzhou.myqcloud.com");
    c.endpoint = "http://minio.local:9000//".to_string();
    assert_eq!(tencent_cos_endpoint(&c), "http://minio.local:9000");
    c.endpoint = "cos.example.com/".to_string();
    assert_eq!(tencent_cos_endpoint(&c), "https://cos.example.com");
}

#[test]
fn object_keys_are_percent_encoded() {
    assert_eq!(encode_cos_object_key("///"), "/");
    assert_eq!(encode_cos_object_key("/a b/c#d.wld"), "/a%20b/c%23d.wld");
    assert_eq!(encode_cos_object_key("存档.wld"), "/%E5%AD%98%E6%A1%A3.wld");
    assert_eq!(encode_cos_object_key("x?{y}%`\"<>"), "/x%3F%7By%7D%25%60%22%3C%3E");
}

#[test]
fn hashes_match_known_vectors() {
    assert_eq!(to_hex(&[0, 15, 255]), "000fff");
    assert_eq!(sha1_hex(b"abc"), "a9993e364706816aba3e25717850c26c9cd0d89d");
    assert_eq!(
        hmac_sha1_hex(b"key", b"The quick brown fox jumps over the lazy dog").unwrap(),
        "de7c9b85b8b78aa6bc8a7a36f70a90701c9db4d9"
    );
    assert_eq!(hmac_sha1(b"", b"").unwrap().len(), 20);
}

#[test]
fn cos_authorization_header() {
    let mut c = oss("cos");
    c.access_key_id = " AKID ".to_string();
    c.access_key_secret = "SECRET".to_string();
    let a = tencent_cos_authorization(
        &c,
        "PUT",
        "Bucket-1.cos.ap-guangzhou.myqcloud.com",
        "/terraria-panel/saves/w%20x.wld",
        1_700_000_000,
    )
    .unwrap();
    assert_eq!(
        a,
        "q-sign-algorithm=sha1&q-ak=AKID&q-sign-time=1700000000;1700003600&q-key-time=1700000000;1700003600&q-header-list=host&q-url-param-list=&q-signature=184ff4a5a1401fbec1556af0fab3a0f87074be5e"
    );
}

fn backup_config(max: usize, retention: u64, archive: bool) -> BackupConfig {
    BackupConfig {
        enabled: true,
        interval_minutes: 60,
        max_backups_per_server: max,
        local_retention_days: retention,
        backup_ssc: true,
        archive_daily_enabled: archive,
        archive_hour: 1,
        archive_after_days: 2,
        oss: OssBackupConfig::default(),
    }
}

#[test]
fn schedule_and_pruning_switches() {
    assert_eq!(backup_interval_secs(60), 3600);
    assert_eq!(archive_hour(5), 5);
    assert_eq!(archive_hour(99), 23);
    assert!(prunes_by_age(&backup_config(0, 30, true)));
    assert!(!prunes_by_age(&backup_config(0, 0, true)));
    assert!(prunes_by_count(&backup_config(5, 0, false)));
    assert!(!prunes_by_count(&backup_config(5, 0, true)));
    assert!(!prunes_by_count(&backup_config(0, 0, false)));
    assert_eq!(retention_cutoff(1_000_000, 2), 1_000_000 - 172_800);
    assert_eq!(excess_backups(3, 5), 0);
    assert_eq!(excess_backups(8, 5), 3);
}

#[test]
fn expired_world_backups() {
    let rows = vec![
        SaveRow { id: "a".to_string(), file_path: "/a".to_string(), created_at: Some(100) },
        SaveRow { id: "b".to_string(), file_path: "/b".to_string(), created_at: None },
        SaveRow { id: "c".to_string(), file_path: "/c".to_string(), created_at: Some(300) },
        SaveRow { id: "d".to_string(), file_path: "/d".to_string(), created_at: Some(199) },
    ];
    let e = expired_saves(&rows, 200);
    assert_eq!(e, vec![("a".to_string(), "/a".to_string()), ("d".to_string(), "/d".to_string())]);
}

fn row(id: &str, name: &str, server: &str, day: Option<i64>, exists: bool) -> BackupRow {
    BackupRow {
        id: id.to_string(),
        name: name.to_string(),
        file_path: format!("/saves/{}", name),
        source_server_id: server.to_string(),
        created_day: day,
        file_exists: exists,
    }
}

#[test]
fn daily_archive_groups_by_server() {
    let rows = vec![
        row("1", "w_backup_1.wld", "s2", Some(20240101), true),
        row("2", "w_backup_2.wld", "s1", Some(20240101), true),
        row("3", "s1_x_tshock.sqlite", "s1", Some(20240101), true),
        row("4", "w_backup_3.wld", "s2", Some(20240102), true),
        row("5", "w_backup_4.wld", "s2", Some(20240101), false),
        row("6", "w_backup_5.wld.bak", "s2", Some(20240101), true),
        row("7", "w_backup_6.wld", "s3", None, true),
    ];
    let g = archive_groups(&rows, 20240101);
    assert_eq!(g.len(), 2);
    assert_eq!(g[0].server_id, "s2");
    let ids: Vec<&str> = g[0].items.iter().map(|i| i.id.as_str()).collect();
    assert_eq!(ids, vec!["1", "6"]);
    assert_eq!(g[1].server_id, "s1");
    assert_eq!(g[1].items.len(), 1);
    assert_eq!(g[1].items[0].file_path, "/saves/w_backup_2.wld");
    assert!(archive_groups(&rows, 20230101).is_empty());
    assert_eq!(world_archive_name("s1", "20240101"), "s1_20240101_world_backups.zip");
    assert_eq!(archive_object_name("s1_20240101_world_backups.zip"), "archives/s1_20240101_world_backups.zip");
}

#[test]
fn ssc_backups_keep_the_newest() {
    assert_eq!(ssc_backup_name("s1", "20240101_120000"), "s1_20240101_120000_tshock.sqlite");
    assert!(ssc_backup_of("s1_20240101_120000_tshock.sqlite", "s1"));
    assert!(!ssc_backup_of("s10_20240101_120000_tshock.sqlite", "s1"));
    assert!(!ssc_backup_of("s1_20240101_120000_tshock.sqlite-wal", "s1"));
    let names: Vec<String> = vec![
        "s1_20240103_000000_tshock.sqlite",
        "s1_20240101_000000_tshock.sqlite",
        "other.txt",
        "s2_20240101_000000_tshock.sqlite",
        "s1_20240102_000000_tshock.sqlite",
        "s1_20240104_000000_tshock.sqlite",
    ]
    .into_iter()
    .map(String::from)
    .collect();
    assert_eq!(
        ssc_backups_to_remove(&names, "s1", 2),
        vec!["s1_20240101_000000_tshock.sqlite", "s1_20240102_000000_tshock.sqlite"]
    );
    assert!(ssc_backups_to_remove(&names, "s1", 4).is_empty());
    assert!(ssc_backups_to_remove(&names, "s1", 10).is_empty());
    assert_eq!(ssc_backups_to_remove(&names, "s2", 0), vec!["s2_20240101_000000_tshock.sqlite"]);
}

#[test]
fn expired_ssc_files() {
    let files = vec![
        SscFile { name: "s1_a_tshock.sqlite".to_string(), modified: Some(10) },
        SscFile { name: "s1_b_tshock.sqlite".to_string(), modified: Some(1000) },
        SscFile { name: "s1_c_tshock.sqlite".to_string(), modified: None },
        SscFile { name: "s2_d_tshock.sqlite".to_string(), modified: Some(10) },
    ];
    assert_eq!(expired_ssc_backups(&files, "s1", 500), vec!["s1_a_tshock.sqlite"]);
}

#[test]
fn backup_paths() {
    assert_eq!(
        sqlite_companions("/x/s1_a_tshock.sqlite"),
        ("/x/s1_a_tshock.sqlite-wal".to_string(), "/x/s1_a_tshock.sqlite-shm".to_string())
    );
    assert_eq!(tshock_database_path("./data", "s1"), "./data/servers/s1/tshock/tshock.sqlite");
    assert_eq!(ssc_backup_dir("./data"), "./data/saves/ssc_backups");
    assert_eq!(archive_dir("./data"), "./data/saves/archives");
}

#[test]
fn archive_waits_for_the_next_archive_hour() {
    // Archive hour still ahead today.
    assert_eq!(next_archive_wait_ms(1_000, 5_000, 90_000), 4_000);
    // Archive hour of today has passed: wait for tomorrow's.
    assert_eq!(next_archive_wait_ms(6_000, 5_000, 90_000), 84_000);
    // Exactly at the archive hour: the next one is tomorrow.
    assert_eq!(next_archive_wait_ms(5_000, 5_000, 90_000), 85_000);
    // Neither instant ahead: a minute.
    assert_eq!(next_archive_wait_ms(100_000, 5_000, 90_000), 60_000);
}

#[test]
fn backups_target_running_servers_with_a_world() {
    let row = |id: &str, world: Option<&str>, status: &str| ServerRow {
        id: id.to_string(),
        name: format!("name-{}", id),
        world_name: world.map(String::from),
        status: status.to_string(),
    };
    let rows = vec![
        row("a", Some("w1"), "running"),
        row("b", Some("w2"), "stopped"),
        row("c", None, "running"),
        row("d", Some(""), "running"),
        row("e", Some("w5"), "running"),
        row("f", Some("w6"), "Running"),
    ];
    let t = backup_targets(&rows);
    assert_eq!(t.len(), 2);
    assert_eq!((t[0].server_id.as_str(), t[0].server_name.as_str(), t[0].world_name.as_str()), ("a", "name-a", "w1"));
    assert_eq!(t[1].server_id, "e");
    assert!(backup_targets(&Vec::new()).is_empty());
}
