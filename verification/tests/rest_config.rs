use terraria_console_backend::auto_backup::{cos_request_target, tencent_cos_base_url};
use terraria_console_backend::config::OssBackupConfig;
use terraria_console_backend::error::AppError;
use terraria_console_backend::json::JsonValue;
use terraria_console_backend::tshock_rest::{
    config_json_text, plan_rest_token, read_config_json, rest_config_view, rest_port, TokenEntryKind,
};

fn doc(text: &str) -> JsonValue {
    read_config_json(text).unwrap()
}

fn as_serde(v: &JsonValue) -> serde_json::Value {
    serde_json::from_str(&config_json_text(v).unwrap()).unwrap()
}

#[test]
fn a_legacy_token_is_rewritten_with_its_group() {
    let config = doc(r#"{"Settings": {"RestApiEnabled": false, "ApplicationRestTokens": {"abc": "owner"}, "MaxSlots": 8}}"#);
    let setup = plan_rest_token(config, None, "11-22").unwrap();
    assert_eq!(setup.token, "abc");
    assert!(setup.cache);
    let v = as_serde(setup.new_config.as_ref().unwrap());
    let s = &v["Settings"];
    assert_eq!(s["RestApiEnabled"], serde_json::Value::from(true));
    assert_eq!(s["RestApiPort"], serde_json::Value::from(7878u64));
    assert_eq!(s["MaxSlots"], serde_json::Value::from(8u64));
    assert_eq!(s["ApplicationRestTokens"]["abc"]["UserGroupName"], serde_json::Value::from("owner"));
    assert_eq!(s["ApplicationRestTokens"]["abc"]["Username"], serde_json::Value::from("Panel"));
}

#[test]
fn a_ready_config_is_left_alone() {
    let config = doc(r#"{"Settings": {"RestApiEnabled": true, "RestApiPort": 7879, "ApplicationRestTokens": {"tok": {"UserGroupName": "superadmin"}}}}"#);
    let setup = plan_rest_token(config, Some("tok".to_string()), "x").unwrap();
    assert_eq!(setup.token, "tok");
    assert!(!setup.cache);
    assert!(setup.new_config.is_none());
}

#[test]
fn a_token_is_provisioned_when_there_is_none() {
    let config = doc(r#"{"RestApiEnabled": true, "RestApiPort": 7000}"#);
    let setup = plan_rest_token(config, None, "aa-bb-cc").unwrap();
    assert_eq!(setup.token, "aabbcc");
    assert!(setup.cache);
    let v = as_serde(setup.new_config.as_ref().unwrap());
    assert_eq!(v["RestApiPort"], serde_json::Value::from(7000u64));
    assert_eq!(v["ApplicationRestTokens"]["aabbcc"]["UserGroupName"], serde_json::Value::from("superadmin"));
    assert!(v.get("Settings").is_none());
}

#[test]
fn a_cached_token_missing_from_the_config_is_injected() {
    let config = doc(r#"{"Settings": "broken", "Other": 1}"#);
    let setup = plan_rest_token(config, Some("mine".to_string()), "x").unwrap();
    assert_eq!(setup.token, "mine");
    assert!(!setup.cache);
    let v = as_serde(setup.new_config.as_ref().unwrap());
    assert_eq!(v["Other"], serde_json::Value::from(1u64));
    assert_eq!(v["Settings"]["RestApiEnabled"], serde_json::Value::from(true));
    assert_eq!(v["Settings"]["ApplicationRestTokens"]["mine"]["Username"], serde_json::Value::from("Panel"));
}

#[test]
fn config_errors() {
    match plan_rest_token(doc("[1, 2]"), None, "x") {
        Err(AppError::BadRequest(m)) => assert_eq!(m, "Invalid config.json root object"),
        other => panic!("unexpected {:?}", other),
    }
    match read_config_json("{") {
        Err(AppError::BadRequest(m)) => assert!(m.starts_with("Invalid config.json: ")),
        other => panic!("unexpected {:?}", other),
    }
}

#[test]
fn reading_the_rest_settings() {
    assert_eq!(rest_port(&doc(r#"{"Settings": {"RestApiPort": 7879}}"#)), Some(7879));
    assert_eq!(rest_port(&doc(r#"{"RestApiPort": 7001}"#)), Some(7001));
    assert_eq!(rest_port(&doc(r#"{"Settings": {"RestApiPort": 7.5}}"#)), None);
    assert_eq!(rest_port(&doc(r#"{"Settings": {"RestApiPort": -1}}"#)), None);
    let view = rest_config_view(&doc(
        r#"{"Settings": {"RestApiEnabled": true, "ApplicationRestTokens": {"a": {}, "b": "g", "c": 3}}}"#,
    ));
    assert_eq!(view.rest_enabled, Some(true));
    assert!(!view.rest_port_present);
    assert_eq!(
        view.tokens,
        vec![
            ("a".to_string(), TokenEntryKind::Object),
            ("b".to_string(), TokenEntryKind::Legacy),
            ("c".to_string(), TokenEntryKind::Other)
        ]
    );
}

#[test]
fn cos_upload_targets() {
    let mut config = OssBackupConfig::default();
    config.endpoint = "http://127.0.0.1:9000/".to_string();
    let parts = tencent_cos_base_url(&config).unwrap();
    assert_eq!(parts.scheme, "http");
    assert_eq!(parts.host.as_deref(), Some("127.0.0.1"));
    assert_eq!(parts.port, Some(9000));
    let (url, host) = cos_request_target(&parts, "/a%20b").unwrap();
    assert_eq!(url, "http://127.0.0.1:9000/a%20b");
    assert_eq!(host, "127.0.0.1");
    config.endpoint = String::new();
    config.bucket = "bk".to_string();
    config.region = "ap-x".to_string();
    let parts = tencent_cos_base_url(&config).unwrap();
    assert_eq!(parts.port, None);
    let (url, _) = cos_request_target(&parts, "/k").unwrap();
    assert_eq!(url, "https://bk.cos.ap-x.myqcloud.com/k");
    config.endpoint = "http://".to_string();
    assert!(tencent_cos_base_url(&config).unwrap_err().starts_with("Parse COS endpoint: "));
}
