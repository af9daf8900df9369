use terraria_console_backend::error::AppError;
use terraria_console_backend::item_catalog::{
    apply_zh_names, cache_path, catalog_items, catalog_source, extract_table_cells, filter_items,
    has_chinese_names, parse_cargo_items, parse_zh_item_id_page, strip_html, CargoRow, ItemCatalog,
    TerrariaItem,
};
use terraria_console_backend::rest_api::{
    ban_create_request, group_update_request, player_kick_request, query_with_token, reply_unreadable,
    request_failed, rest_base_url, rest_error, server_off_request, server_status_request,
    token_test_request, user_create_request, world_butcher_request, HttpMethod, ReplyField,
};
use terraria_console_backend::tshock_rest::{
    cached_token_from_file, ensure_rest_setup, first_config_token, legacy_token_group, provisioned_token,
    rest_api_needs_enabling, token_plan, ConfigChange, RestConfigView, TokenEntryKind,
};

fn item(id: i32, name: &str, internal: &str) -> TerrariaItem {
    TerrariaItem { id, name: name.to_string(), internal_name: internal.to_string(), zh_name: None }
}

#[test]
fn html_text_extraction() {
    assert_eq!(strip_html("  <b>Copper</b> &amp; Tin&nbsp;Bar\n"), "Copper & Tin Bar");
    assert_eq!(strip_html("a&unknown;b\tc"), "ab c");
    assert_eq!(strip_html("x&lt;y&gt;&quot;&apos;"), "x<y>\"'");
    assert_eq!(
        extract_table_cells("<td>1</td><td class=\"x\"><a>铜短剑</a></td><td>CopperShortsword</td>"),
        vec!["1", "铜短剑", "CopperShortsword"]
    );
    assert!(extract_table_cells("<td>unterminated").is_empty());
}

#[test]
fn chinese_item_names_page() {
    let html = "<table><tr><th>ID</th></tr>\
        <tr><td>1</td><td>铁镐</td><td>IronPickaxe</td></tr>\
        <tr><td>x</td><td>名</td><td>Bad</td></tr>\
        <tr><td>2</td><td>无官方名称</td><td>Unnamed</td></tr>\
        <tr><td>3</td><td>泥土块</td><td></td></tr>\
        <tr><td> 4 </td><td> 木材 </td><td>Wood</td></tr></table>";
    let names = parse_zh_item_id_page(html);
    assert_eq!(names, vec![(1, "铁镐".to_string()), (4, "木材".to_string())]);
}

fn cargo(id_text: Option<&str>, id_num: Option<i64>, name: &str, internal: &str) -> CargoRow {
    CargoRow {
        has_title: true,
        itemid_text: id_text.map(String::from),
        itemid_number: id_num,
        name: Some(name.to_string()),
        internal_name: Some(internal.to_string()),
    }
}

#[test]
fn wiki_item_rows() {
    match parse_cargo_items(None) {
        Err(AppError::BadRequest(m)) => assert_eq!(m, "Invalid Terraria item catalog response"),
        other => panic!("unexpected {:?}", other),
    }
    let rows = vec![
        cargo(Some("1"), None, " Iron Pickaxe ", "IronPickaxe"),
        cargo(None, Some(2), "Dirt Block", "DirtBlock"),
        cargo(Some("x"), None, "Bad", "Bad"),
        cargo(Some("4"), None, "Nothing", "None"),
        cargo(Some("5"), None, "", "Empty"),
        CargoRow { has_title: false, itemid_text: Some("6".to_string()), itemid_number: None, name: None, internal_name: None },
    ];
    let items = parse_cargo_items(Some(&rows)).unwrap();
    assert_eq!(items.len(), 2);
    assert_eq!(items[0].id, 1);
    assert_eq!(items[0].name, "Iron Pickaxe");
    assert_eq!(items[1].id, 2);
    assert_eq!(items[1].internal_name, "DirtBlock");
}

#[test]
fn downloaded_items_become_a_catalog() {
    match catalog_items(&vec![]) {
        Err(AppError::ProcessError(m)) => assert_eq!(m, "Downloaded Terraria item catalog is empty"),
        other => panic!("unexpected {:?}", other),
    }
    let items = vec![item(5, "E", "E"), item(1, "A", "A"), item(5, "E2", "E2"), item(3, "C", "C")];
    let c = catalog_items(&items).unwrap();
    let got: Vec<(i32, &str)> = c.iter().map(|i| (i.id, i.name.as_str())).collect();
    assert_eq!(got, vec![(1, "A"), (3, "C"), (5, "E")]);
}

#[test]
fn chinese_names_applied() {
    let items = vec![item(1, "Iron Pickaxe", "IronPickaxe"), item(2, "Same", "Same"), item(3, "Wood", "Wood")];
    let names = vec![(1, "铁镐".to_string()), (2, "Same".to_string()), (1, "铁镐2".to_string())];
    let out = apply_zh_names(items, &names);
    assert_eq!(out[0].zh_name.as_deref(), Some("铁镐2"));
    assert_eq!(out[1].zh_name, None);
    assert_eq!(out[2].zh_name, None);
    let cat = ItemCatalog { version: "1.4".to_string(), source: catalog_source(true), items: out };
    assert!(has_chinese_names(&cat));
    assert_eq!(cat.source, "terraria.wiki.gg Cargo Items + zh Item_IDs");
    assert_eq!(catalog_source(false), "terraria.wiki.gg Cargo Items");
}

#[test]
fn catalog_search() {
    let mut items = vec![item(1, "Iron Pickaxe", "IronPickaxe"), item(22, "Iron Bar", "IronBar"), item(3, "Wood", "Wood")];
    items[2].zh_name = Some("木材".to_string());
    let cat = ItemCatalog { version: "v".to_string(), source: "s".to_string(), items };
    assert_eq!(filter_items(&cat, None, 100).len(), 3);
    assert_eq!(filter_items(&cat, Some(" IRON "), 100).len(), 2);
    assert_eq!(filter_items(&cat, Some("iron"), 1)[0].id, 1);
    assert_eq!(filter_items(&cat, Some("iron"), 0).len(), 1);
    assert_eq!(filter_items(&cat, Some("22"), 10)[0].name, "Iron Bar");
    assert_eq!(filter_items(&cat, Some("木"), 10)[0].id, 3);
    assert!(filter_items(&cat, Some("zzz"), 10).is_empty());
    assert!(!has_chinese_names(&ItemCatalog { version: "v".to_string(), source: "s".to_string(), items: vec![] }));
}

#[test]
fn catalog_cache_file() {
    assert_eq!(cache_path("./data", "1.4.4.9"), "./data/items/1.4.4.9.json");
    assert_eq!(cache_path("./data", "v 1/2"), "./data/items/v_1_2.json");
}

#[test]
fn rest_requests() {
    let r = server_status_request();
    assert_eq!(r.method, HttpMethod::Get);
    assert_eq!(r.path, "/v2/server/status");
    assert_eq!(r.params, vec![("players".to_string(), "true".to_string()), ("rules".to_string(), "true".to_string())]);
    assert_eq!(token_test_request().path, "/tokentest");
    let off = server_off_request(Some("bye"), true);
    assert_eq!(off.method, HttpMethod::Post);
    assert_eq!(
        off.params,
        vec![
            ("confirm".to_string(), "true".to_string()),
            ("nosave".to_string(), "true".to_string()),
            ("message".to_string(), "bye".to_string())
        ]
    );
    assert_eq!(server_off_request(None, false).params.len(), 2);
    let kick = player_kick_request("bob", None);
    assert_eq!(kick.params, vec![("player".to_string(), "bob".to_string())]);
    let u = user_create_request("bob", "pw", Some("vip"));
    assert!(u.params.contains(&("group".to_string(), "vip".to_string())));
    let g = group_update_request("vip", None, Some("a,b"));
    assert!(g.params.contains(&("permissions".to_string(), "a,b".to_string())));
    let b = ban_create_request("bob", Some("grief"), None);
    assert!(b.params.contains(&("reason".to_string(), "grief".to_string())));
    assert!(world_butcher_request(true).params.contains(&("killfriendly".to_string(), "true".to_string())));
    let q = query_with_token("tok", &r.params);
    assert_eq!(q[0], ("token".to_string(), "tok".to_string()));
    assert_eq!(q.len(), 3);
}

#[test]
fn rest_errors_and_base_url() {
    assert_eq!(rest_base_url(None), "http://127.0.0.1:7878");
    assert_eq!(rest_base_url(Some(7979)), "http://127.0.0.1:7979");
    assert_eq!(
        rest_error("404 Not Found", ReplyField::Text("no such".to_string()), ReplyField::Absent).message(),
        "Process error: TShock REST API error (404 Not Found): no such"
    );
    assert_eq!(
        rest_error("500", ReplyField::Absent, ReplyField::Text("bad".to_string())).message(),
        "Process error: TShock REST API error (500): bad"
    );
    assert_eq!(
        rest_error("500", ReplyField::NotText, ReplyField::Text("bad".to_string())).message(),
        "Process error: TShock REST API error (500): Unknown error"
    );
    assert_eq!(request_failed("timeout").message(), "Process error: TShock REST request failed: timeout");
    assert_eq!(reply_unreadable("eof").message(), "Process error: Failed to parse TShock REST response: eof");
}

fn rest_config(enabled: Option<bool>, port: bool, tokens: Vec<(&str, TokenEntryKind)>) -> RestConfigView {
    RestConfigView {
        rest_enabled: enabled,
        rest_port_present: port,
        tokens: tokens.into_iter().map(|(t, k)| (t.to_string(), k)).collect(),
    }
}

#[test]
fn rest_token_planning() {
    let c = rest_config(Some(true), true, vec![("x", TokenEntryKind::Other), ("old", TokenEntryKind::Legacy), ("new", TokenEntryKind::Object)]);
    assert_eq!(first_config_token(&c), Some(("old".to_string(), true)));
    assert!(!rest_api_needs_enabling(&c));
    assert!(rest_api_needs_enabling(&rest_config(None, true, vec![])));
    assert!(rest_api_needs_enabling(&rest_config(Some(true), false, vec![])));
    let p = token_plan(Some("new".to_string()), &c);
    assert_eq!((p.token.as_deref(), p.change, p.cache), (Some("new"), ConfigChange::EnsureEnabled, false));
    let p = token_plan(Some("old".to_string()), &c);
    assert_eq!(p.change, ConfigChange::FixLegacy);
    let p = token_plan(Some("zzz".to_string()), &c);
    assert_eq!(p.change, ConfigChange::Inject);
    let p = token_plan(None, &c);
    assert_eq!((p.token.as_deref(), p.change, p.cache), (Some("old"), ConfigChange::FixLegacy, true));
    let p = token_plan(None, &rest_config(None, false, vec![]));
    assert_eq!((p.token, p.change, p.cache), (None, ConfigChange::Inject, true));
    assert_eq!(cached_token_from_file("  abc \n"), Some("abc".to_string()));
    assert_eq!(cached_token_from_file(" \n"), None);
    assert_eq!(legacy_token_group(Some("admins")), "admins");
    assert_eq!(legacy_token_group(Some("  ")), "superadmin");
    assert_eq!(legacy_token_group(None), "superadmin");
    assert_eq!(provisioned_token("123e4567-e89b-12d3-a456-426614174000"), "123e4567e89b12d3a456426614174000");
}

#[test]
fn rest_setup_answer() {
    let ready = rest_config(Some(true), true, vec![("t", TokenEntryKind::Object)]);
    assert_eq!(ensure_rest_setup(&ready, "t".to_string()), (true, "REST API is configured and ready.".to_string(), "t".to_string()));
    let legacy = rest_config(Some(true), true, vec![("t", TokenEntryKind::Legacy)]);
    let (ok, msg, _) = ensure_rest_setup(&legacy, "t".to_string());
    assert!(!ok);
    assert_eq!(msg, "REST API token has been provisioned. Please restart the server for changes to take effect.");
}
