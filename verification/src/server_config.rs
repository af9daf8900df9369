//! A server's game settings as the panel edits them, and how they map onto
//! TShock's `config.json` settings.
use vstd::prelude::*;

use crate::error::AppError;
use crate::paths::{join, path_join};
use crate::json::{json_pretty, obj_get, parse_json, parsed_json, pretty_json, set_member, take_member, JsonValue};
use crate::text::{concat2, i64_text, opt_view, owned, signed_decimal, starts_with};

verus! {

/// The game settings a panel user can set for a server; unset ones are left
/// as TShock has them.
#[derive(Debug, Clone)]
pub struct ServerConfig {
    pub server_name: Option<String>,
    pub port: Option<u16>,
    pub max_players: Option<i32>,
    pub world_name: Option<String>,
    pub server_password: Option<String>,
    pub difficulty: Option<u32>,
    pub auto_create: Option<bool>,
    pub world_width: Option<u32>,
    pub world_height: Option<u32>,
    pub seed: Option<String>,
    pub enable_whitelist: Option<bool>,
    pub pvp_mode: Option<String>,
    pub spawn_protection: Option<bool>,
    pub spawn_protection_radius: Option<u32>,
    pub npc_spawn_protection_radius: Option<u32>,
    pub hard_core_only: Option<bool>,
    pub medium_core_only: Option<bool>,
    pub soft_core_only: Option<bool>,
    pub server_side_character: Option<bool>,
    pub disable_build: Option<bool>,
    pub disable_clown_bombs: Option<bool>,
    pub disable_dungeon_guardian: Option<bool>,
    pub disable_tombstones: Option<bool>,
    pub force_time: Option<String>,
    pub disable_invisible_pvp: Option<bool>,
    pub anti_cheat: Option<bool>,
    pub kick_on_damage_inflicted: Option<i32>,
    pub kick_on_damage_received: Option<i32>,
    pub range_checks: Option<bool>,
    pub disable_player_count_reporting: Option<bool>,
    pub rest_api_enabled: Option<bool>,
    pub rest_api_port: Option<u16>,
    pub motd: Option<String>,
    pub server_full_no_reserve_reason: Option<String>,
}

/// A value written into TShock's settings.
#[derive(Debug, Clone)]
pub enum SettingValue {
    Text(String),
    Flag(bool),
    Number(i64),
}

/// A setting value as plain data.
pub enum SettingView {
    Text(Seq<char>),
    Flag(bool),
    Number(int),
}

pub open spec fn setting_view(v: SettingValue) -> SettingView {
    match v {
        SettingValue::Text(s) => SettingView::Text(s@),
        SettingValue::Flag(b) => SettingView::Flag(b),
        SettingValue::Number(n) => SettingView::Number(n as int),
    }
}

/// A list of `(key, value)` settings as plain data.
pub open spec fn updates_view(v: Seq<(String, SettingValue)>) -> Seq<(Seq<char>, SettingView)> {
    Seq::new(v.len(), |i: int| (v[i].0@, setting_view(v[i].1)))
}

fn push_update(v: &mut Vec<(String, SettingValue)>, key: &str, value: SettingValue)
    ensures
        updates_view(final(v)@) == updates_view(old(v)@).push((key@, setting_view(value))),
{
    let ghost before = v@;
    v.push((owned(key), value));
    assert(updates_view(v@) =~= updates_view(before).push((key@, setting_view(value))));
}

/// Appends `(key, value)` to `s` when the setting is present.
pub open spec fn with_text(s: Seq<(Seq<char>, SettingView)>, key: Seq<char>, o: Option<String>) -> Seq<(Seq<char>, SettingView)> {
    match o {
        Some(v) => s.push((key, SettingView::Text(v@))),
        None => s,
    }
}

pub open spec fn with_flag(s: Seq<(Seq<char>, SettingView)>, key: Seq<char>, o: Option<bool>) -> Seq<(Seq<char>, SettingView)> {
    match o {
        Some(v) => s.push((key, SettingView::Flag(v))),
        None => s,
    }
}

pub open spec fn with_number(s: Seq<(Seq<char>, SettingView)>, key: Seq<char>, o: Option<int>) -> Seq<(Seq<char>, SettingView)> {
    match o {
        Some(v) => s.push((key, SettingView::Number(v))),
        None => s,
    }
}

pub open spec fn num_u16(o: Option<u16>) -> Option<int> {
    match o {
        Some(v) => Some(v as int),
        None => None,
    }
}

pub open spec fn num_u32(o: Option<u32>) -> Option<int> {
    match o {
        Some(v) => Some(v as int),
        None => None,
    }
}

pub open spec fn num_i32(o: Option<i32>) -> Option<int> {
    match o {
        Some(v) => Some(v as int),
        None => None,
    }
}

pub open spec fn server_name_updates(s: Seq<(Seq<char>, SettingView)>, o: Option<String>) -> Seq<(Seq<char>, SettingView)> {
    match o {
        Some(v) => s.push(("ServerName"@, SettingView::Text(v@))).push(("UseServerName"@, SettingView::Flag(true))),
        None => s,
    }
}

pub open spec fn motd_updates(s: Seq<(Seq<char>, SettingView)>, o: Option<String>) -> Seq<(Seq<char>, SettingView)> {
    match o {
        Some(v) => s.push(("Motd"@, SettingView::Text(v@))),
        None => s,
    }
}

pub open spec fn settings_stage0(s: Seq<(Seq<char>, SettingView)>, c: ServerConfig) -> Seq<(Seq<char>, SettingView)> {
    let t0 = server_name_updates(s, c.server_name);
    let t1 = with_number(t0, "ServerPort"@, num_u16(c.port));
    let t2 = with_number(t1, "MaxSlots"@, num_i32(c.max_players));
    let t3 = with_text(t2, "ServerPassword"@, c.server_password);
    t3
}

pub open spec fn settings_stage1(s: Seq<(Seq<char>, SettingView)>, c: ServerConfig) -> Seq<(Seq<char>, SettingView)> {
    let t0 = with_flag(s, "EnableWhitelist"@, c.enable_whitelist);
    let t1 = with_text(t0, "PvPMode"@, c.pvp_mode);
    let t2 = with_flag(t1, "SpawnProtection"@, c.spawn_protection);
    let t3 = with_number(t2, "SpawnProtectionRadius"@, num_u32(c.spawn_protection_radius));
    t3
}

pub open spec fn settings_stage2(s: Seq<(Seq<char>, SettingView)>, c: ServerConfig) -> Seq<(Seq<char>, SettingView)> {
    let t0 = with_flag(s, "ServerSideCharacter"@, c.server_side_character);
    let t1 = with_flag(t0, "DisableBuild"@, c.disable_build);
    let t2 = with_flag(t1, "DisableClownBombs"@, c.disable_clown_bombs);
    let t3 = with_flag(t2, "DisableDungeonGuardian"@, c.disable_dungeon_guardian);
    t3
}

pub open spec fn settings_stage3(s: Seq<(Seq<char>, SettingView)>, c: ServerConfig) -> Seq<(Seq<char>, SettingView)> {
    let t0 = with_flag(s, "DisableTombstones"@, c.disable_tombstones);
    let t1 = with_text(t0, "ForceTime"@, c.force_time);
    let t2 = with_flag(t1, "DisableInvisPvP"@, c.disable_invisible_pvp);
    let t3 = with_flag(t2, "EnableAntiCheat"@, c.anti_cheat);
    t3
}

pub open spec fn settings_stage4(s: Seq<(Seq<char>, SettingView)>, c: ServerConfig) -> Seq<(Seq<char>, SettingView)> {
    let t0 = with_number(s, "KickOnDamageInflicted"@, num_i32(c.kick_on_damage_inflicted));
    let t1 = with_number(t0, "KickOnDamageReceived"@, num_i32(c.kick_on_damage_received));
    let t2 = with_flag(t1, "RangeChecks"@, c.range_checks);
    let t3 = with_flag(t2, "DisablePlayerCountReporting"@, c.disable_player_count_reporting);
    t3
}

pub open spec fn settings_stage5(s: Seq<(Seq<char>, SettingView)>, c: ServerConfig) -> Seq<(Seq<char>, SettingView)> {
    let t0 = with_flag(s, "RestApiEnabled"@, c.rest_api_enabled);
    let t1 = with_number(t0, "RestApiPort"@, num_u16(c.rest_api_port));
    let t2 = motd_updates(t1, c.motd);
    let t3 = with_text(t2, "ServerFullNoReserveReason"@, c.server_full_no_reserve_reason);
    t3
}

pub open spec fn settings_stage6(s: Seq<(Seq<char>, SettingView)>, c: ServerConfig) -> Seq<(Seq<char>, SettingView)> {
    let t0 = with_flag(s, "HardcoreOnly"@, c.hard_core_only);
    let t1 = with_flag(t0, "MediumcoreOnly"@, c.medium_core_only);
    let t2 = with_flag(t1, "SoftcoreOnly"@, c.soft_core_only);
    t2
}

/// The TShock settings a configuration writes, in the order they are
/// written; a key written twice ends with its later value.
pub open spec fn settings_updates(c: ServerConfig) -> Seq<(Seq<char>, SettingView)> {
    settings_stage6(settings_stage5(settings_stage4(settings_stage3(settings_stage2(settings_stage1(settings_stage0(Seq::empty(), c), c), c), c), c), c), c)
}

impl ServerConfig {
    fn push_stage0(&self, v: &mut Vec<(String, SettingValue)>)
        ensures
            updates_view(final(v)@) == settings_stage0(updates_view(old(v)@), *self),
    {
        match &self.server_name {
            Some(x) => {
                push_update(v, "ServerName", SettingValue::Text(x.clone()));
                push_update(v, "UseServerName", SettingValue::Flag(true));
            },
            None => {},
        }
        match self.port {
            Some(x) => push_update(v, "ServerPort", SettingValue::Number(x as i64)),
            None => {},
        }
        match self.max_players {
            Some(x) => push_update(v, "MaxSlots", SettingValue::Number(x as i64)),
            None => {},
        }
        match &self.server_password {
            Some(x) => push_update(v, "ServerPassword", SettingValue::Text(x.clone())),
            None => {},
        }
    }

    fn push_stage1(&self, v: &mut Vec<(String, SettingValue)>)
        ensures
            updates_view(final(v)@) == settings_stage1(updates_view(old(v)@), *self),
    {
        match self.enable_whitelist {
            Some(x) => push_update(v, "EnableWhitelist", SettingValue::Flag(x)),
            None => {},
        }
        match &self.pvp_mode {
            Some(x) => push_update(v, "PvPMode", SettingValue::Text(x.clone())),
            None => {},
        }
        match self.spawn_protection {
            Some(x) => push_update(v, "SpawnProtection", SettingValue::Flag(x)),
            None => {},
        }
        match self.spawn_protection_radius {
            Some(x) => push_update(v, "SpawnProtectionRadius", SettingValue::Number(x as i64)),
            None => {},
        }
    }

    fn push_stage2(&self, v: &mut Vec<(String, SettingValue)>)
        ensures
            updates_view(final(v)@) == settings_stage2(updates_view(old(v)@), *self),
    {
        match self.server_side_character {
            Some(x) => push_update(v, "ServerSideCharacter", SettingValue::Flag(x)),
            None => {},
        }
        match self.disable_build {
            Some(x) => push_update(v, "DisableBuild", SettingValue::Flag(x)),
            None => {},
        }
        match self.disable_clown_bombs {
            Some(x) => push_update(v, "DisableClownBombs", SettingValue::Flag(x)),
            None => {},
        }
        match self.disable_dungeon_guardian {
            Some(x) => push_update(v, "DisableDungeonGuardian", SettingValue::Flag(x)),
            None => {},
        }
    }

    fn push_stage3(&self, v: &mut Vec<(String, SettingValue)>)
        ensures
            updates_view(final(v)@) == settings_stage3(updates_view(old(v)@), *self),
    {
        match self.disable_tombstones {
            Some(x) => push_update(v, "DisableTombstones", SettingValue::Flag(x)),
            None => {},
        }
        match &self.force_time {
            Some(x) => push_update(v, "ForceTime", SettingValue::Text(x.clone())),
            None => {},
        }
        match self.disable_invisible_pvp {
            Some(x) => push_update(v, "DisableInvisPvP", SettingValue::Flag(x)),
            None => {},
        }
        match self.anti_cheat {
            Some(x) => push_update(v, "EnableAntiCheat", SettingValue::Flag(x)),
            None => {},
        }
    }

    fn push_stage4(&self, v: &mut Vec<(String, SettingValue)>)
        ensures
            updates_view(final(v)@) == settings_stage4(updates_view(old(v)@), *self),
    {
        match self.kick_on_damage_inflicted {
            Some(x) => push_update(v, "KickOnDamageInflicted", SettingValue::Number(x as i64)),
            None => {},
        }
        match self.kick_on_damage_received {
            Some(x) => push_update(v, "KickOnDamageReceived", SettingValue::Number(x as i64)),
            None => {},
        }
        match self.range_checks {
            Some(x) => push_update(v, "RangeChecks", SettingValue::Flag(x)),
            None => {},
        }
        match self.disable_player_count_reporting {
            Some(x) => push_update(v, "DisablePlayerCountReporting", SettingValue::Flag(x)),
            None => {},
        }
    }

    fn push_stage5(&self, v: &mut Vec<(String, SettingValue)>)
        ensures
            updates_view(final(v)@) == settings_stage5(updates_view(old(v)@), *self),
    {
        match self.rest_api_enabled {
            Some(x) => push_update(v, "RestApiEnabled", SettingValue::Flag(x)),
            None => {},
        }
        match self.rest_api_port {
            Some(x) => push_update(v, "RestApiPort", SettingValue::Number(x as i64)),
            None => {},
        }
        match &self.motd {
            Some(x) => push_update(v, "Motd", SettingValue::Text(x.clone())),
            None => {},
        }
        match &self.server_full_no_reserve_reason {
            Some(x) => push_update(v, "ServerFullNoReserveReason", SettingValue::Text(x.clone())),
            None => {},
        }
    }

    fn push_stage6(&self, v: &mut Vec<(String, SettingValue)>)
        ensures
            updates_view(final(v)@) == settings_stage6(updates_view(old(v)@), *self),
    {
        match self.hard_core_only {
            Some(x) => push_update(v, "HardcoreOnly", SettingValue::Flag(x)),
            None => {},
        }
        match self.medium_core_only {
            Some(x) => push_update(v, "MediumcoreOnly", SettingValue::Flag(x)),
            None => {},
        }
        match self.soft_core_only {
            Some(x) => push_update(v, "SoftcoreOnly", SettingValue::Flag(x)),
            None => {},
        }
    }

    /// The `(key, value)` pairs this configuration merges into TShock's
    /// `Settings` object, in order; a key that occurs twice takes its later
    /// value (`ServerFullNoReserveReason` after `motd`).
    pub fn tshock_settings_updates(&self) -> (r: Vec<(String, SettingValue)>)
        ensures
            updates_view(r@) == settings_updates(*self),
    {
        let mut v: Vec<(String, SettingValue)> = Vec::new();
        assert(updates_view(v@) =~= Seq::<(Seq<char>, SettingView)>::empty());
        self.push_stage0(&mut v);
        self.push_stage1(&mut v);
        self.push_stage2(&mut v);
        self.push_stage3(&mut v);
        self.push_stage4(&mut v);
        self.push_stage5(&mut v);
        self.push_stage6(&mut v);
        v
    }
}

/// A settings object after writing `pairs` into it in order: each key takes
/// the value written last.
pub open spec fn apply_pairs(m: Map<Seq<char>, SettingView>, pairs: Seq<(Seq<char>, SettingView)>) -> Map<
    Seq<char>,
    SettingView,
>
    decreases pairs.len(),
{
    if pairs.len() == 0 {
        m
    } else {
        apply_pairs(m, pairs.drop_last()).insert(pairs.last().0, pairs.last().1)
    }
}

/// A JSON value that holds a setting: a string for text, a boolean for a
/// flag, a number written in decimal for a number.
pub open spec fn json_is_setting(j: JsonValue, v: SettingView) -> bool {
    match v {
        SettingView::Text(t) => j matches JsonValue::Str(x) && x@ == t,
        SettingView::Flag(b) => j == JsonValue::Bool(b),
        SettingView::Number(n) => j matches JsonValue::Number(x) && x@ == signed_decimal(n),
    }
}

/// The JSON value of a setting.
pub fn setting_json(v: &SettingValue) -> (r: JsonValue)
    ensures
        json_is_setting(r, setting_view(*v)),
{
    match v {
        SettingValue::Text(t) => JsonValue::Str(owned(t.as_str())),
        SettingValue::Flag(b) => JsonValue::Bool(*b),
        SettingValue::Number(n) => JsonValue::Number(i64_text(*n)),
    }
}

/// The entry `k` of TShock's settings after a merge: the value the updates
/// write for `k` (the last one), else the entry that was there.
pub open spec fn merged_entry(
    after: Option<JsonValue>,
    before: Option<JsonValue>,
    updates: Seq<(Seq<char>, SettingView)>,
    k: Seq<char>,
) -> bool {
    let m = apply_pairs(Map::empty(), updates);
    if m.contains_key(k) {
        after matches Some(j) && json_is_setting(j, m[k])
    } else {
        after == before
    }
}

impl ServerConfig {
    /// Merges this configuration into the members of TShock's `Settings`
    /// object: each setting it holds is written (see `settings_updates`),
    /// every other entry stays.
    pub fn apply_to_tshock_settings(&self, settings: &mut Vec<(String, JsonValue)>)
        ensures
            forall|k: Seq<char>|
                #![trigger obj_get(final(settings)@, k)]
                merged_entry(obj_get(final(settings)@, k), obj_get(old(settings)@, k), settings_updates(*self), k),
    {
        let updates = self.tshock_settings_updates();
        let ghost upd = updates_view(updates@);
        let ghost base = settings@;
        let mut i: usize = 0;
        while i < updates.len()
            invariant
                i <= updates@.len(),
                upd == updates_view(updates@),
                forall|k: Seq<char>|
                    #![trigger obj_get(settings@, k)]
                    merged_entry(obj_get(settings@, k), obj_get(base, k), upd.take(i as int), k),
            decreases updates@.len() - i,
        {
            let ghost prev = settings@;
            let j = setting_json(&updates[i].1);
            set_member(settings, updates[i].0.as_str(), j);
            proof {
                assert(upd.take(i + 1).drop_last() =~= upd.take(i as int));
                assert(upd.take(i + 1).last() == upd[i as int]);
                assert(upd[i as int] == (updates@[i as int].0@, setting_view(updates@[i as int].1)));
                assert forall|k: Seq<char>|
                    #![trigger obj_get(settings@, k)]
                    merged_entry(obj_get(settings@, k), obj_get(base, k), upd.take(i + 1), k) by {}
            }
            i = i + 1;
        }
        assert(upd.take(updates@.len() as int) =~= upd);
    }
}

/// The members of TShock's `config.json` as read from its text: none when
/// there is no file, or when the text is not JSON or not a JSON object.
pub open spec fn config_members(text: Option<Seq<char>>) -> Seq<(String, JsonValue)> {
    match text {
        Some(t) => match parsed_json(t) {
            Some(JsonValue::Object(e)) => e@,
            _ => Seq::empty(),
        },
        None => Seq::empty(),
    }
}

/// The members of the `Settings` object of a document's members; none when
/// it is missing or not an object.
pub open spec fn settings_members(root: Seq<(String, JsonValue)>) -> Seq<(String, JsonValue)> {
    match obj_get(root, "Settings"@) {
        Some(JsonValue::Object(s)) => s@,
        _ => Seq::empty(),
    }
}

/// `after` is the document `before` with the updates merged into its
/// `Settings` object: every other member stays, and `Settings` is an object
/// whose entries are merged as `merged_entry` says.
pub open spec fn config_merged(
    after: JsonValue,
    before: Seq<(String, JsonValue)>,
    updates: Seq<(Seq<char>, SettingView)>,
) -> bool {
    &&& after matches JsonValue::Object(e) && forall|k: Seq<char>|
        k != "Settings"@ ==> #[trigger] obj_get(e@, k) == obj_get(before, k)
    &&& after matches JsonValue::Object(e) && obj_get(e@, "Settings"@) matches Some(JsonValue::Object(s))
        && forall|k: Seq<char>|
        #![trigger obj_get(s@, k)]
        merged_entry(obj_get(s@, k), obj_get(settings_members(before), k), updates, k)
}

/// TShock's `config.json` with a configuration merged into its `Settings`
/// (see `apply_to_tshock_settings`), from the file's text when there is one.
/// A text that is not JSON, or not an object, counts as an empty document,
/// and a `Settings` that is missing or not an object as empty settings.
pub fn merge_tshock_config(text: Option<String>, config: &ServerConfig) -> (r: JsonValue)
    ensures
        config_merged(r, config_members(opt_view(text)), settings_updates(*config)),
{
    let parsed = match &text {
        Some(t) => match parse_json(t.as_str()) {
            Ok(v) => Some(v),
            Err(_) => None,
        },
        None => None,
    };
    let mut members: Vec<(String, JsonValue)> = match parsed {
        Some(JsonValue::Object(e)) => e,
        _ => Vec::new(),
    };
    let ghost before = members@;
    assert(before == config_members(opt_view(text)));
    let mut settings: Vec<(String, JsonValue)> = match take_member(&mut members, "Settings") {
        Some(JsonValue::Object(s)) => s,
        _ => Vec::new(),
    };
    assert(settings@ == settings_members(before));
    let ghost base = settings@;
    config.apply_to_tshock_settings(&mut settings);
    let ghost merged = settings@;
    set_member(&mut members, "Settings", JsonValue::Object(settings));
    let r = JsonValue::Object(members);
    proof {
        assert(obj_get(members@, "Settings"@) == Some(JsonValue::Object(settings)));
    }
    r
}

/// The text TShock's `config.json` is written with (pretty-printed JSON); a
/// value that cannot be written is refused with `Failed to serialize: `.
pub fn tshock_config_text(v: &JsonValue) -> (r: Result<String, AppError>)
    ensures
        r matches Ok(t) ==> t@ == pretty_json(*v),
        r matches Err(e) ==> (e matches AppError::BadRequest(m) && starts_with(m@, "Failed to serialize: "@)),
{
    match json_pretty(v) {
        Ok(t) => Ok(t),
        Err(e) => {
            let m = concat2("Failed to serialize: ", e.as_str());
            proof {
                assert(m@.subrange(0, "Failed to serialize: "@.len() as int) =~= "Failed to serialize: "@);
            }
            Err(AppError::BadRequest(m))
        },
    }
}

/// The defaults: 8 players, normal PvP and time, spawn protection of 10,
/// tombstones off, anti-cheat and range checks on, REST API off on port 7878,
/// every other flag off, and the rest unset.
pub open spec fn is_default_server_config(c: ServerConfig) -> bool {
    &&& c.server_name is None
    &&& c.port is None
    &&& c.max_players == Some(8i32)
    &&& c.world_name is None
    &&& c.server_password is None
    &&& c.difficulty is None
    &&& c.auto_create is None
    &&& c.world_width is None
    &&& c.world_height is None
    &&& c.seed is None
    &&& c.enable_whitelist is None
    &&& (c.pvp_mode matches Some(x) && x@ == "normal"@)
    &&& c.spawn_protection == Some(true)
    &&& c.spawn_protection_radius == Some(10u32)
    &&& c.npc_spawn_protection_radius is None
    &&& c.hard_core_only == Some(false)
    &&& c.medium_core_only == Some(false)
    &&& c.soft_core_only == Some(false)
    &&& c.server_side_character == Some(false)
    &&& c.disable_build == Some(false)
    &&& c.disable_clown_bombs == Some(false)
    &&& c.disable_dungeon_guardian == Some(false)
    &&& c.disable_tombstones == Some(true)
    &&& (c.force_time matches Some(x) && x@ == "normal"@)
    &&& c.disable_invisible_pvp == Some(false)
    &&& c.anti_cheat == Some(true)
    &&& c.kick_on_damage_inflicted == Some(0i32)
    &&& c.kick_on_damage_received == Some(0i32)
    &&& c.range_checks == Some(true)
    &&& c.disable_player_count_reporting == Some(false)
    &&& c.rest_api_enabled == Some(false)
    &&& c.rest_api_port == Some(7878u16)
    &&& c.motd is None
    &&& c.server_full_no_reserve_reason is None
}

impl Default for ServerConfig {
    fn default() -> (r: Self)
        ensures
            is_default_server_config(r),
    {
        ServerConfig {
            server_name: None,
            port: None,
            max_players: Some(8),
            world_name: None,
            server_password: None,
            difficulty: None,
            auto_create: None,
            world_width: None,
            world_height: None,
            seed: None,
            enable_whitelist: None,
            pvp_mode: Some(owned("normal")),
            spawn_protection: Some(true),
            spawn_protection_radius: Some(10),
            npc_spawn_protection_radius: None,
            hard_core_only: Some(false),
            medium_core_only: Some(false),
            soft_core_only: Some(false),
            server_side_character: Some(false),
            disable_build: Some(false),
            disable_clown_bombs: Some(false),
            disable_dungeon_guardian: Some(false),
            disable_tombstones: Some(true),
            force_time: Some(owned("normal")),
            disable_invisible_pvp: Some(false),
            anti_cheat: Some(true),
            kick_on_damage_inflicted: Some(0),
            kick_on_damage_received: Some(0),
            range_checks: Some(true),
            disable_player_count_reporting: Some(false),
            rest_api_enabled: Some(false),
            rest_api_port: Some(7878),
            motd: None,
            server_full_no_reserve_reason: None,
        }
    }
}
/// A named starting configuration offered when a server is set up.
#[derive(Debug)]
pub struct ServerConfigTemplate {
    pub name: String,
    pub description: String,
    pub config: ServerConfig,
}

/// The three templates: Survival (classic, no auto-create, whitelist off),
/// Creative (auto-create, no NPC spawn protection) and PvP (expert,
/// whitelist on), each otherwise with the defaults.
pub fn get_templates() -> (r: Vec<ServerConfigTemplate>)
    ensures
        r.len() == 3,
        r[0].name@ == "Survival"@,
        r[0].description@ == "Standard survival mode"@,
        r[0].config.difficulty == Some(0u32),
        r[0].config.auto_create == Some(false),
        r[0].config.enable_whitelist == Some(false),
        r[0].config.npc_spawn_protection_radius is None,
        r[1].name@ == "Creative"@,
        r[1].description@ == "Creative/sandbox mode"@,
        r[1].config.difficulty == Some(0u32),
        r[1].config.auto_create == Some(true),
        r[1].config.npc_spawn_protection_radius == Some(0u32),
        r[1].config.enable_whitelist is None,
        r[2].name@ == "PvP"@,
        r[2].description@ == "PvP-focused server"@,
        r[2].config.difficulty == Some(1u32),
        r[2].config.enable_whitelist == Some(true),
        r[2].config.auto_create is None,
        r[2].config.npc_spawn_protection_radius is None,
        forall|i: int|
            0 <= i < 3 ==> {
                let c = #[trigger] r[i].config;
                is_default_server_config(ServerConfig {
                    difficulty: None,
                    auto_create: None,
                    enable_whitelist: None,
                    npc_spawn_protection_radius: None,
                    ..c
                })
            },
{
    let mut survival = ServerConfig::default();
    survival.difficulty = Some(0);
    survival.auto_create = Some(false);
    survival.enable_whitelist = Some(false);
    let mut creative = ServerConfig::default();
    creative.difficulty = Some(0);
    creative.auto_create = Some(true);
    creative.npc_spawn_protection_radius = Some(0);
    let mut pvp = ServerConfig::default();
    pvp.difficulty = Some(1);
    pvp.enable_whitelist = Some(true);
    let mut v: Vec<ServerConfigTemplate> = Vec::new();
    v.push(
        ServerConfigTemplate {
            name: owned("Survival"),
            description: owned("Standard survival mode"),
            config: survival,
        },
    );
    v.push(
        ServerConfigTemplate {
            name: owned("Creative"),
            description: owned("Creative/sandbox mode"),
            config: creative,
        },
    );
    v.push(
        ServerConfigTemplate {
            name: owned("PvP"),
            description: owned("PvP-focused server"),
            config: pvp,
        },
    );
    v
}

/// A server's TShock configuration directory: `<data_dir>/servers/<id>/tshock`.
pub fn config_dir(data_dir: &str, server_id: &str) -> (r: String)
    ensures
        r@ == path_join(path_join(path_join(data_dir@, "servers"@), server_id@), "tshock"@),
{
    let a = join(data_dir, "servers");
    let b = join(a.as_str(), server_id);
    join(b.as_str(), "tshock")
}

/// The configuration shown for a server: the panel's own file when there is
/// one (`BadRequest` when it is not valid), else TShock's `config.json` when
/// it reads as a configuration, else the defaults. `panel` is `None` without
/// the panel's file and holds the parse error otherwise; `tshock` is `None`
/// without `config.json` and `Some(None)` when it does not read.
pub fn choose_server_config(
    panel: Option<Result<ServerConfig, String>>,
    tshock: Option<Option<ServerConfig>>,
) -> (r: Result<ServerConfig, AppError>)
    ensures
        panel matches Some(Ok(c)) ==> r == Ok::<ServerConfig, AppError>(c),
        panel matches Some(Err(e)) ==> (r matches Err(AppError::BadRequest(m)) && m@ == "Invalid JSON: "@ + e@),
        panel is None ==> (tshock matches Some(Some(c)) ==> r == Ok::<ServerConfig, AppError>(c)),
        panel is None && !(tshock matches Some(Some(_))) ==> (r matches Ok(c) && is_default_server_config(c)),
{
    match panel {
        Some(Ok(c)) => Ok(c),
        Some(Err(e)) => Err(AppError::BadRequest(concat2("Invalid JSON: ", e.as_str()))),
        None => match tshock {
            Some(Some(c)) => Ok(c),
            _ => Ok(ServerConfig::default()),
        },
    }
}

// ───────────────────────── laws ─────────────────────────

/// The setting a text field asks for.
pub open spec fn text_setting(o: Option<String>) -> Option<SettingView> {
    match o {
        Some(v) => Some(SettingView::Text(v@)),
        None => None,
    }
}

/// The setting a flag field asks for.
pub open spec fn flag_setting(o: Option<bool>) -> Option<SettingView> {
    match o {
        Some(v) => Some(SettingView::Flag(v)),
        None => None,
    }
}

/// The setting a number field asks for.
pub open spec fn number_setting(o: Option<int>) -> Option<SettingView> {
    match o {
        Some(v) => Some(SettingView::Number(v)),
        None => None,
    }
}

/// The settings written hold `k` with the value `o` when there is one, and
/// do not touch `k` when there is none.
pub open spec fn holds_setting(m: Map<Seq<char>, SettingView>, k: Seq<char>, o: Option<SettingView>) -> bool {
    match o {
        Some(v) => m.contains_key(k) && m[k] == v,
        None => !m.contains_key(k),
    }
}

proof fn lemma_apply_push(m: Map<Seq<char>, SettingView>, s: Seq<(Seq<char>, SettingView)>, p: (Seq<char>, SettingView))
    ensures
        apply_pairs(m, s.push(p)) == apply_pairs(m, s).insert(p.0, p.1),
{
    assert(s.push(p).drop_last() =~= s);
}

/// The value written for a key, as a map update.
#[verifier::opaque]
pub open spec fn put(m: Map<Seq<char>, SettingView>, k: Seq<char>, o: Option<SettingView>) -> Map<Seq<char>, SettingView> {
    match o {
        Some(v) => m.insert(k, v),
        None => m,
    }
}

proof fn lemma_with_text(m: Map<Seq<char>, SettingView>, s: Seq<(Seq<char>, SettingView)>, k: Seq<char>, o: Option<String>)
    ensures
        apply_pairs(m, with_text(s, k, o)) == put(apply_pairs(m, s), k, text_setting(o)),
{
    reveal(put);
    if let Some(v) = o {
        lemma_apply_push(m, s, (k, SettingView::Text(v@)));
    }
}

proof fn lemma_with_flag(m: Map<Seq<char>, SettingView>, s: Seq<(Seq<char>, SettingView)>, k: Seq<char>, o: Option<bool>)
    ensures
        apply_pairs(m, with_flag(s, k, o)) == put(apply_pairs(m, s), k, flag_setting(o)),
{
    reveal(put);
    if let Some(v) = o {
        lemma_apply_push(m, s, (k, SettingView::Flag(v)));
    }
}

proof fn lemma_with_number(m: Map<Seq<char>, SettingView>, s: Seq<(Seq<char>, SettingView)>, k: Seq<char>, o: Option<int>)
    ensures
        apply_pairs(m, with_number(s, k, o)) == put(apply_pairs(m, s), k, number_setting(o)),
{
    reveal(put);
    if let Some(v) = o {
        lemma_apply_push(m, s, (k, SettingView::Number(v)));
    }
}

/// Writing a key leaves every other key as it was; writing a value makes
/// the key hold it; writing nothing changes nothing.
proof fn lemma_put_facts()
    ensures
        forall|m: Map<Seq<char>, SettingView>, k: Seq<char>, o: Option<SettingView>, x: Seq<char>|
            k != x ==> #[trigger] put(m, k, o).contains_key(x) == m.contains_key(x),
        forall|m: Map<Seq<char>, SettingView>, k: Seq<char>, o: Option<SettingView>, x: Seq<char>|
            k != x ==> #[trigger] put(m, k, o)[x] == m[x],
        forall|m: Map<Seq<char>, SettingView>, k: Seq<char>, o: Option<SettingView>|
            #[trigger] put(m, k, o).contains_key(k) == (o is Some || m.contains_key(k)),
        forall|m: Map<Seq<char>, SettingView>, k: Seq<char>, o: Option<SettingView>|
            o is Some ==> #[trigger] put(m, k, o)[k] == o->0,
{
    reveal(put);
}

/// The length, first and eighth character of each TShock setting key: enough
/// to tell any two of them apart.
proof fn lemma_setting_keys_spelled()
    ensures
        "ServerName"@.len() == 10 && "ServerName"@[0] == 'S' && "ServerName"@[7] == 'a',
        "ServerPort"@.len() == 10 && "ServerPort"@[0] == 'S' && "ServerPort"@[7] == 'o',
        "MaxSlots"@.len() == 8 && "MaxSlots"@[0] == 'M' && "MaxSlots"@[7] == 's',
        "ServerPassword"@.len() == 14 && "ServerPassword"@[0] == 'S' && "ServerPassword"@[7] == 'a',
        "EnableWhitelist"@.len() == 15 && "EnableWhitelist"@[0] == 'E' && "EnableWhitelist"@[7] == 'h',
        "PvPMode"@.len() == 7 && "PvPMode"@[0] == 'P',
        "SpawnProtection"@.len() == 15 && "SpawnProtection"@[0] == 'S' && "SpawnProtection"@[7] == 'o',
        "SpawnProtectionRadius"@.len() == 21 && "SpawnProtectionRadius"@[0] == 'S' && "SpawnProtectionRadius"@[7] == 'o',
        "ServerSideCharacter"@.len() == 19 && "ServerSideCharacter"@[0] == 'S' && "ServerSideCharacter"@[7] == 'i',
        "DisableBuild"@.len() == 12 && "DisableBuild"@[0] == 'D' && "DisableBuild"@[7] == 'B',
        "DisableClownBombs"@.len() == 17 && "DisableClownBombs"@[0] == 'D' && "DisableClownBombs"@[7] == 'C',
        "DisableDungeonGuardian"@.len() == 22 && "DisableDungeonGuardian"@[0] == 'D' && "DisableDungeonGuardian"@[7] == 'D',
        "DisableTombstones"@.len() == 17 && "DisableTombstones"@[0] == 'D' && "DisableTombstones"@[7] == 'T',
        "ForceTime"@.len() == 9 && "ForceTime"@[0] == 'F' && "ForceTime"@[7] == 'm',
        "DisableInvisPvP"@.len() == 15 && "DisableInvisPvP"@[0] == 'D' && "DisableInvisPvP"@[7] == 'I',
        "EnableAntiCheat"@.len() == 15 && "EnableAntiCheat"@[0] == 'E' && "EnableAntiCheat"@[7] == 'n',
        "KickOnDamageInflicted"@.len() == 21 && "KickOnDamageInflicted"@[0] == 'K' && "KickOnDamageInflicted"@[7] == 'a',
        "KickOnDamageReceived"@.len() == 20 && "KickOnDamageReceived"@[0] == 'K' && "KickOnDamageReceived"@[7] == 'a',
        "RangeChecks"@.len() == 11 && "RangeChecks"@[0] == 'R' && "RangeChecks"@[7] == 'e',
        "DisablePlayerCountReporting"@.len() == 27 && "DisablePlayerCountReporting"@[0] == 'D' && "DisablePlayerCountReporting"@[7] == 'P',
        "RestApiEnabled"@.len() == 14 && "RestApiEnabled"@[0] == 'R' && "RestApiEnabled"@[7] == 'E',
        "RestApiPort"@.len() == 11 && "RestApiPort"@[0] == 'R' && "RestApiPort"@[7] == 'P',
        "Motd"@.len() == 4 && "Motd"@[0] == 'M',
        "ServerFullNoReserveReason"@.len() == 25 && "ServerFullNoReserveReason"@[0] == 'S' && "ServerFullNoReserveReason"@[7] == 'u',
        "HardcoreOnly"@.len() == 12 && "HardcoreOnly"@[0] == 'H' && "HardcoreOnly"@[7] == 'e',
        "MediumcoreOnly"@.len() == 14 && "MediumcoreOnly"@[0] == 'M' && "MediumcoreOnly"@[7] == 'o',
        "SoftcoreOnly"@.len() == 12 && "SoftcoreOnly"@[0] == 'S' && "SoftcoreOnly"@[7] == 'e',
        "UseServerName"@.len() == 13 && "UseServerName"@[0] == 'U' && "UseServerName"@[7] == 'e',
{
    reveal_strlit("ServerName");
    reveal_strlit("ServerPort");
    reveal_strlit("MaxSlots");
    reveal_strlit("ServerPassword");
    reveal_strlit("EnableWhitelist");
    reveal_strlit("PvPMode");
    reveal_strlit("SpawnProtection");
    reveal_strlit("SpawnProtectionRadius");
    reveal_strlit("ServerSideCharacter");
    reveal_strlit("DisableBuild");
    reveal_strlit("DisableClownBombs");
    reveal_strlit("DisableDungeonGuardian");
    reveal_strlit("DisableTombstones");
    reveal_strlit("ForceTime");
    reveal_strlit("DisableInvisPvP");
    reveal_strlit("EnableAntiCheat");
    reveal_strlit("KickOnDamageInflicted");
    reveal_strlit("KickOnDamageReceived");
    reveal_strlit("RangeChecks");
    reveal_strlit("DisablePlayerCountReporting");
    reveal_strlit("RestApiEnabled");
    reveal_strlit("RestApiPort");
    reveal_strlit("Motd");
    reveal_strlit("ServerFullNoReserveReason");
    reveal_strlit("HardcoreOnly");
    reveal_strlit("MediumcoreOnly");
    reveal_strlit("SoftcoreOnly");
    reveal_strlit("UseServerName");
}

/// What stage 0 of the settings writes on top of `m`.
spec fn stage_map0(m: Map<Seq<char>, SettingView>, c: ServerConfig) -> Map<Seq<char>, SettingView> {
    put(put(put(put(put(m, "ServerName"@, text_setting(c.server_name)), "UseServerName"@, match c.server_name { Some(_) => Some(SettingView::Flag(true)), None => None }), "ServerPort"@, number_setting(num_u16(c.port))), "MaxSlots"@, number_setting(num_i32(c.max_players))), "ServerPassword"@, text_setting(c.server_password))
}

/// What stage 1 of the settings writes on top of `m`.
spec fn stage_map1(m: Map<Seq<char>, SettingView>, c: ServerConfig) -> Map<Seq<char>, SettingView> {
    put(put(put(put(m, "EnableWhitelist"@, flag_setting(c.enable_whitelist)), "PvPMode"@, text_setting(c.pvp_mode)), "SpawnProtection"@, flag_setting(c.spawn_protection)), "SpawnProtectionRadius"@, number_setting(num_u32(c.spawn_protection_radius)))
}

/// What stage 2 of the settings writes on top of `m`.
spec fn stage_map2(m: Map<Seq<char>, SettingView>, c: ServerConfig) -> Map<Seq<char>, SettingView> {
    put(put(put(put(m, "ServerSideCharacter"@, flag_setting(c.server_side_character)), "DisableBuild"@, flag_setting(c.disable_build)), "DisableClownBombs"@, flag_setting(c.disable_clown_bombs)), "DisableDungeonGuardian"@, flag_setting(c.disable_dungeon_guardian))
}

/// What stage 3 of the settings writes on top of `m`.
spec fn stage_map3(m: Map<Seq<char>, SettingView>, c: ServerConfig) -> Map<Seq<char>, SettingView> {
    put(put(put(put(m, "DisableTombstones"@, flag_setting(c.disable_tombstones)), "ForceTime"@, text_setting(c.force_time)), "DisableInvisPvP"@, flag_setting(c.disable_invisible_pvp)), "EnableAntiCheat"@, flag_setting(c.anti_cheat))
}

/// What stage 4 of the settings writes on top of `m`.
spec fn stage_map4(m: Map<Seq<char>, SettingView>, c: ServerConfig) -> Map<Seq<char>, SettingView> {
    put(put(put(put(m, "KickOnDamageInflicted"@, number_setting(num_i32(c.kick_on_damage_inflicted))), "KickOnDamageReceived"@, number_setting(num_i32(c.kick_on_damage_received))), "RangeChecks"@, flag_setting(c.range_checks)), "DisablePlayerCountReporting"@, flag_setting(c.disable_player_count_reporting))
}

/// What stage 5 of the settings writes on top of `m`.
spec fn stage_map5(m: Map<Seq<char>, SettingView>, c: ServerConfig) -> Map<Seq<char>, SettingView> {
    put(put(put(put(m, "RestApiEnabled"@, flag_setting(c.rest_api_enabled)), "RestApiPort"@, number_setting(num_u16(c.rest_api_port))), "Motd"@, text_setting(c.motd)), "ServerFullNoReserveReason"@, text_setting(c.server_full_no_reserve_reason))
}

/// What stage 6 of the settings writes on top of `m`.
spec fn stage_map6(m: Map<Seq<char>, SettingView>, c: ServerConfig) -> Map<Seq<char>, SettingView> {
    put(put(put(m, "HardcoreOnly"@, flag_setting(c.hard_core_only)), "MediumcoreOnly"@, flag_setting(c.medium_core_only)), "SoftcoreOnly"@, flag_setting(c.soft_core_only))
}

/// The settings a configuration writes into empty settings, stage by stage.
spec fn written_settings(c: ServerConfig) -> Map<Seq<char>, SettingView> {
    stage_map6(stage_map5(stage_map4(stage_map3(stage_map2(stage_map1(stage_map0(Map::empty(), c), c), c), c), c), c), c)
}

proof fn lemma_written_settings(c: ServerConfig)
    ensures
        apply_pairs(Map::empty(), settings_updates(c)) == written_settings(c),
{
    reveal(put);
    let e = Map::<Seq<char>, SettingView>::empty();
    let s0 = Seq::<(Seq<char>, SettingView)>::empty();
    let s1 = server_name_updates(s0, c.server_name);
    if let Some(v) = c.server_name {
        lemma_apply_push(e, s0, ("ServerName"@, SettingView::Text(v@)));
        lemma_apply_push(e, s0.push(("ServerName"@, SettingView::Text(v@))), ("UseServerName"@, SettingView::Flag(true)));
    }
    let s2 = with_number(s1, "ServerPort"@, num_u16(c.port));
    lemma_with_number(e, s1, "ServerPort"@, num_u16(c.port));
    let s3 = with_number(s2, "MaxSlots"@, num_i32(c.max_players));
    lemma_with_number(e, s2, "MaxSlots"@, num_i32(c.max_players));
    let s4 = with_text(s3, "ServerPassword"@, c.server_password);
    lemma_with_text(e, s3, "ServerPassword"@, c.server_password);
    assert(settings_stage0(s0, c) == s4);
    let s5 = with_flag(s4, "EnableWhitelist"@, c.enable_whitelist);
    lemma_with_flag(e, s4, "EnableWhitelist"@, c.enable_whitelist);
    let s6 = with_text(s5, "PvPMode"@, c.pvp_mode);
    lemma_with_text(e, s5, "PvPMode"@, c.pvp_mode);
    let s7 = with_flag(s6, "SpawnProtection"@, c.spawn_protection);
    lemma_with_flag(e, s6, "SpawnProtection"@, c.spawn_protection);
    let s8 = with_number(s7, "SpawnProtectionRadius"@, num_u32(c.spawn_protection_radius));
    lemma_with_number(e, s7, "SpawnProtectionRadius"@, num_u32(c.spawn_protection_radius));
    assert(settings_stage1(s4, c) == s8);
    let s9 = with_flag(s8, "ServerSideCharacter"@, c.server_side_character);
    lemma_with_flag(e, s8, "ServerSideCharacter"@, c.server_side_character);
    let s10 = with_flag(s9, "DisableBuild"@, c.disable_build);
    lemma_with_flag(e, s9, "DisableBuild"@, c.disable_build);
    let s11 = with_flag(s10, "DisableClownBombs"@, c.disable_clown_bombs);
    lemma_with_flag(e, s10, "DisableClownBombs"@, c.disable_clown_bombs);
    let s12 = with_flag(s11, "DisableDungeonGuardian"@, c.disable_dungeon_guardian);
    lemma_with_flag(e, s11, "DisableDungeonGuardian"@, c.disable_dungeon_guardian);
    assert(settings_stage2(s8, c) == s12);
    let s13 = with_flag(s12, "DisableTombstones"@, c.disable_tombstones);
    lemma_with_flag(e, s12, "DisableTombstones"@, c.disable_tombstones);
    let s14 = with_text(s13, "ForceTime"@, c.force_time);
    lemma_with_text(e, s13, "ForceTime"@, c.force_time);
    let s15 = with_flag(s14, "DisableInvisPvP"@, c.disable_invisible_pvp);
    lemma_with_flag(e, s14, "DisableInvisPvP"@, c.disable_invisible_pvp);
    let s16 = with_flag(s15, "EnableAntiCheat"@, c.anti_cheat);
    lemma_with_flag(e, s15, "EnableAntiCheat"@, c.anti_cheat);
    assert(settings_stage3(s12, c) == s16);
    let s17 = with_number(s16, "KickOnDamageInflicted"@, num_i32(c.kick_on_damage_inflicted));
    lemma_with_number(e, s16, "KickOnDamageInflicted"@, num_i32(c.kick_on_damage_inflicted));
    let s18 = with_number(s17, "KickOnDamageReceived"@, num_i32(c.kick_on_damage_received));
    lemma_with_number(e, s17, "KickOnDamageReceived"@, num_i32(c.kick_on_damage_received));
    let s19 = with_flag(s18, "RangeChecks"@, c.range_checks);
    lemma_with_flag(e, s18, "RangeChecks"@, c.range_checks);
    let s20 = with_flag(s19, "DisablePlayerCountReporting"@, c.disable_player_count_reporting);
    lemma_with_flag(e, s19, "DisablePlayerCountReporting"@, c.disable_player_count_reporting);
    assert(settings_stage4(s16, c) == s20);
    let s21 = with_flag(s20, "RestApiEnabled"@, c.rest_api_enabled);
    lemma_with_flag(e, s20, "RestApiEnabled"@, c.rest_api_enabled);
    let s22 = with_number(s21, "RestApiPort"@, num_u16(c.rest_api_port));
    lemma_with_number(e, s21, "RestApiPort"@, num_u16(c.rest_api_port));
    let s23 = motd_updates(s22, c.motd);
    if let Some(v) = c.motd {
        lemma_apply_push(e, s22, ("Motd"@, SettingView::Text(v@)));
    }
    let s24 = with_text(s23, "ServerFullNoReserveReason"@, c.server_full_no_reserve_reason);
    lemma_with_text(e, s23, "ServerFullNoReserveReason"@, c.server_full_no_reserve_reason);
    assert(settings_stage5(s20, c) == s24);
    let s25 = with_flag(s24, "HardcoreOnly"@, c.hard_core_only);
    lemma_with_flag(e, s24, "HardcoreOnly"@, c.hard_core_only);
    let s26 = with_flag(s25, "MediumcoreOnly"@, c.medium_core_only);
    lemma_with_flag(e, s25, "MediumcoreOnly"@, c.medium_core_only);
    let s27 = with_flag(s26, "SoftcoreOnly"@, c.soft_core_only);
    lemma_with_flag(e, s26, "SoftcoreOnly"@, c.soft_core_only);
    assert(settings_stage6(s24, c) == s27);
    assert(settings_updates(c) == s27);
}

/// Stage 0 writes its own keys and leaves every other key as it was.
proof fn lemma_stage_map0(c: ServerConfig)
    ensures
        forall|m: Map<Seq<char>, SettingView>, x: Seq<char>|
            x != "ServerName"@ && x != "UseServerName"@ && x != "ServerPort"@ && x != "MaxSlots"@ && x != "ServerPassword"@ ==> #[trigger] stage_map0(m, c).contains_key(x) == m.contains_key(x),
        forall|m: Map<Seq<char>, SettingView>, x: Seq<char>|
            x != "ServerName"@ && x != "UseServerName"@ && x != "ServerPort"@ && x != "MaxSlots"@ && x != "ServerPassword"@ ==> #[trigger] stage_map0(m, c)[x] == m[x],
        forall|m: Map<Seq<char>, SettingView>| #[trigger] stage_map0(m, c).contains_key("ServerName"@) == ((text_setting(c.server_name)) is Some || m.contains_key("ServerName"@)),
        forall|m: Map<Seq<char>, SettingView>| (text_setting(c.server_name)) is Some ==> #[trigger] stage_map0(m, c)["ServerName"@] == (text_setting(c.server_name))->0,
        forall|m: Map<Seq<char>, SettingView>| #[trigger] stage_map0(m, c).contains_key("UseServerName"@) == ((match c.server_name { Some(_) => Some(SettingView::Flag(true)), None => None }) is Some || m.contains_key("UseServerName"@)),
        forall|m: Map<Seq<char>, SettingView>| (match c.server_name { Some(_) => Some(SettingView::Flag(true)), None => None }) is Some ==> #[trigger] stage_map0(m, c)["UseServerName"@] == (match c.server_name { Some(_) => Some(SettingView::Flag(true)), None => None })->0,
        forall|m: Map<Seq<char>, SettingView>| #[trigger] stage_map0(m, c).contains_key("ServerPort"@) == ((number_setting(num_u16(c.port))) is Some || m.contains_key("ServerPort"@)),
        forall|m: Map<Seq<char>, SettingView>| (number_setting(num_u16(c.port))) is Some ==> #[trigger] stage_map0(m, c)["ServerPort"@] == (number_setting(num_u16(c.port)))->0,
        forall|m: Map<Seq<char>, SettingView>| #[trigger] stage_map0(m, c).contains_key("MaxSlots"@) == ((number_setting(num_i32(c.max_players))) is Some || m.contains_key("MaxSlots"@)),
        forall|m: Map<Seq<char>, SettingView>| (number_setting(num_i32(c.max_players))) is Some ==> #[trigger] stage_map0(m, c)["MaxSlots"@] == (number_setting(num_i32(c.max_players)))->0,
        forall|m: Map<Seq<char>, SettingView>| #[trigger] stage_map0(m, c).contains_key("ServerPassword"@) == ((text_setting(c.server_password)) is Some || m.contains_key("ServerPassword"@)),
        forall|m: Map<Seq<char>, SettingView>| (text_setting(c.server_password)) is Some ==> #[trigger] stage_map0(m, c)["ServerPassword"@] == (text_setting(c.server_password))->0,
{
    lemma_put_facts();
    lemma_setting_keys_spelled();
}

/// Stage 1 writes its own keys and leaves every other key as it was.
proof fn lemma_stage_map1(c: ServerConfig)
    ensures
        forall|m: Map<Seq<char>, SettingView>, x: Seq<char>|
            x != "EnableWhitelist"@ && x != "PvPMode"@ && x != "SpawnProtection"@ && x != "SpawnProtectionRadius"@ ==> #[trigger] stage_map1(m, c).contains_key(x) == m.contains_key(x),
        forall|m: Map<Seq<char>, SettingView>, x: Seq<char>|
            x != "EnableWhitelist"@ && x != "PvPMode"@ && x != "SpawnProtection"@ && x != "SpawnProtectionRadius"@ ==> #[trigger] stage_map1(m, c)[x] == m[x],
        forall|m: Map<Seq<char>, SettingView>| #[trigger] stage_map1(m, c).contains_key("EnableWhitelist"@) == ((flag_setting(c.enable_whitelist)) is Some || m.contains_key("EnableWhitelist"@)),
        forall|m: Map<Seq<char>, SettingView>| (flag_setting(c.enable_whitelist)) is Some ==> #[trigger] stage_map1(m, c)["EnableWhitelist"@] == (flag_setting(c.enable_whitelist))->0,
        forall|m: Map<Seq<char>, SettingView>| #[trigger] stage_map1(m, c).contains_key("PvPMode"@) == ((text_setting(c.pvp_mode)) is Some || m.contains_key("PvPMode"@)),
        forall|m: Map<Seq<char>, SettingView>| (text_setting(c.pvp_mode)) is Some ==> #[trigger] stage_map1(m, c)["PvPMode"@] == (text_setting(c.pvp_mode))->0,
        forall|m: Map<Seq<char>, SettingView>| #[trigger] stage_map1(m, c).contains_key("SpawnProtection"@) == ((flag_setting(c.spawn_protection)) is Some || m.contains_key("SpawnProtection"@)),
        forall|m: Map<Seq<char>, SettingView>| (flag_setting(c.spawn_protection)) is Some ==> #[trigger] stage_map1(m, c)["SpawnProtection"@] == (flag_setting(c.spawn_protection))->0,
        forall|m: Map<Seq<char>, SettingView>| #[trigger] stage_map1(m, c).contains_key("SpawnProtectionRadius"@) == ((number_setting(num_u32(c.spawn_protection_radius))) is Some || m.contains_key("SpawnProtectionRadius"@)),
        forall|m: Map<Seq<char>, SettingView>| (number_setting(num_u32(c.spawn_protection_radius))) is Some ==> #[trigger] stage_map1(m, c)["SpawnProtectionRadius"@] == (number_setting(num_u32(c.spawn_protection_radius)))->0,
{
    lemma_put_facts();
    lemma_setting_keys_spelled();
}

/// Stage 2 writes its own keys and leaves every other key as it was.
proof fn lemma_stage_map2(c: ServerConfig)
    ensures
        forall|m: Map<Seq<char>, SettingView>, x: Seq<char>|
            x != "ServerSideCharacter"@ && x != "DisableBuild"@ && x != "DisableClownBombs"@ && x != "DisableDungeonGuardian"@ ==> #[trigger] stage_map2(m, c).contains_key(x) == m.contains_key(x),
        forall|m: Map<Seq<char>, SettingView>, x: Seq<char>|
            x != "ServerSideCharacter"@ && x != "DisableBuild"@ && x != "DisableClownBombs"@ && x != "DisableDungeonGuardian"@ ==> #[trigger] stage_map2(m, c)[x] == m[x],
        forall|m: Map<Seq<char>, SettingView>| #[trigger] stage_map2(m, c).contains_key("ServerSideCharacter"@) == ((flag_setting(c.server_side_character)) is Some || m.contains_key("ServerSideCharacter"@)),
        forall|m: Map<Seq<char>, SettingView>| (flag_setting(c.server_side_character)) is Some ==> #[trigger] stage_map2(m, c)["ServerSideCharacter"@] == (flag_setting(c.server_side_character))->0,
        forall|m: Map<Seq<char>, SettingView>| #[trigger] stage_map2(m, c).contains_key("DisableBuild"@) == ((flag_setting(c.disable_build)) is Some || m.contains_key("DisableBuild"@)),
        forall|m: Map<Seq<char>, SettingView>| (flag_setting(c.disable_build)) is Some ==> #[trigger] stage_map2(m, c)["DisableBuild"@] == (flag_setting(c.disable_build))->0,
        forall|m: Map<Seq<char>, SettingView>| #[trigger] stage_map2(m, c).contains_key("DisableClownBombs"@) == ((flag_setting(c.disable_clown_bombs)) is Some || m.contains_key("DisableClownBombs"@)),
        forall|m: Map<Seq<char>, SettingView>| (flag_setting(c.disable_clown_bombs)) is Some ==> #[trigger] stage_map2(m, c)["DisableClownBombs"@] == (flag_setting(c.disable_clown_bombs))->0,
        forall|m: Map<Seq<char>, SettingView>| #[trigger] stage_map2(m, c).contains_key("DisableDungeonGuardian"@) == ((flag_setting(c.disable_dungeon_guardian)) is Some || m.contains_key("DisableDungeonGuardian"@)),
        forall|m: Map<Seq<char>, SettingView>| (flag_setting(c.disable_dungeon_guardian)) is Some ==> #[trigger] stage_map2(m, c)["DisableDungeonGuardian"@] == (flag_setting(c.disable_dungeon_guardian))->0,
{
    lemma_put_facts();
    lemma_setting_keys_spelled();
}

/// Stage 3 writes its own keys and leaves every other key as it was.
proof fn lemma_stage_map3(c: ServerConfig)
    ensures
        forall|m: Map<Seq<char>, SettingView>, x: Seq<char>|
            x != "DisableTombstones"@ && x != "ForceTime"@ && x != "DisableInvisPvP"@ && x != "EnableAntiCheat"@ ==> #[trigger] stage_map3(m, c).contains_key(x) == m.contains_key(x),
        forall|m: Map<Seq<char>, SettingView>, x: Seq<char>|
            x != "DisableTombstones"@ && x != "ForceTime"@ && x != "DisableInvisPvP"@ && x != "EnableAntiCheat"@ ==> #[trigger] stage_map3(m, c)[x] == m[x],
        forall|m: Map<Seq<char>, SettingView>| #[trigger] stage_map3(m, c).contains_key("DisableTombstones"@) == ((flag_setting(c.disable_tombstones)) is Some || m.contains_key("DisableTombstones"@)),
        forall|m: Map<Seq<char>, SettingView>| (flag_setting(c.disable_tombstones)) is Some ==> #[trigger] stage_map3(m, c)["DisableTombstones"@] == (flag_setting(c.disable_tombstones))->0,
        forall|m: Map<Seq<char>, SettingView>| #[trigger] stage_map3(m, c).contains_key("ForceTime"@) == ((text_setting(c.force_time)) is Some || m.contains_key("ForceTime"@)),
        forall|m: Map<Seq<char>, SettingView>| (text_setting(c.force_time)) is Some ==> #[trigger] stage_map3(m, c)["ForceTime"@] == (text_setting(c.force_time))->0,
        forall|m: Map<Seq<char>, SettingView>| #[trigger] stage_map3(m, c).contains_key("DisableInvisPvP"@) == ((flag_setting(c.disable_invisible_pvp)) is Some || m.contains_key("DisableInvisPvP"@)),
        forall|m: Map<Seq<char>, SettingView>| (flag_setting(c.disable_invisible_pvp)) is Some ==> #[trigger] stage_map3(m, c)["DisableInvisPvP"@] == (flag_setting(c.disable_invisible_pvp))->0,
        forall|m: Map<Seq<char>, SettingView>| #[trigger] stage_map3(m, c).contains_key("EnableAntiCheat"@) == ((flag_setting(c.anti_cheat)) is Some || m.contains_key("EnableAntiCheat"@)),
        forall|m: Map<Seq<char>, SettingView>| (flag_setting(c.anti_cheat)) is Some ==> #[trigger] stage_map3(m, c)["EnableAntiCheat"@] == (flag_setting(c.anti_cheat))->0,
{
    lemma_put_facts();
    lemma_setting_keys_spelled();
}

/// Stage 4 writes its own keys and leaves every other key as it was.
proof fn lemma_stage_map4(c: ServerConfig)
    ensures
        forall|m: Map<Seq<char>, SettingView>, x: Seq<char>|
            x != "KickOnDamageInflicted"@ && x != "KickOnDamageReceived"@ && x != "RangeChecks"@ && x != "DisablePlayerCountReporting"@ ==> #[trigger] stage_map4(m, c).contains_key(x) == m.contains_key(x),
        forall|m: Map<Seq<char>, SettingView>, x: Seq<char>|
            x != "KickOnDamageInflicted"@ && x != "KickOnDamageReceived"@ && x != "RangeChecks"@ && x != "DisablePlayerCountReporting"@ ==> #[trigger] stage_map4(m, c)[x] == m[x],
        forall|m: Map<Seq<char>, SettingView>| #[trigger] stage_map4(m, c).contains_key("KickOnDamageInflicted"@) == ((number_setting(num_i32(c.kick_on_damage_inflicted))) is Some || m.contains_key("KickOnDamageInflicted"@)),
        forall|m: Map<Seq<char>, SettingView>| (number_setting(num_i32(c.kick_on_damage_inflicted))) is Some ==> #[trigger] stage_map4(m, c)["KickOnDamageInflicted"@] == (number_setting(num_i32(c.kick_on_damage_inflicted)))->0,
        forall|m: Map<Seq<char>, SettingView>| #[trigger] stage_map4(m, c).contains_key("KickOnDamageReceived"@) == ((number_setting(num_i32(c.kick_on_damage_received))) is Some || m.contains_key("KickOnDamageReceived"@)),
        forall|m: Map<Seq<char>, SettingView>| (number_setting(num_i32(c.kick_on_damage_received))) is Some ==> #[trigger] stage_map4(m, c)["KickOnDamageReceived"@] == (number_setting(num_i32(c.kick_on_damage_received)))->0,
        forall|m: Map<Seq<char>, SettingView>| #[trigger] stage_map4(m, c).contains_key("RangeChecks"@) == ((flag_setting(c.range_checks)) is Some || m.contains_key("RangeChecks"@)),
        forall|m: Map<Seq<char>, SettingView>| (flag_setting(c.range_checks)) is Some ==> #[trigger] stage_map4(m, c)["RangeChecks"@] == (flag_setting(c.range_checks))->0,
        forall|m: Map<Seq<char>, SettingView>| #[trigger] stage_map4(m, c).contains_key("DisablePlayerCountReporting"@) == ((flag_setting(c.disable_player_count_reporting)) is Some || m.contains_key("DisablePlayerCountReporting"@)),
        forall|m: Map<Seq<char>, SettingView>| (flag_setting(c.disable_player_count_reporting)) is Some ==> #[trigger] stage_map4(m, c)["DisablePlayerCountReporting"@] == (flag_setting(c.disable_player_count_reporting))->0,
{
    lemma_put_facts();
    lemma_setting_keys_spelled();
}

/// Stage 5 writes its own keys and leaves every other key as it was.
proof fn lemma_stage_map5(c: ServerConfig)
    ensures
        forall|m: Map<Seq<char>, SettingView>, x: Seq<char>|
            x != "RestApiEnabled"@ && x != "RestApiPort"@ && x != "Motd"@ && x != "ServerFullNoReserveReason"@ ==> #[trigger] stage_map5(m, c).contains_key(x) == m.contains_key(x),
        forall|m: Map<Seq<char>, SettingView>, x: Seq<char>|
            x != "RestApiEnabled"@ && x != "RestApiPort"@ && x != "Motd"@ && x != "ServerFullNoReserveReason"@ ==> #[trigger] stage_map5(m, c)[x] == m[x],
        forall|m: Map<Seq<char>, SettingView>| #[trigger] stage_map5(m, c).contains_key("RestApiEnabled"@) == ((flag_setting(c.rest_api_enabled)) is Some || m.contains_key("RestApiEnabled"@)),
        forall|m: Map<Seq<char>, SettingView>| (flag_setting(c.rest_api_enabled)) is Some ==> #[trigger] stage_map5(m, c)["RestApiEnabled"@] == (flag_setting(c.rest_api_enabled))->0,
        forall|m: Map<Seq<char>, SettingView>| #[trigger] stage_map5(m, c).contains_key("RestApiPort"@) == ((number_setting(num_u16(c.rest_api_port))) is Some || m.contains_key("RestApiPort"@)),
        forall|m: Map<Seq<char>, SettingView>| (number_setting(num_u16(c.rest_api_port))) is Some ==> #[trigger] stage_map5(m, c)["RestApiPort"@] == (number_setting(num_u16(c.rest_api_port)))->0,
        forall|m: Map<Seq<char>, SettingView>| #[trigger] stage_map5(m, c).contains_key("Motd"@) == ((text_setting(c.motd)) is Some || m.contains_key("Motd"@)),
        forall|m: Map<Seq<char>, SettingView>| (text_setting(c.motd)) is Some ==> #[trigger] stage_map5(m, c)["Motd"@] == (text_setting(c.motd))->0,
        forall|m: Map<Seq<char>, SettingView>| #[trigger] stage_map5(m, c).contains_key("ServerFullNoReserveReason"@) == ((text_setting(c.server_full_no_reserve_reason)) is Some || m.contains_key("ServerFullNoReserveReason"@)),
        forall|m: Map<Seq<char>, SettingView>| (text_setting(c.server_full_no_reserve_reason)) is Some ==> #[trigger] stage_map5(m, c)["ServerFullNoReserveReason"@] == (text_setting(c.server_full_no_reserve_reason))->0,
{
    lemma_put_facts();
    lemma_setting_keys_spelled();
}

/// Stage 6 writes its own keys and leaves every other key as it was.
proof fn lemma_stage_map6(c: ServerConfig)
    ensures
        forall|m: Map<Seq<char>, SettingView>, x: Seq<char>|
            x != "HardcoreOnly"@ && x != "MediumcoreOnly"@ && x != "SoftcoreOnly"@ ==> #[trigger] stage_map6(m, c).contains_key(x) == m.contains_key(x),
        forall|m: Map<Seq<char>, SettingView>, x: Seq<char>|
            x != "HardcoreOnly"@ && x != "MediumcoreOnly"@ && x != "SoftcoreOnly"@ ==> #[trigger] stage_map6(m, c)[x] == m[x],
        forall|m: Map<Seq<char>, SettingView>| #[trigger] stage_map6(m, c).contains_key("HardcoreOnly"@) == ((flag_setting(c.hard_core_only)) is Some || m.contains_key("HardcoreOnly"@)),
        forall|m: Map<Seq<char>, SettingView>| (flag_setting(c.hard_core_only)) is Some ==> #[trigger] stage_map6(m, c)["HardcoreOnly"@] == (flag_setting(c.hard_core_only))->0,
        forall|m: Map<Seq<char>, SettingView>| #[trigger] stage_map6(m, c).contains_key("MediumcoreOnly"@) == ((flag_setting(c.medium_core_only)) is Some || m.contains_key("MediumcoreOnly"@)),
        forall|m: Map<Seq<char>, SettingView>| (flag_setting(c.medium_core_only)) is Some ==> #[trigger] stage_map6(m, c)["MediumcoreOnly"@] == (flag_setting(c.medium_core_only))->0,
        forall|m: Map<Seq<char>, SettingView>| #[trigger] stage_map6(m, c).contains_key("SoftcoreOnly"@) == ((flag_setting(c.soft_core_only)) is Some || m.contains_key("SoftcoreOnly"@)),
        forall|m: Map<Seq<char>, SettingView>| (flag_setting(c.soft_core_only)) is Some ==> #[trigger] stage_map6(m, c)["SoftcoreOnly"@] == (flag_setting(c.soft_core_only))->0,
{
    lemma_put_facts();
    lemma_setting_keys_spelled();
}

/// What the written settings hold, key by key.
proof fn lemma_written_settings_hold(c: ServerConfig)
    ensures
        holds_setting(written_settings(c), "ServerName"@, text_setting(c.server_name)),
        holds_setting(written_settings(c), "ServerPort"@, number_setting(num_u16(c.port))),
        holds_setting(written_settings(c), "MaxSlots"@, number_setting(num_i32(c.max_players))),
        holds_setting(written_settings(c), "ServerPassword"@, text_setting(c.server_password)),
        holds_setting(written_settings(c), "EnableWhitelist"@, flag_setting(c.enable_whitelist)),
        holds_setting(written_settings(c), "PvPMode"@, text_setting(c.pvp_mode)),
        holds_setting(written_settings(c), "SpawnProtection"@, flag_setting(c.spawn_protection)),
        holds_setting(written_settings(c), "SpawnProtectionRadius"@, number_setting(num_u32(c.spawn_protection_radius))),
        holds_setting(written_settings(c), "ServerSideCharacter"@, flag_setting(c.server_side_character)),
        holds_setting(written_settings(c), "DisableBuild"@, flag_setting(c.disable_build)),
        holds_setting(written_settings(c), "DisableClownBombs"@, flag_setting(c.disable_clown_bombs)),
        holds_setting(written_settings(c), "DisableDungeonGuardian"@, flag_setting(c.disable_dungeon_guardian)),
        holds_setting(written_settings(c), "DisableTombstones"@, flag_setting(c.disable_tombstones)),
        holds_setting(written_settings(c), "ForceTime"@, text_setting(c.force_time)),
        holds_setting(written_settings(c), "DisableInvisPvP"@, flag_setting(c.disable_invisible_pvp)),
        holds_setting(written_settings(c), "EnableAntiCheat"@, flag_setting(c.anti_cheat)),
        holds_setting(written_settings(c), "KickOnDamageInflicted"@, number_setting(num_i32(c.kick_on_damage_inflicted))),
        holds_setting(written_settings(c), "KickOnDamageReceived"@, number_setting(num_i32(c.kick_on_damage_received))),
        holds_setting(written_settings(c), "RangeChecks"@, flag_setting(c.range_checks)),
        holds_setting(written_settings(c), "DisablePlayerCountReporting"@, flag_setting(c.disable_player_count_reporting)),
        holds_setting(written_settings(c), "RestApiEnabled"@, flag_setting(c.rest_api_enabled)),
        holds_setting(written_settings(c), "RestApiPort"@, number_setting(num_u16(c.rest_api_port))),
        holds_setting(written_settings(c), "Motd"@, text_setting(c.motd)),
        holds_setting(written_settings(c), "ServerFullNoReserveReason"@, text_setting(c.server_full_no_reserve_reason)),
        holds_setting(written_settings(c), "HardcoreOnly"@, flag_setting(c.hard_core_only)),
        holds_setting(written_settings(c), "MediumcoreOnly"@, flag_setting(c.medium_core_only)),
        holds_setting(written_settings(c), "SoftcoreOnly"@, flag_setting(c.soft_core_only)),
        holds_setting(written_settings(c), "UseServerName"@, match c.server_name { Some(_) => Some(SettingView::Flag(true)), None => None }),
{
    lemma_stage_map0(c);
    lemma_stage_map1(c);
    lemma_stage_map2(c);
    lemma_stage_map3(c);
    lemma_stage_map4(c);
    lemma_stage_map5(c);
    lemma_stage_map6(c);
    lemma_setting_keys_spelled();
}

/// Each field of a configuration that is set is written into TShock's
/// settings under its TShock key with its value (a set server name also
/// turns `UseServerName` on), and a field that is not set leaves its key
/// alone. These are the settings a merge writes (see `merged_entry`).
pub proof fn law_settings_written(c: ServerConfig)
    ensures
        holds_setting(apply_pairs(Map::empty(), settings_updates(c)), "ServerName"@, text_setting(c.server_name)),
        holds_setting(apply_pairs(Map::empty(), settings_updates(c)), "ServerPort"@, number_setting(num_u16(c.port))),
        holds_setting(apply_pairs(Map::empty(), settings_updates(c)), "MaxSlots"@, number_setting(num_i32(c.max_players))),
        holds_setting(apply_pairs(Map::empty(), settings_updates(c)), "ServerPassword"@, text_setting(c.server_password)),
        holds_setting(apply_pairs(Map::empty(), settings_updates(c)), "EnableWhitelist"@, flag_setting(c.enable_whitelist)),
        holds_setting(apply_pairs(Map::empty(), settings_updates(c)), "PvPMode"@, text_setting(c.pvp_mode)),
        holds_setting(apply_pairs(Map::empty(), settings_updates(c)), "SpawnProtection"@, flag_setting(c.spawn_protection)),
        holds_setting(apply_pairs(Map::empty(), settings_updates(c)), "SpawnProtectionRadius"@, number_setting(num_u32(c.spawn_protection_radius))),
        holds_setting(apply_pairs(Map::empty(), settings_updates(c)), "ServerSideCharacter"@, flag_setting(c.server_side_character)),
        holds_setting(apply_pairs(Map::empty(), settings_updates(c)), "DisableBuild"@, flag_setting(c.disable_build)),
        holds_setting(apply_pairs(Map::empty(), settings_updates(c)), "DisableClownBombs"@, flag_setting(c.disable_clown_bombs)),
        holds_setting(apply_pairs(Map::empty(), settings_updates(c)), "DisableDungeonGuardian"@, flag_setting(c.disable_dungeon_guardian)),
        holds_setting(apply_pairs(Map::empty(), settings_updates(c)), "DisableTombstones"@, flag_setting(c.disable_tombstones)),
        holds_setting(apply_pairs(Map::empty(), settings_updates(c)), "ForceTime"@, text_setting(c.force_time)),
        holds_setting(apply_pairs(Map::empty(), settings_updates(c)), "DisableInvisPvP"@, flag_setting(c.disable_invisible_pvp)),
        holds_setting(apply_pairs(Map::empty(), settings_updates(c)), "EnableAntiCheat"@, flag_setting(c.anti_cheat)),
        holds_setting(apply_pairs(Map::empty(), settings_updates(c)), "KickOnDamageInflicted"@, number_setting(num_i32(c.kick_on_damage_inflicted))),
        holds_setting(apply_pairs(Map::empty(), settings_updates(c)), "KickOnDamageReceived"@, number_setting(num_i32(c.kick_on_damage_received))),
        holds_setting(apply_pairs(Map::empty(), settings_updates(c)), "RangeChecks"@, flag_setting(c.range_checks)),
        holds_setting(apply_pairs(Map::empty(), settings_updates(c)), "DisablePlayerCountReporting"@, flag_setting(c.disable_player_count_reporting)),
        holds_setting(apply_pairs(Map::empty(), settings_updates(c)), "RestApiEnabled"@, flag_setting(c.rest_api_enabled)),
        holds_setting(apply_pairs(Map::empty(), settings_updates(c)), "RestApiPort"@, number_setting(num_u16(c.rest_api_port))),
        holds_setting(apply_pairs(Map::empty(), settings_updates(c)), "Motd"@, text_setting(c.motd)),
        holds_setting(apply_pairs(Map::empty(), settings_updates(c)), "ServerFullNoReserveReason"@, text_setting(c.server_full_no_reserve_reason)),
        holds_setting(apply_pairs(Map::empty(), settings_updates(c)), "HardcoreOnly"@, flag_setting(c.hard_core_only)),
        holds_setting(apply_pairs(Map::empty(), settings_updates(c)), "MediumcoreOnly"@, flag_setting(c.medium_core_only)),
        holds_setting(apply_pairs(Map::empty(), settings_updates(c)), "SoftcoreOnly"@, flag_setting(c.soft_core_only)),
        holds_setting(apply_pairs(Map::empty(), settings_updates(c)), "UseServerName"@, match c.server_name { Some(_) => Some(SettingView::Flag(true)), None => None }),
{
    lemma_written_settings_hold(c);
    lemma_written_settings(c);
}

} // verus!
