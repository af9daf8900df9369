//! The requests the panel sends to a TShock server's REST API, and the
//! request bodies the panel's own API accepts for them.
use vstd::prelude::*;

use crate::error::AppError;
use crate::text::{append, bool_text, bool_to_text, concat2, owned};

verus! {

#[derive(Debug, Clone, Copy, PartialEq, Eq, Structural)]
pub enum HttpMethod {
    Get,
    Post,
}

/// A call of the TShock REST API: method, path and query parameters (the
/// token is added when it is sent).
#[derive(Debug)]
pub struct RestRequest {
    pub method: HttpMethod,
    pub path: String,
    pub params: Vec<(String, String)>,
}

pub open spec fn params_view(v: Seq<(String, String)>) -> Seq<(Seq<char>, Seq<char>)> {
    Seq::new(v.len(), |i: int| (v[i].0@, v[i].1@))
}

/// A request as plain data.
pub open spec fn request_view(r: RestRequest) -> (HttpMethod, Seq<char>, Seq<(Seq<char>, Seq<char>)>) {
    (r.method, r.path@, params_view(r.params@))
}

fn param(v: &mut Vec<(String, String)>, key: &str, value: &str)
    ensures
        params_view(final(v)@) == params_view(old(v)@).push((key@, value@)),
{
    let ghost before = v@;
    v.push((owned(key), owned(value)));
    assert(params_view(v@) =~= params_view(before).push((key@, value@)));
}

fn no_params() -> (r: Vec<(String, String)>)
    ensures
        params_view(r@) == Seq::<(Seq<char>, Seq<char>)>::empty(),
{
    let v: Vec<(String, String)> = Vec::new();
    assert(params_view(v@) =~= Seq::<(Seq<char>, Seq<char>)>::empty());
    v
}

/// `params` with `(key, value)` added when a value is given.
pub open spec fn with_opt(
    params: Seq<(Seq<char>, Seq<char>)>,
    key: Seq<char>,
    value: Option<Seq<char>>,
) -> Seq<(Seq<char>, Seq<char>)> {
    match value {
        Some(v) => params.push((key, v)),
        None => params,
    }
}

pub open spec fn opt_str(o: Option<&str>) -> Option<Seq<char>> {
    match o {
        Some(s) => Some(s@),
        None => None,
    }
}

fn opt_param(v: &mut Vec<(String, String)>, key: &str, value: Option<&str>)
    ensures
        params_view(final(v)@) == with_opt(params_view(old(v)@), key@, opt_str(value)),
{
    match value {
        Some(x) => param(v, key, x),
        None => {},
    }
}

/// The query actually sent: the token first, then the request's parameters.
pub fn query_with_token(token: &str, params: &Vec<(String, String)>) -> (r: Vec<(String, String)>)
    ensures
        params_view(r@) == seq![("token"@, token@)] + params_view(params@),
{
    let mut v: Vec<(String, String)> = Vec::new();
    param(&mut v, "token", token);
    let mut i: usize = 0;
    while i < params.len()
        invariant
            i <= params.len(),
            params_view(v@) == seq![("token"@, token@)] + params_view(params@).take(i as int),
        decreases params.len() - i,
    {
        let (k, x) = &params[i];
        param(&mut v, k.as_str(), x.as_str());
        assert(params_view(params@).take(i + 1) =~= params_view(params@).take(i as int).push((k@, x@)));
        i = i + 1;
    }
    assert(params_view(params@).take(params.len() as int) =~= params_view(params@));
    v
}

/// How a field of an error reply looks.
#[derive(Debug)]
pub enum ReplyField {
    Absent,
    NotText,
    Text(String),
}

/// The message of a failed REST call: `error` if the reply has that field,
/// else `response`, when that field is text; otherwise `Unknown error`.
pub open spec fn reply_message(error: ReplyField, response: ReplyField) -> Seq<char> {
    match error {
        ReplyField::Text(s) => s@,
        ReplyField::NotText => "Unknown error"@,
        ReplyField::Absent => match response {
            ReplyField::Text(s) => s@,
            _ => "Unknown error"@,
        },
    }
}

/// The error for a REST reply with a failure status (`status` is the status
/// line, such as `404 Not Found`).
pub fn rest_error(status: &str, error: ReplyField, response: ReplyField) -> (r: AppError)
    ensures
        r matches AppError::ProcessError(m) && m@ == "TShock REST API error ("@ + status@ + "): "@
            + reply_message(error, response),
{
    let msg = match error {
        ReplyField::Text(s) => s,
        ReplyField::NotText => owned("Unknown error"),
        ReplyField::Absent => match response {
            ReplyField::Text(s) => s,
            _ => owned("Unknown error"),
        },
    };
    let mut m = concat2("TShock REST API error (", status);
    append(&mut m, "): ");
    append(&mut m, msg.as_str());
    AppError::ProcessError(m)
}

/// The error for a REST call that could not be made.
pub fn request_failed(detail: &str) -> (r: AppError)
    ensures
        r matches AppError::ProcessError(m) && m@ == "TShock REST request failed: "@ + detail@,
{
    AppError::ProcessError(concat2("TShock REST request failed: ", detail))
}

/// The error for a REST reply that is not JSON.
pub fn reply_unreadable(detail: &str) -> (r: AppError)
    ensures
        r matches AppError::ProcessError(m) && m@ == "Failed to parse TShock REST response: "@ + detail@,
{
    AppError::ProcessError(concat2("Failed to parse TShock REST response: ", detail))
}

/// The base URL of a server's REST API, on the port its configuration names
/// (7878 when none).
pub open spec fn rest_base_url_spec(port: Option<u64>) -> Seq<char> {
    "http://127.0.0.1:"@ + crate::text::decimal((match port {
        Some(p) => p % 65536,
        None => 7878,
    }) as nat)
}

pub fn rest_base_url(port: Option<u64>) -> (r: String)
    ensures
        r@ == rest_base_url_spec(port),
{
    let p: u64 = match port {
        Some(p) => p % 65536,
        None => 7878,
    };
    let mut s = owned("http://127.0.0.1:");
    crate::text::push_decimal(&mut s, p);
    s
}

pub fn server_status_request() -> (r: RestRequest)
    ensures
        request_view(r) == (HttpMethod::Get, "/v2/server/status"@, Seq::<(Seq<char>, Seq<char>)>::empty().push(("players"@, "true"@)).push(("rules"@, "true"@))),
{
    let mut p = no_params();
    param(&mut p, "players", "true");
    param(&mut p, "rules", "true");
    RestRequest { method: HttpMethod::Get, path: owned("/v2/server/status"), params: p }
}

pub fn token_test_request() -> (r: RestRequest)
    ensures
        request_view(r) == (HttpMethod::Get, "/tokentest"@, Seq::<(Seq<char>, Seq<char>)>::empty()),
{
    let mut p = no_params();
    RestRequest { method: HttpMethod::Get, path: owned("/tokentest"), params: p }
}

pub fn server_broadcast_request(msg: &str) -> (r: RestRequest)
    ensures
        request_view(r) == (HttpMethod::Post, "/v2/server/broadcast"@, Seq::<(Seq<char>, Seq<char>)>::empty().push(("msg"@, msg@))),
{
    let mut p = no_params();
    param(&mut p, "msg", msg);
    RestRequest { method: HttpMethod::Post, path: owned("/v2/server/broadcast"), params: p }
}

pub fn server_reload_request() -> (r: RestRequest)
    ensures
        request_view(r) == (HttpMethod::Post, "/v3/server/reload"@, Seq::<(Seq<char>, Seq<char>)>::empty()),
{
    let mut p = no_params();
    RestRequest { method: HttpMethod::Post, path: owned("/v3/server/reload"), params: p }
}

pub fn server_restart_request() -> (r: RestRequest)
    ensures
        request_view(r) == (HttpMethod::Get, "/v3/server/restart"@, Seq::<(Seq<char>, Seq<char>)>::empty()),
{
    let mut p = no_params();
    RestRequest { method: HttpMethod::Get, path: owned("/v3/server/restart"), params: p }
}

pub fn server_rawcmd_request(cmd: &str) -> (r: RestRequest)
    ensures
        request_view(r) == (HttpMethod::Post, "/v3/server/rawcmd"@, Seq::<(Seq<char>, Seq<char>)>::empty().push(("cmd"@, cmd@))),
{
    let mut p = no_params();
    param(&mut p, "cmd", cmd);
    RestRequest { method: HttpMethod::Post, path: owned("/v3/server/rawcmd"), params: p }
}

pub fn server_off_request(message: Option<&str>, nosave: bool) -> (r: RestRequest)
    ensures
        request_view(r) == (HttpMethod::Post, "/v2/server/off"@, with_opt(Seq::<(Seq<char>, Seq<char>)>::empty().push(("confirm"@, "true"@)).push(("nosave"@, bool_text(nosave))), "message"@, opt_str(message))),
{
    let mut p = no_params();
    param(&mut p, "confirm", "true");
    let t_nosave = bool_to_text(nosave);
    param(&mut p, "nosave", t_nosave.as_str());
    opt_param(&mut p, "message", message);
    RestRequest { method: HttpMethod::Post, path: owned("/v2/server/off"), params: p }
}

pub fn server_motd_request() -> (r: RestRequest)
    ensures
        request_view(r) == (HttpMethod::Get, "/v3/server/motd"@, Seq::<(Seq<char>, Seq<char>)>::empty()),
{
    let mut p = no_params();
    RestRequest { method: HttpMethod::Get, path: owned("/v3/server/motd"), params: p }
}

pub fn server_rules_request() -> (r: RestRequest)
    ensures
        request_view(r) == (HttpMethod::Get, "/v3/server/rules"@, Seq::<(Seq<char>, Seq<char>)>::empty()),
{
    let mut p = no_params();
    RestRequest { method: HttpMethod::Get, path: owned("/v3/server/rules"), params: p }
}

pub fn player_list_request() -> (r: RestRequest)
    ensures
        request_view(r) == (HttpMethod::Get, "/v2/players/list"@, Seq::<(Seq<char>, Seq<char>)>::empty()),
{
    let mut p = no_params();
    RestRequest { method: HttpMethod::Get, path: owned("/v2/players/list"), params: p }
}

pub fn player_read_request(player: &str) -> (r: RestRequest)
    ensures
        request_view(r) == (HttpMethod::Get, "/v4/players/read"@, Seq::<(Seq<char>, Seq<char>)>::empty().push(("player"@, player@))),
{
    let mut p = no_params();
    param(&mut p, "player", player);
    RestRequest { method: HttpMethod::Get, path: owned("/v4/players/read"), params: p }
}

pub fn player_kick_request(player: &str, reason: Option<&str>) -> (r: RestRequest)
    ensures
        request_view(r) == (HttpMethod::Post, "/v2/players/kick"@, with_opt(Seq::<(Seq<char>, Seq<char>)>::empty().push(("player"@, player@)), "reason"@, opt_str(reason))),
{
    let mut p = no_params();
    param(&mut p, "player", player);
    opt_param(&mut p, "reason", reason);
    RestRequest { method: HttpMethod::Post, path: owned("/v2/players/kick"), params: p }
}

pub fn player_ban_request(player: &str, reason: Option<&str>) -> (r: RestRequest)
    ensures
        request_view(r) == (HttpMethod::Post, "/v2/players/ban"@, with_opt(Seq::<(Seq<char>, Seq<char>)>::empty().push(("player"@, player@)), "reason"@, opt_str(reason))),
{
    let mut p = no_params();
    param(&mut p, "player", player);
    opt_param(&mut p, "reason", reason);
    RestRequest { method: HttpMethod::Post, path: owned("/v2/players/ban"), params: p }
}

pub fn player_kill_request(player: &str) -> (r: RestRequest)
    ensures
        request_view(r) == (HttpMethod::Post, "/v2/players/kill"@, Seq::<(Seq<char>, Seq<char>)>::empty().push(("player"@, player@))),
{
    let mut p = no_params();
    param(&mut p, "player", player);
    RestRequest { method: HttpMethod::Post, path: owned("/v2/players/kill"), params: p }
}

pub fn player_mute_request(player: &str) -> (r: RestRequest)
    ensures
        request_view(r) == (HttpMethod::Post, "/v2/players/mute"@, Seq::<(Seq<char>, Seq<char>)>::empty().push(("player"@, player@))),
{
    let mut p = no_params();
    param(&mut p, "player", player);
    RestRequest { method: HttpMethod::Post, path: owned("/v2/players/mute"), params: p }
}

pub fn player_unmute_request(player: &str) -> (r: RestRequest)
    ensures
        request_view(r) == (HttpMethod::Post, "/v2/players/unmute"@, Seq::<(Seq<char>, Seq<char>)>::empty().push(("player"@, player@))),
{
    let mut p = no_params();
    param(&mut p, "player", player);
    RestRequest { method: HttpMethod::Post, path: owned("/v2/players/unmute"), params: p }
}

pub fn user_list_request() -> (r: RestRequest)
    ensures
        request_view(r) == (HttpMethod::Get, "/v2/users/list"@, Seq::<(Seq<char>, Seq<char>)>::empty()),
{
    let mut p = no_params();
    RestRequest { method: HttpMethod::Get, path: owned("/v2/users/list"), params: p }
}

pub fn user_active_list_request() -> (r: RestRequest)
    ensures
        request_view(r) == (HttpMethod::Get, "/v2/users/activelist"@, Seq::<(Seq<char>, Seq<char>)>::empty()),
{
    let mut p = no_params();
    RestRequest { method: HttpMethod::Get, path: owned("/v2/users/activelist"), params: p }
}

pub fn user_read_request(user: &str) -> (r: RestRequest)
    ensures
        request_view(r) == (HttpMethod::Get, "/v2/users/read"@, Seq::<(Seq<char>, Seq<char>)>::empty().push(("user"@, user@)).push(("type"@, "name"@))),
{
    let mut p = no_params();
    param(&mut p, "user", user);
    param(&mut p, "type", "name");
    RestRequest { method: HttpMethod::Get, path: owned("/v2/users/read"), params: p }
}

pub fn user_create_request(user: &str, password: &str, group: Option<&str>) -> (r: RestRequest)
    ensures
        request_view(r) == (HttpMethod::Post, "/v2/users/create"@, with_opt(Seq::<(Seq<char>, Seq<char>)>::empty().push(("user"@, user@)).push(("password"@, password@)), "group"@, opt_str(group))),
{
    let mut p = no_params();
    param(&mut p, "user", user);
    param(&mut p, "password", password);
    opt_param(&mut p, "group", group);
    RestRequest { method: HttpMethod::Post, path: owned("/v2/users/create"), params: p }
}

pub fn user_update_request(user: &str, password: Option<&str>, group: Option<&str>) -> (r: RestRequest)
    ensures
        request_view(r) == (HttpMethod::Post, "/v2/users/update"@, with_opt(with_opt(Seq::<(Seq<char>, Seq<char>)>::empty().push(("user"@, user@)).push(("type"@, "name"@)), "password"@, opt_str(password)), "group"@, opt_str(group))),
{
    let mut p = no_params();
    param(&mut p, "user", user);
    param(&mut p, "type", "name");
    opt_param(&mut p, "password", password);
    opt_param(&mut p, "group", group);
    RestRequest { method: HttpMethod::Post, path: owned("/v2/users/update"), params: p }
}

pub fn user_destroy_request(user: &str) -> (r: RestRequest)
    ensures
        request_view(r) == (HttpMethod::Post, "/v2/users/destroy"@, Seq::<(Seq<char>, Seq<char>)>::empty().push(("user"@, user@)).push(("type"@, "name"@))),
{
    let mut p = no_params();
    param(&mut p, "user", user);
    param(&mut p, "type", "name");
    RestRequest { method: HttpMethod::Post, path: owned("/v2/users/destroy"), params: p }
}

pub fn group_list_request() -> (r: RestRequest)
    ensures
        request_view(r) == (HttpMethod::Get, "/v2/groups/list"@, Seq::<(Seq<char>, Seq<char>)>::empty()),
{
    let mut p = no_params();
    RestRequest { method: HttpMethod::Get, path: owned("/v2/groups/list"), params: p }
}

pub fn group_read_request(name: &str) -> (r: RestRequest)
    ensures
        request_view(r) == (HttpMethod::Get, "/v2/groups/read"@, Seq::<(Seq<char>, Seq<char>)>::empty().push(("group"@, name@))),
{
    let mut p = no_params();
    param(&mut p, "group", name);
    RestRequest { method: HttpMethod::Get, path: owned("/v2/groups/read"), params: p }
}

pub fn group_create_request(name: &str, parent: Option<&str>, permissions: Option<&str>) -> (r: RestRequest)
    ensures
        request_view(r) == (HttpMethod::Post, "/v2/groups/create"@, with_opt(with_opt(Seq::<(Seq<char>, Seq<char>)>::empty().push(("group"@, name@)), "parent"@, opt_str(parent)), "permissions"@, opt_str(permissions))),
{
    let mut p = no_params();
    param(&mut p, "group", name);
    opt_param(&mut p, "parent", parent);
    opt_param(&mut p, "permissions", permissions);
    RestRequest { method: HttpMethod::Post, path: owned("/v2/groups/create"), params: p }
}

pub fn group_update_request(name: &str, parent: Option<&str>, permissions: Option<&str>) -> (r: RestRequest)
    ensures
        request_view(r) == (HttpMethod::Post, "/v2/groups/update"@, with_opt(with_opt(Seq::<(Seq<char>, Seq<char>)>::empty().push(("group"@, name@)), "parent"@, opt_str(parent)), "permissions"@, opt_str(permissions))),
{
    let mut p = no_params();
    param(&mut p, "group", name);
    opt_param(&mut p, "parent", parent);
    opt_param(&mut p, "permissions", permissions);
    RestRequest { method: HttpMethod::Post, path: owned("/v2/groups/update"), params: p }
}

pub fn group_destroy_request(name: &str) -> (r: RestRequest)
    ensures
        request_view(r) == (HttpMethod::Post, "/v2/groups/destroy"@, Seq::<(Seq<char>, Seq<char>)>::empty().push(("group"@, name@))),
{
    let mut p = no_params();
    param(&mut p, "group", name);
    RestRequest { method: HttpMethod::Post, path: owned("/v2/groups/destroy"), params: p }
}

pub fn ban_list_request() -> (r: RestRequest)
    ensures
        request_view(r) == (HttpMethod::Get, "/v3/bans/list"@, Seq::<(Seq<char>, Seq<char>)>::empty()),
{
    let mut p = no_params();
    RestRequest { method: HttpMethod::Get, path: owned("/v3/bans/list"), params: p }
}

pub fn ban_read_request(ticket: &str) -> (r: RestRequest)
    ensures
        request_view(r) == (HttpMethod::Get, "/v3/bans/read"@, Seq::<(Seq<char>, Seq<char>)>::empty().push(("ticketNumber"@, ticket@))),
{
    let mut p = no_params();
    param(&mut p, "ticketNumber", ticket);
    RestRequest { method: HttpMethod::Get, path: owned("/v3/bans/read"), params: p }
}

pub fn ban_create_request(identifier: &str, reason: Option<&str>, duration: Option<&str>) -> (r: RestRequest)
    ensures
        request_view(r) == (HttpMethod::Post, "/v3/bans/create"@, with_opt(with_opt(Seq::<(Seq<char>, Seq<char>)>::empty().push(("identifier"@, identifier@)), "reason"@, opt_str(reason)), "end"@, opt_str(duration))),
{
    let mut p = no_params();
    param(&mut p, "identifier", identifier);
    opt_param(&mut p, "reason", reason);
    opt_param(&mut p, "end", duration);
    RestRequest { method: HttpMethod::Post, path: owned("/v3/bans/create"), params: p }
}

pub fn ban_destroy_request(ticket: &str) -> (r: RestRequest)
    ensures
        request_view(r) == (HttpMethod::Post, "/v3/bans/destroy"@, Seq::<(Seq<char>, Seq<char>)>::empty().push(("ticketNumber"@, ticket@)).push(("fullDelete"@, "true"@))),
{
    let mut p = no_params();
    param(&mut p, "ticketNumber", ticket);
    param(&mut p, "fullDelete", "true");
    RestRequest { method: HttpMethod::Post, path: owned("/v3/bans/destroy"), params: p }
}

pub fn world_read_request() -> (r: RestRequest)
    ensures
        request_view(r) == (HttpMethod::Get, "/world/read"@, Seq::<(Seq<char>, Seq<char>)>::empty()),
{
    let mut p = no_params();
    RestRequest { method: HttpMethod::Get, path: owned("/world/read"), params: p }
}

pub fn world_save_request() -> (r: RestRequest)
    ensures
        request_view(r) == (HttpMethod::Post, "/v2/world/save"@, Seq::<(Seq<char>, Seq<char>)>::empty()),
{
    let mut p = no_params();
    RestRequest { method: HttpMethod::Post, path: owned("/v2/world/save"), params: p }
}

pub fn world_butcher_request(kill_friendly: bool) -> (r: RestRequest)
    ensures
        request_view(r) == (HttpMethod::Post, "/v2/world/butcher"@, Seq::<(Seq<char>, Seq<char>)>::empty().push(("killfriendly"@, bool_text(kill_friendly)))),
{
    let mut p = no_params();
    let t_killfriendly = bool_to_text(kill_friendly);
    param(&mut p, "killfriendly", t_killfriendly.as_str());
    RestRequest { method: HttpMethod::Post, path: owned("/v2/world/butcher"), params: p }
}

pub fn world_bloodmoon_request(state: bool) -> (r: RestRequest)
    ensures
        request_view(r) == (HttpMethod::Post, "/v3/world/bloodmoon"@, Seq::<(Seq<char>, Seq<char>)>::empty().push(("state"@, bool_text(state)))),
{
    let mut p = no_params();
    let t_state = bool_to_text(state);
    param(&mut p, "state", t_state.as_str());
    RestRequest { method: HttpMethod::Post, path: owned("/v3/world/bloodmoon"), params: p }
}

pub fn world_meteor_request() -> (r: RestRequest)
    ensures
        request_view(r) == (HttpMethod::Post, "/world/meteor"@, Seq::<(Seq<char>, Seq<char>)>::empty()),
{
    let mut p = no_params();
    RestRequest { method: HttpMethod::Post, path: owned("/world/meteor"), params: p }
}

pub fn world_autosave_request(state: bool) -> (r: RestRequest)
    ensures
        request_view(r) == (HttpMethod::Post, "/v3/world/autosave"@, Seq::<(Seq<char>, Seq<char>)>::empty().push(("state"@, bool_text(state)))),
{
    let mut p = no_params();
    let t_state = bool_to_text(state);
    param(&mut p, "state", t_state.as_str());
    RestRequest { method: HttpMethod::Post, path: owned("/v3/world/autosave"), params: p }
}

#[derive(Debug)]
pub struct BroadcastBody {
    pub msg: String,
}

#[derive(Debug)]
pub struct RawCmdBody {
    pub cmd: String,
}

#[derive(Debug)]
pub struct ServerOffBody {
    pub message: Option<String>,
    pub nosave: bool,
}

#[derive(Debug)]
pub struct KickBody {
    pub player: String,
    pub reason: Option<String>,
}

#[derive(Debug)]
pub struct PlayerNameBody {
    pub player: String,
}

#[derive(Debug)]
pub struct UserCreateBody {
    pub user: String,
    pub password: String,
    pub group: Option<String>,
}

#[derive(Debug)]
pub struct UserUpdateBody {
    pub user: String,
    pub password: Option<String>,
    pub group: Option<String>,
}

#[derive(Debug)]
pub struct GroupCreateBody {
    pub group: String,
    pub parent: Option<String>,
    pub permissions: Option<String>,
}

#[derive(Debug)]
pub struct GroupUpdateBody {
    pub parent: Option<String>,
    pub permissions: Option<String>,
}

#[derive(Debug)]
pub struct BanCreateBody {
    pub identifier: String,
    pub reason: Option<String>,
    pub duration: Option<String>,
}

#[derive(Debug)]
pub struct ButcherBody {
    pub kill_friendly: bool,
}

#[derive(Debug)]
pub struct BoolStateBody {
    pub state: bool,
}

} // verus!
