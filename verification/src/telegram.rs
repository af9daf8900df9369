//! The optional Telegram bot: who may talk to it, how its commands are read,
//! and the replies it sends.
use vstd::prelude::*;

use crate::auth::Auth;
use crate::command_policy::{take_word, word_end};
use crate::error::AppError;
use crate::text::{
    append, ascii_lower_seq, ascii_lowercase, chars_of, concat2, concat3, contains, contains_exec,
    find_from, i64_text, owned, push_char, push_decimal, signed_decimal, decimal, starts_with,
    string_of, string_of_range, to_lowercase, trim, trim_start, trim_start_matches,
    trim_start_matches_pos, trimmed, unicode_lowercase, vec_eq,
};

verus! {

/// `[telegram]`: the bot token, the chats it answers, and polling timing.
#[derive(Debug, Clone)]
pub struct TelegramConfig {
    pub enabled: bool,
    pub bot_token: String,
    pub allowed_chat_ids: Vec<i64>,
    pub admin_chat_ids: Vec<i64>,
    pub poll_timeout_seconds: u64,
    pub retry_seconds: u64,
}

/// A server as the bot lists it.
#[derive(Debug, Clone)]
pub struct TelegramServer {
    pub id: String,
    pub name: String,
    pub status: String,
    pub port: u16,
}

/// Why the bot does not start.
#[derive(Debug, Clone, Copy, PartialEq, Eq, Structural)]
pub enum BotStartup {
    Start,
    Disabled,
    MissingToken,
    NoAllowedChats,
}

/// Whether the bot starts: it must be enabled, have a (non-blank) token and
/// at least one allowed or admin chat.
pub fn startup_decision(config: &TelegramConfig) -> (r: BotStartup)
    ensures
        r == (if !config.enabled {
            BotStartup::Disabled
        } else if trim(config.bot_token@).len() == 0 {
            BotStartup::MissingToken
        } else if config.allowed_chat_ids@.len() == 0 && config.admin_chat_ids@.len() == 0 {
            BotStartup::NoAllowedChats
        } else {
            BotStartup::Start
        }),
{
    if !config.enabled {
        return BotStartup::Disabled;
    }
    let t = trimmed(config.bot_token.as_str());
    if t.unicode_len() == 0 {
        return BotStartup::MissingToken;
    }
    if config.allowed_chat_ids.len() == 0 && config.admin_chat_ids.len() == 0 {
        return BotStartup::NoAllowedChats;
    }
    BotStartup::Start
}

/// The first word of trimmed text and the trimmed rest after the one
/// whitespace character that ends it; `None` for blank text.
pub open spec fn first_arg_split(input: Seq<char>) -> Option<(Seq<char>, Seq<char>)> {
    let t = trim(input);
    if t.len() == 0 {
        None
    } else {
        let w = take_word(t);
        Some((w, if w.len() < t.len() { trim(t.skip(w.len() as int + 1)) } else { Seq::empty() }))
    }
}

proof fn lemma_take_word_len(s: Seq<char>)
    ensures
        take_word(s).len() <= s.len(),
        take_word(s) == s.take(take_word(s).len() as int),
    decreases s.len(),
{
    if s.len() == 0 || crate::text::is_ws(s[0]) {
        assert(s.take(0) =~= Seq::<char>::empty());
    } else {
        lemma_take_word_len(s.drop_first());
        assert(seq![s[0]] + take_word(s.drop_first()) =~= s.take(take_word(s).len() as int));
    }
}

pub fn split_first_arg(input: &str) -> (r: Option<(String, String)>)
    ensures
        r matches Some((a, b)) ==> first_arg_split(input@) == Some((a@, b@)),
        r is None ==> first_arg_split(input@) is None,
{
    let t = trimmed(input);
    let v = chars_of(t.as_str());
    if v.len() == 0 {
        return None;
    }
    assert(v@.skip(0) =~= v@);
    let e = word_end(&v, 0);
    proof {
        lemma_take_word_len(v@);
    }
    let first = string_of_range(&v, 0, e);
    assert(v@.subrange(0, e as int).len() == e);
    if e < v.len() {
        let raw = string_of_range(&v, e + 1, v.len());
        assert(v@.subrange(e + 1, v.len() as int) =~= v@.skip(e + 1));
        let rest = trimmed(raw.as_str());
        Some((first, rest))
    } else {
        Some((first, String::new()))
    }
}

/// A command word without leading `/`s and any `@botname`, in ASCII lower case.
pub open spec fn command_token(token: Seq<char>) -> Seq<char> {
    let t = trim_start_matches(token, "/"@);
    ascii_lower_seq(
        match find_from(t, "@"@, 0) {
            Some(i) => t.take(i),
            None => t,
        },
    )
}

pub fn normalize_command_token(token: &str) -> (r: String)
    ensures
        r@ == command_token(token@),
{
    let v = chars_of(token);
    let s = trim_start_matches_pos(&v, "/");
    let t = string_of_range(&v, s, v.len());
    assert(v@.subrange(s as int, v.len() as int) =~= v@.skip(s as int));
    let tv = chars_of(t.as_str());
    let at = chars_of("@");
    let head: Vec<char> = match crate::text::find_from_exec(&tv, &at, 0) {
        Some(i) => {
            proof {
                crate::text::lemma_find_from_some_pub(tv@, at@, 0);
            }
            let mut h: Vec<char> = Vec::new();
            let mut k: usize = 0;
            while k < i
                invariant
                    k <= i,
                    i + at@.len() <= tv@.len(),
                    h@ == tv@.take(k as int),
                decreases i - k,
            {
                h.push(tv[k]);
                k = k + 1;
                assert(h@ =~= tv@.take(k as int));
            }
            h
        },
        None => tv,
    };
    let lower = ascii_lowercase(&head);
    string_of(&lower)
}

/// The command of a message (normalized) and its arguments.
pub open spec fn command_split(text: Seq<char>) -> (Seq<char>, Seq<char>) {
    match first_arg_split(trim(text)) {
        Some((c, a)) => (command_token(c), a),
        None => (command_token(trim(text)), Seq::empty()),
    }
}

pub fn split_command(text: &str) -> (r: (String, String))
    ensures
        (r.0@, r.1@) == command_split(text@),
{
    let t = trimmed(text);
    match split_first_arg(t.as_str()) {
        Some((c, a)) => (normalize_command_token(c.as_str()), a),
        None => (normalize_command_token(t.as_str()), String::new()),
    }
}

pub open spec fn status_usage() -> Seq<char> {
    "用法：/status <server_id|name>"@
}

/// The server named first in the arguments, or the usage text.
pub fn required_server_arg(args: &str) -> (r: Result<String, String>)
    ensures
        r matches Ok(k) ==> first_arg_split(args@) matches Some((a, _)) && k@ == a,
        r matches Err(m) ==> first_arg_split(args@) is None && m@ == status_usage(),
{
    match split_first_arg(args) {
        Some((k, _)) => Ok(k),
        None => Err(owned("用法：/status <server_id|name>")),
    }
}

fn contains_id(v: &Vec<i64>, x: i64) -> (r: bool)
    ensures
        r == v@.contains(x),
{
    let mut i: usize = 0;
    while i < v.len()
        invariant
            i <= v.len(),
            forall|j: int| 0 <= j < i ==> v@[j] != x,
        decreases v.len() - i,
    {
        if v[i] == x {
            assert(v@[i as int] == x);
            return true;
        }
        i = i + 1;
    }
    false
}

/// Messages are answered only in allowed or admin chats.
pub fn chat_allowed(config: &TelegramConfig, chat_id: i64) -> (r: bool)
    ensures
        r == (config.allowed_chat_ids@.contains(chat_id) || config.admin_chat_ids@.contains(
            chat_id,
        )),
{
    contains_id(&config.allowed_chat_ids, chat_id) || contains_id(&config.admin_chat_ids, chat_id)
}

/// The panel identity a chat acts as: `telegram:<chat id>`, an admin for admin
/// chats and an operator otherwise.
pub fn telegram_auth(config: &TelegramConfig, chat_id: i64) -> (r: Auth)
    ensures
        r.user_id@ == "telegram:"@ + signed_decimal(chat_id as int),
        r.username@ == "telegram:"@ + signed_decimal(chat_id as int),
        r.role@ == (if config.admin_chat_ids@.contains(chat_id) {
            "admin"@
        } else {
            "operator"@
        }),
{
    let role = if contains_id(&config.admin_chat_ids, chat_id) {
        owned("admin")
    } else {
        owned("operator")
    };
    let n = i64_text(chat_id);
    Auth {
        user_id: concat2("telegram:", n.as_str()),
        username: concat2("telegram:", n.as_str()),
        role,
    }
}

/// The Bot API URL of `method`.
pub fn telegram_url(config: &TelegramConfig, method: &str) -> (r: String)
    ensures
        r@ == "https://api.telegram.org/bot"@ + trim(config.bot_token@) + "/"@ + method@,
{
    let t = trimmed(config.bot_token.as_str());
    let mut r = concat2("https://api.telegram.org/bot", t.as_str());
    append(&mut r, "/");
    append(&mut r, method);
    r
}

/// The longest reply sent, in characters.
pub open spec fn message_limit() -> nat {
    3900
}

/// A reply cut to 3900 characters, marked with `\n...` when cut.
pub open spec fn truncated(text: Seq<char>) -> Seq<char> {
    if text.len() <= message_limit() {
        text
    } else {
        text.take(message_limit() as int) + "\n..."@
    }
}

pub fn truncate_message(text: &str) -> (r: String)
    ensures
        r@ == truncated(text@),
{
    let v = chars_of(text);
    if v.len() <= 3900 {
        return owned(text);
    }
    let mut r = string_of_range(&v, 0, 3900);
    append(&mut r, "\n...");
    assert(v@.subrange(0, 3900) =~= v@.take(3900));
    r
}

/// The bot's command list.
pub open spec fn help_text_spec() -> Seq<char> {
    "Terraria Panel Telegram 管理命令：\n/servers - 列出服务器\n/status <server_id|name> - 查看状态\n/start_server <server_id|name> - 启动服务器\n/stop_server <server_id|name> - 停止服务器\n/restart_server <server_id|name> - 重启服务器\n/cmd <server_id|name> <command> - 发送控制台命令\n\n示例：/cmd survival /save"@
}

pub fn help_text() -> (r: String)
    ensures
        r@ == help_text_spec(),
{
    owned(
        "Terraria Panel Telegram 管理命令：\n/servers - 列出服务器\n/status <server_id|name> - 查看状态\n/start_server <server_id|name> - 启动服务器\n/stop_server <server_id|name> - 停止服务器\n/restart_server <server_id|name> - 重启服务器\n/cmd <server_id|name> <command> - 发送控制台命令\n\n示例：/cmd survival /save",
    )
}

/// Whether a message is a command: its text starts with `/` once leading
/// whitespace is removed.
pub fn is_command_text(text: &str) -> (r: bool)
    ensures
        r == starts_with(trim_start(text@), "/"@),
{
    let v = chars_of(text);
    assert(v@.skip(0) =~= v@);
    let a = crate::text::trim_start_pos(&v, 0);
    let t = string_of_range(&v, a, v.len());
    assert(v@.subrange(a as int, v.len() as int) =~= v@.skip(a as int));
    crate::text::str_starts_with(t.as_str(), "/")
}

/// What the bot does with a command.
#[derive(Debug)]
pub enum BotAction {
    Help,
    ListServers,
    Status(String),
    StartServer(String),
    StopServer(String),
    RestartServer(String),
    Console(String),
    Unknown(String),
}

pub open spec fn action_for(command: Seq<char>, args: Seq<char>) -> BotActionView {
    if command == "help"@ || command == "start"@ {
        BotActionView::Help
    } else if command == "servers"@ || command == "list"@ {
        BotActionView::ListServers
    } else if command == "status"@ {
        BotActionView::Status(args)
    } else if command == "start_server"@ || command == "startserver"@ {
        BotActionView::StartServer(args)
    } else if command == "stop_server"@ || command == "stopserver"@ {
        BotActionView::StopServer(args)
    } else if command == "restart_server"@ || command == "restartserver"@ {
        BotActionView::RestartServer(args)
    } else if command == "cmd"@ || command == "command"@ || command == "exec"@ {
        BotActionView::Console(args)
    } else {
        BotActionView::Unknown(command)
    }
}

/// A bot action as plain data.
pub enum BotActionView {
    Help,
    ListServers,
    Status(Seq<char>),
    StartServer(Seq<char>),
    StopServer(Seq<char>),
    RestartServer(Seq<char>),
    Console(Seq<char>),
    Unknown(Seq<char>),
}

pub open spec fn action_view(a: BotAction) -> BotActionView {
    match a {
        BotAction::Help => BotActionView::Help,
        BotAction::ListServers => BotActionView::ListServers,
        BotAction::Status(s) => BotActionView::Status(s@),
        BotAction::StartServer(s) => BotActionView::StartServer(s@),
        BotAction::StopServer(s) => BotActionView::StopServer(s@),
        BotAction::RestartServer(s) => BotActionView::RestartServer(s@),
        BotAction::Console(s) => BotActionView::Console(s@),
        BotAction::Unknown(s) => BotActionView::Unknown(s@),
    }
}

/// The action a command message asks for.
pub fn command_action(text: &str) -> (r: BotAction)
    ensures
        action_view(r) == action_for(command_split(text@).0, command_split(text@).1),
{
    let (command, args) = split_command(text);
    let c = command.as_str();
    if crate::text::str_eq(c, "help") || crate::text::str_eq(c, "start") {
        BotAction::Help
    } else if crate::text::str_eq(c, "servers") || crate::text::str_eq(c, "list") {
        BotAction::ListServers
    } else if crate::text::str_eq(c, "status") {
        BotAction::Status(args)
    } else if crate::text::str_eq(c, "start_server") || crate::text::str_eq(c, "startserver") {
        BotAction::StartServer(args)
    } else if crate::text::str_eq(c, "stop_server") || crate::text::str_eq(c, "stopserver") {
        BotAction::StopServer(args)
    } else if crate::text::str_eq(c, "restart_server") || crate::text::str_eq(c, "restartserver") {
        BotAction::RestartServer(args)
    } else if crate::text::str_eq(c, "cmd") || crate::text::str_eq(c, "command") || crate::text::str_eq(c, "exec") {
        BotAction::Console(args)
    } else {
        BotAction::Unknown(command)
    }
}

/// The reply to an unknown command.
pub fn unknown_command_reply(command: &str) -> (r: String)
    ensures
        r@ == "未知命令：/"@ + command@ + "\n\n"@ + help_text_spec(),
{
    let mut r = concat3("未知命令：/", command, "\n\n");
    let h = help_text();
    append(&mut r, h.as_str());
    r
}

/// The console command a `/cmd` message carries, or the reply explaining
/// its use.
pub fn console_command_parts(args: &str) -> (r: Result<(String, String), String>)
    ensures
        r matches Ok((k, c)) ==> first_arg_split(args@) == Some((k@, c@)) && c@.len() > 0,
        r matches Err(m) ==> (first_arg_split(args@) is None && m@
            == "用法：/cmd <server_id|name> <command>\n示例：/cmd survival /save"@) || (
        first_arg_split(args@) matches Some((_, c)) && trim(c).len() == 0 && m@
            == "命令不能为空。示例：/cmd survival /save"@),
{
    match split_first_arg(args) {
        None => Err(owned("用法：/cmd <server_id|name> <command>\n示例：/cmd survival /save")),
        Some((k, c)) => {
            let t = trimmed(c.as_str());
            if t.unicode_len() == 0 {
                Err(owned("命令不能为空。示例：/cmd survival /save"))
            } else {
                Ok((k, c))
            }
        },
    }
}

/// How a server matches a lookup key exactly: by id, or by name ignoring ASCII
/// case.
pub open spec fn exact_match(s: TelegramServer, key: Seq<char>) -> bool {
    s.id@ == key || ascii_lower_seq(s.name@) == ascii_lower_seq(key)
}

/// How a server matches a lookup key loosely: its lower-cased name contains
/// the lower-cased key.
pub open spec fn loose_match(s: TelegramServer, key: Seq<char>) -> bool {
    contains(unicode_lowercase(s.name@), unicode_lowercase(key))
}

fn copy_server(s: &TelegramServer) -> (r: TelegramServer)
    ensures
        r.id@ == s.id@,
        r.name@ == s.name@,
        r.status@ == s.status@,
        r.port == s.port,
{
    TelegramServer { id: s.id.clone(), name: s.name.clone(), status: s.status.clone(), port: s.port }
}

/// Finds the server a chat means: the first exact match by id or name; else
/// the one server whose name contains the key; a blank key, no match or
/// several loose matches are errors.
pub fn find_server(servers: &Vec<TelegramServer>, key: &str) -> (r: Result<TelegramServer, AppError>)
    ensures
        trim(key@).len() == 0 ==> r matches Err(AppError::BadRequest(_)),
        r matches Ok(s) ==> exists|i: int|
            0 <= i < servers@.len() && (#[trigger] servers@[i]).id@ == s.id@ && servers@[i].name@
                == s.name@ && servers@[i].port == s.port && (exact_match(servers@[i], trim(key@))
                || (loose_match(servers@[i], trim(key@)) && forall|j: int|
                0 <= j < servers@.len() ==> !exact_match(#[trigger] servers@[j], trim(key@)))),
        (exists|i: int| 0 <= i < servers@.len() && exact_match(#[trigger] servers@[i], trim(key@)))
            && trim(key@).len() > 0 ==> r is Ok,
        r matches Err(AppError::NotFound(m)) ==> m@ == trim(key@) && forall|j: int|
            0 <= j < servers@.len() ==> !exact_match(#[trigger] servers@[j], trim(key@))
                && !loose_match(servers@[j], trim(key@)),
        r matches Err(AppError::Conflict(_)) ==> exists|a: int, b: int|
            0 <= a < b < servers@.len() && loose_match(#[trigger] servers@[a], trim(key@))
                && loose_match(#[trigger] servers@[b], trim(key@)),
        r matches Err(e) ==> (e is BadRequest || e is NotFound || e is Conflict),
{
    let k = trimmed(key);
    if k.unicode_len() == 0 {
        return Err(AppError::BadRequest(owned("server_id/name 不能为空")));
    }
    assert(k@.len() > 0);
    let kv = chars_of(k.as_str());
    let kl = ascii_lowercase(&kv);
    let mut i: usize = 0;
    while i < servers.len()
        invariant
            i <= servers.len(),
            kv@ == trim(key@),
            k@ == trim(key@),
            trim(key@).len() > 0,
            kl@ == ascii_lower_seq(kv@),
            forall|j: int| 0 <= j < i ==> !exact_match(#[trigger] servers@[j], trim(key@)),
        decreases servers.len() - i,
    {
        let s = &servers[i];
        assert(*s == servers@[i as int]);
        assert(kv@ == trim(key@));
        let nv = chars_of(s.name.as_str());
        let nl = ascii_lowercase(&nv);
        if crate::text::str_eq(s.id.as_str(), k.as_str()) || vec_eq(&nl, &kl) {
            assert(exact_match(servers@[i as int], trim(key@)));
            return Ok(copy_server(s));
        }
        i = i + 1;
    }
    let key_lower = to_lowercase(k.as_str());
    let klv = chars_of(key_lower.as_str());
    let mut found: Option<usize> = None;
    let mut j: usize = 0;
    while j < servers.len()
        invariant
            j <= servers.len(),
            klv@ == unicode_lowercase(trim(key@)),
            k@ == trim(key@),
            trim(key@).len() > 0,
            forall|x: int| 0 <= x < servers@.len() ==> !exact_match(#[trigger] servers@[x], trim(key@)),
            found matches Some(f) ==> f < j && loose_match(servers@[f as int], trim(key@)) && forall|x: int|
                0 <= x < j && x != f ==> !loose_match(#[trigger] servers@[x], trim(key@)),
            found is None ==> forall|x: int| 0 <= x < j ==> !loose_match(#[trigger] servers@[x], trim(key@)),
        decreases servers.len() - j,
    {
        let nl = to_lowercase(servers[j].name.as_str());
        let nlv = chars_of(nl.as_str());
        if contains_exec(&nlv, &klv) {
            match found {
                Some(f) => {
                    assert(loose_match(servers@[f as int], trim(key@)));
                    assert(loose_match(servers@[j as int], trim(key@)));
                    return Err(AppError::Conflict(owned("匹配到多个服务器，请使用 /servers 中显示的 id")));
                },
                None => {
                    found = Some(j);
                },
            }
        }
        j = j + 1;
    }
    match found {
        Some(f) => Ok(copy_server(&servers[f])),
        None => Err(AppError::NotFound(k)),
    }
}

/// The reply to a successful start, stop or restart.
pub fn action_done_reply(action: &str, server: &TelegramServer) -> (r: String)
    ensures
        r@ == action@ + "命令已执行："@ + server.name@ + " ("@ + server.id@ + ")"@,
{
    let mut r = concat3(action, "命令已执行：", server.name.as_str());
    append(&mut r, " (");
    append(&mut r, server.id.as_str());
    append(&mut r, ")");
    r
}

/// One line of the server list.
pub open spec fn server_line(s: TelegramServer, running: bool) -> Seq<char> {
    "- "@ + s.name@ + " ("@ + s.id@ + ")："@ + s.status@ + "，"@ + (if running {
        "进程运行"@
    } else {
        "进程停止"@
    }) + "，端口 "@ + decimal(s.port as nat)
}

fn push_server_line(out: &mut String, s: &TelegramServer, running: bool)
    ensures
        final(out)@ == old(out)@ + server_line(*s, running),
{
    append(out, "- ");
    append(out, s.name.as_str());
    append(out, " (");
    append(out, s.id.as_str());
    append(out, ")：");
    append(out, s.status.as_str());
    append(out, "，");
    if running {
        append(out, "进程运行");
    } else {
        append(out, "进程停止");
    }
    append(out, "，端口 ");
    push_decimal(out, s.port as u64);
    assert(final(out)@ =~= old(out)@ + server_line(*s, running));
}

/// The lines of a server list after its header, each preceded by a newline.
pub open spec fn server_lines(servers: Seq<TelegramServer>, running: Seq<bool>) -> Seq<char>
    decreases servers.len(),
{
    if servers.len() == 0 {
        Seq::empty()
    } else {
        server_lines(servers.drop_last(), running) + "\n"@ + server_line(
            servers.last(),
            running[servers.len() - 1],
        )
    }
}

/// The server list: a header and one line per server, or a note that there
/// are none; `running[i]` says whether server `i`'s process runs.
pub fn list_servers_text(servers: &Vec<TelegramServer>, running: &Vec<bool>) -> (r: String)
    requires
        running.len() == servers.len(),
    ensures
        r@ == (if servers@.len() == 0 {
            "暂无服务器。"@
        } else {
            "服务器列表："@ + server_lines(servers@, running@)
        }),
{
    if servers.len() == 0 {
        return owned("暂无服务器。");
    }
    let mut out = owned("服务器列表：");
    let mut i: usize = 0;
    while i < servers.len()
        invariant
            i <= servers.len() == running.len(),
            out@ == "服务器列表："@ + server_lines(servers@.take(i as int), running@),
        decreases servers.len() - i,
    {
        let ghost before = out@;
        push_char(&mut out, '\n');
        push_server_line(&mut out, &servers[i], running[i]);
        assert(servers@.take(i + 1).drop_last() =~= servers@.take(i as int));
        assert(servers@.take(i + 1).last() == servers@[i as int]);
        proof {
            reveal_strlit("\n");
            assert("\n"@ =~= seq!['\n']);
        }
        assert(out@ =~= "服务器列表："@ + server_lines(servers@.take(i + 1), running@));
        i = i + 1;
    }
    assert(servers@.take(servers.len() as int) =~= servers@);
    out
}

/// The status reply for one server.
pub fn server_status_text(server: &TelegramServer, running: bool) -> (r: String)
    ensures
        r@ == server.name@ + " ("@ + server.id@ + ")\n状态："@ + server.status@ + "\n进程："@ + (
        if running {
            "运行中"@
        } else {
            "未运行"@
        }) + "\n端口："@ + decimal(server.port as nat),
{
    let mut r = owned(server.name.as_str());
    append(&mut r, " (");
    append(&mut r, server.id.as_str());
    append(&mut r, ")\n状态：");
    append(&mut r, server.status.as_str());
    append(&mut r, "\n进程：");
    if running {
        append(&mut r, "运行中");
    } else {
        append(&mut r, "未运行");
    }
    append(&mut r, "\n端口：");
    push_decimal(&mut r, server.port as u64);
    r
}

// ───────────────────────── laws ─────────────────────────

/// How each command word of the bot is spelled, character by character (so
/// that distinct words are seen to differ).
proof fn lemma_bot_words_spelled()
    ensures
        "help"@.len() == 4 && "help"@[0] == 'h' && "help"@[1] == 'e' && "help"@[2] == 'l' && "help"@[3] == 'p',
        "start"@.len() == 5 && "start"@[0] == 's' && "start"@[1] == 't' && "start"@[2] == 'a' && "start"@[3] == 'r' && "start"@[4] == 't',
        "servers"@.len() == 7 && "servers"@[0] == 's' && "servers"@[1] == 'e' && "servers"@[2] == 'r' && "servers"@[3] == 'v' && "servers"@[4] == 'e' && "servers"@[5] == 'r' && "servers"@[6] == 's',
        "list"@.len() == 4 && "list"@[0] == 'l' && "list"@[1] == 'i' && "list"@[2] == 's' && "list"@[3] == 't',
        "status"@.len() == 6 && "status"@[0] == 's' && "status"@[1] == 't' && "status"@[2] == 'a' && "status"@[3] == 't' && "status"@[4] == 'u' && "status"@[5] == 's',
        "start_server"@.len() == 12 && "start_server"@[0] == 's' && "start_server"@[1] == 't' && "start_server"@[2] == 'a' && "start_server"@[3] == 'r' && "start_server"@[4] == 't' && "start_server"@[5] == '_' && "start_server"@[6] == 's' && "start_server"@[7] == 'e' && "start_server"@[8] == 'r' && "start_server"@[9] == 'v' && "start_server"@[10] == 'e' && "start_server"@[11] == 'r',
        "startserver"@.len() == 11 && "startserver"@[0] == 's' && "startserver"@[1] == 't' && "startserver"@[2] == 'a' && "startserver"@[3] == 'r' && "startserver"@[4] == 't' && "startserver"@[5] == 's' && "startserver"@[6] == 'e' && "startserver"@[7] == 'r' && "startserver"@[8] == 'v' && "startserver"@[9] == 'e' && "startserver"@[10] == 'r',
        "stop_server"@.len() == 11 && "stop_server"@[0] == 's' && "stop_server"@[1] == 't' && "stop_server"@[2] == 'o' && "stop_server"@[3] == 'p' && "stop_server"@[4] == '_' && "stop_server"@[5] == 's' && "stop_server"@[6] == 'e' && "stop_server"@[7] == 'r' && "stop_server"@[8] == 'v' && "stop_server"@[9] == 'e' && "stop_server"@[10] == 'r',
        "stopserver"@.len() == 10 && "stopserver"@[0] == 's' && "stopserver"@[1] == 't' && "stopserver"@[2] == 'o' && "stopserver"@[3] == 'p' && "stopserver"@[4] == 's' && "stopserver"@[5] == 'e' && "stopserver"@[6] == 'r' && "stopserver"@[7] == 'v' && "stopserver"@[8] == 'e' && "stopserver"@[9] == 'r',
        "restart_server"@.len() == 14 && "restart_server"@[0] == 'r' && "restart_server"@[1] == 'e' && "restart_server"@[2] == 's' && "restart_server"@[3] == 't' && "restart_server"@[4] == 'a' && "restart_server"@[5] == 'r' && "restart_server"@[6] == 't' && "restart_server"@[7] == '_' && "restart_server"@[8] == 's' && "restart_server"@[9] == 'e' && "restart_server"@[10] == 'r' && "restart_server"@[11] == 'v' && "restart_server"@[12] == 'e' && "restart_server"@[13] == 'r',
        "restartserver"@.len() == 13 && "restartserver"@[0] == 'r' && "restartserver"@[1] == 'e' && "restartserver"@[2] == 's' && "restartserver"@[3] == 't' && "restartserver"@[4] == 'a' && "restartserver"@[5] == 'r' && "restartserver"@[6] == 't' && "restartserver"@[7] == 's' && "restartserver"@[8] == 'e' && "restartserver"@[9] == 'r' && "restartserver"@[10] == 'v' && "restartserver"@[11] == 'e' && "restartserver"@[12] == 'r',
        "cmd"@.len() == 3 && "cmd"@[0] == 'c' && "cmd"@[1] == 'm' && "cmd"@[2] == 'd',
        "command"@.len() == 7 && "command"@[0] == 'c' && "command"@[1] == 'o' && "command"@[2] == 'm' && "command"@[3] == 'm' && "command"@[4] == 'a' && "command"@[5] == 'n' && "command"@[6] == 'd',
        "exec"@.len() == 4 && "exec"@[0] == 'e' && "exec"@[1] == 'x' && "exec"@[2] == 'e' && "exec"@[3] == 'c',
{
    reveal_strlit("help");
    reveal_strlit("start");
    reveal_strlit("servers");
    reveal_strlit("list");
    reveal_strlit("status");
    reveal_strlit("start_server");
    reveal_strlit("startserver");
    reveal_strlit("stop_server");
    reveal_strlit("stopserver");
    reveal_strlit("restart_server");
    reveal_strlit("restartserver");
    reveal_strlit("cmd");
    reveal_strlit("command");
    reveal_strlit("exec");
}

/// The command words the bot understands, with the action each asks for:
/// `/help` and `/start` show the help; `/servers` and `/list` list the
/// servers; `/status`, `/start_server` (`/startserver`), `/stop_server`
/// (`/stopserver`) and `/restart_server` (`/restartserver`) act on the
/// server named in the arguments; `/cmd`, `/command` and `/exec` send the
/// arguments to a console; any other word is unknown and named back.
pub proof fn law_bot_command_words(c: Seq<char>, a: Seq<char>)
    ensures
        c == "help"@ || c == "start"@ ==> action_for(c, a) == BotActionView::Help,
        c == "servers"@ || c == "list"@ ==> action_for(c, a) == BotActionView::ListServers,
        c == "status"@ ==> action_for(c, a) == BotActionView::Status(a),
        c == "start_server"@ || c == "startserver"@ ==> action_for(c, a) == BotActionView::StartServer(a),
        c == "stop_server"@ || c == "stopserver"@ ==> action_for(c, a) == BotActionView::StopServer(a),
        c == "restart_server"@ || c == "restartserver"@ ==> action_for(c, a) == BotActionView::RestartServer(a),
        c == "cmd"@ || c == "command"@ || c == "exec"@ ==> action_for(c, a) == BotActionView::Console(a),
        c != "help"@ && c != "start"@ && c != "servers"@ && c != "list"@ && c != "status"@ && c
            != "start_server"@ && c != "startserver"@ && c != "stop_server"@ && c != "stopserver"@ && c
            != "restart_server"@ && c != "restartserver"@ && c != "cmd"@ && c != "command"@ && c != "exec"@
            ==> action_for(c, a) == BotActionView::Unknown(c),
{
    lemma_bot_words_spelled();
}

} // verus!
