//! Which console commands a panel user may send to a TShock server.
use vstd::prelude::*;

use crate::auth::{is_admin_role, is_operator_or_admin_role, Auth};
use crate::text::{
    chars_eq, chars_of, is_whitespace, is_ws, str_eq, str_starts_with, string_of, to_lowercase, trim, trim_start, trim_start_pos, trimmed, lowercase, starts_with,
};

verus! {

/// The least privilege a command needs.
#[derive(Debug, Clone, Copy, PartialEq, Eq, Structural)]
pub enum CommandScope {
    Viewer,
    Operator,
    Owner,
    Admin,
}

// ───────────────────────── specification ─────────────────────────

/// The leading run of non-whitespace characters of `s`.
pub open spec fn take_word(s: Seq<char>) -> Seq<char>
    decreases s.len(),
{
    if s.len() == 0 || is_ws(s[0]) {
        Seq::empty()
    } else {
        seq![s[0]] + take_word(s.drop_first())
    }
}

/// `s` after its leading run of non-whitespace characters.
pub open spec fn drop_word(s: Seq<char>) -> Seq<char>
    decreases s.len(),
{
    if s.len() == 0 || is_ws(s[0]) {
        s
    } else {
        drop_word(s.drop_first())
    }
}

/// The first whitespace-separated word of `s`, or empty.
pub open spec fn first_word(s: Seq<char>) -> Seq<char> {
    take_word(trim_start(s))
}

/// The second whitespace-separated word of `s`, or empty.
pub open spec fn second_word(s: Seq<char>) -> Seq<char> {
    take_word(trim_start(drop_word(trim_start(s))))
}

/// The canonical name of a command word, resolving aliases.
pub open spec fn command_alias(w: Seq<char>) -> Seq<char> {
    if w == "/slay"@ {
        "/kill"@
    } else if w == "/god"@ {
        "/godmode"@
    } else if w == "/g"@ {
        "/give"@
    } else if w == "/gamemode"@ {
        "/worldmode"@
    } else {
        w
    }
}

/// The key a lower-cased, trimmed command line is classified by.
pub open spec fn command_key(t: Seq<char>) -> Seq<char> {
    let first = first_word(t);
    let second = second_word(t);
    if first == "/time"@ && second == "day"@ {
        "/time day"@
    } else if first == "/time"@ && second == "night"@ {
        "/time night"@
    } else if first == "/group"@ && second == "list"@ {
        "/group list"@
    } else if first == "/user"@ && second == "list"@ {
        "/user list"@
    } else {
        command_alias(first)
    }
}

/// The classification key of a raw command line.
pub open spec fn normalized_command(command: Seq<char>) -> Seq<char> {
    command_key(lowercase(trim(command)))
}

/// Commands TShock only accepts from an in-game player.
pub open spec fn in_game_only(key: Seq<char>) -> bool {
    ||| key == "/setup"@
    ||| key == "/login"@
    ||| key == "/logout"@
    ||| key == "/password"@
    ||| key == "/register"@
    ||| key == "/item"@
    ||| key == "/i"@
    ||| key == "/spawnboss"@
    ||| key == "/sb"@
    ||| key == "/spawnmob"@
    ||| key == "/sm"@
    ||| key == "/home"@
    ||| key == "/spawn"@
    ||| key == "/tp"@
    ||| key == "/tphere"@
    ||| key == "/tpnpc"@
    ||| key == "/tppos"@
    ||| key == "/pos"@
    ||| key == "/tpallow"@
    ||| key == "/grow"@
    ||| key == "/setspawn"@
    ||| key == "/setdungeon"@
    ||| key == "/buff"@
    ||| key == "/party"@
    ||| key == "/p"@
    ||| key == "/wallow"@
    ||| key == "/wa"@
    ||| key == "/death"@
    ||| key == "/pvpdeath"@
}

pub open spec fn viewer_key(key: Seq<char>) -> bool {
    ||| key == "/who"@
    ||| key == "/online"@
    ||| key == "/playing"@
    ||| key == "/time"@
    ||| key == "/world"@
    ||| key == "/rules"@
    ||| key == "/help"@
    ||| key == "/motd"@
}

pub open spec fn operator_key(key: Seq<char>) -> bool {
    ||| key == "/save"@
    ||| key == "/time day"@
    ||| key == "/time night"@
    ||| key == "/butcher"@
    ||| key == "/broadcast"@
    ||| key == "/bc"@
    ||| key == "/say"@
    ||| key == "/kick"@
    ||| key == "/ban"@
    ||| key == "/mute"@
    ||| key == "/unmute"@
    ||| key == "/kill"@
    ||| key == "/slap"@
    ||| key == "/heal"@
    ||| key == "/godmode"@
    ||| key == "/gbuff"@
    ||| key == "/give"@
    ||| key == "/settle"@
    ||| key == "/worldevent"@
    ||| key == "/wind"@
}

pub open spec fn owner_key(key: Seq<char>) -> bool {
    ||| key == "/off"@
    ||| key == "/reload"@
    ||| key == "/whitelist"@
    ||| key == "/region"@
}

pub open spec fn admin_key(key: Seq<char>) -> bool {
    ||| key == "/group list"@
    ||| key == "/user list"@
    ||| key == "/antibuild"@
    ||| key == "/hardmode"@
    ||| key == "/evil"@
    ||| key == "/worldmode"@
}

/// The scope of a classification key; unlisted slash commands need the
/// server's owner, anything else needs an admin.
pub open spec fn scope_of(key: Seq<char>) -> CommandScope {
    if viewer_key(key) {
        CommandScope::Viewer
    } else if operator_key(key) {
        CommandScope::Operator
    } else if owner_key(key) {
        CommandScope::Owner
    } else if admin_key(key) {
        CommandScope::Admin
    } else if starts_with(key, "/"@) {
        CommandScope::Owner
    } else {
        CommandScope::Admin
    }
}

/// Whether a user with `role` and `user_id` may run a command of `scope` on a
/// server owned by `owner`.
pub open spec fn scope_allows(
    scope: CommandScope,
    role: Seq<char>,
    user_id: Seq<char>,
    owner: Option<Seq<char>>,
) -> bool {
    match scope {
        CommandScope::Viewer => true,
        CommandScope::Operator => is_operator_or_admin_role(role),
        CommandScope::Owner => is_admin_role(role) || owner == Some(user_id),
        CommandScope::Admin => is_admin_role(role),
    }
}

/// The whole decision: in-game-only commands are never allowed from the
/// panel; anything else is allowed when the command's scope allows the user.
pub open spec fn command_allowed(
    role: Seq<char>,
    user_id: Seq<char>,
    owner: Option<Seq<char>>,
    command: Seq<char>,
) -> bool {
    let key = normalized_command(command);
    !in_game_only(key) && scope_allows(scope_of(key), role, user_id, owner)
}

pub open spec fn owner_view(owner: Option<&str>) -> Option<Seq<char>> {
    match owner {
        Some(o) => Some(o@),
        None => None,
    }
}

// ───────────────────────── word splitting ─────────────────────────

proof fn lemma_word_step(v: Seq<char>, a: int, i: int)
    requires
        0 <= a <= i < v.len(),
        !is_ws(v[i]),
        take_word(v.skip(a)) == v.subrange(a, i) + take_word(v.skip(i)),
        drop_word(v.skip(a)) == drop_word(v.skip(i)),
    ensures
        take_word(v.skip(a)) == v.subrange(a, i + 1) + take_word(v.skip(i + 1)),
        drop_word(v.skip(a)) == drop_word(v.skip(i + 1)),
{
    assert(v.skip(i).drop_first() =~= v.skip(i + 1));
    assert(v.subrange(a, i) + seq![v[i]] =~= v.subrange(a, i + 1));
    assert(v.subrange(a, i) + (seq![v[i]] + take_word(v.skip(i + 1))) =~= v.subrange(a, i + 1)
        + take_word(v.skip(i + 1)));
}

/// End of the word of `v` that starts at `a`.
pub fn word_end(v: &Vec<char>, a: usize) -> (e: usize)
    requires
        a <= v.len(),
    ensures
        a <= e <= v.len(),
        take_word(v@.skip(a as int)) == v@.subrange(a as int, e as int),
        drop_word(v@.skip(a as int)) == v@.skip(e as int),
{
    let mut i = a;
    assert(v@.subrange(a as int, a as int) + take_word(v@.skip(a as int)) =~= take_word(
        v@.skip(a as int),
    ));
    while i < v.len() && !is_whitespace(v[i])
        invariant
            a <= i <= v.len(),
            take_word(v@.skip(a as int)) == v@.subrange(a as int, i as int) + take_word(
                v@.skip(i as int),
            ),
            drop_word(v@.skip(a as int)) == drop_word(v@.skip(i as int)),
        decreases v.len() - i,
    {
        proof {
            lemma_word_step(v@, a as int, i as int);
        }
        i = i + 1;
    }
    assert(take_word(v@.skip(i as int)) =~= Seq::<char>::empty());
    assert(v@.subrange(a as int, i as int) + Seq::<char>::empty() =~= v@.subrange(
        a as int,
        i as int,
    ));
    i
}

/// The first and second words of `t`.
fn first_two_words(t: &Vec<char>) -> (r: (Vec<char>, Vec<char>))
    ensures
        r.0@ == first_word(t@),
        r.1@ == second_word(t@),
{
    assert(t@.skip(0) =~= t@);
    let a = trim_start_pos(t, 0);
    let e = word_end(t, a);
    let b = trim_start_pos(t, e);
    let f = word_end(t, b);
    let mut w1: Vec<char> = Vec::new();
    let mut i = a;
    while i < e
        invariant
            a <= i <= e <= t.len(),
            w1@ == t@.subrange(a as int, i as int),
        decreases e - i,
    {
        w1.push(t[i]);
        i = i + 1;
        assert(w1@ =~= t@.subrange(a as int, i as int));
    }
    let mut w2: Vec<char> = Vec::new();
    let mut j = b;
    while j < f
        invariant
            b <= j <= f <= t.len(),
            w2@ == t@.subrange(b as int, j as int),
        decreases f - j,
    {
        w2.push(t[j]);
        j = j + 1;
        assert(w2@ =~= t@.subrange(b as int, j as int));
    }
    (w1, w2)
}

// ───────────────────────── classification ─────────────────────────

/// The classification key of a command line: trimmed, lower-cased, cut to its
/// first word (or first two words for `/time day`, `/time night`,
/// `/group list`, `/user list`), with aliases resolved.
pub fn normalize_command(command: &str) -> (r: String)
    ensures
        r@ == normalized_command(command@),
{
    let t = trimmed(command);
    let lower = to_lowercase(t.as_str());
    let lv = chars_of(lower.as_str());
    let (first, second) = first_two_words(&lv);
    if chars_eq(&first, "/time") && chars_eq(&second, "day") {
        return String::from_str("/time day");
    }
    if chars_eq(&first, "/time") && chars_eq(&second, "night") {
        return String::from_str("/time night");
    }
    if chars_eq(&first, "/group") && chars_eq(&second, "list") {
        return String::from_str("/group list");
    }
    if chars_eq(&first, "/user") && chars_eq(&second, "list") {
        return String::from_str("/user list");
    }
    if chars_eq(&first, "/slay") {
        String::from_str("/kill")
    } else if chars_eq(&first, "/god") {
        String::from_str("/godmode")
    } else if chars_eq(&first, "/g") {
        String::from_str("/give")
    } else if chars_eq(&first, "/gamemode") {
        String::from_str("/worldmode")
    } else {
        string_of(&first)
    }
}

fn is_in_game_only_key(k: &str) -> (r: bool)
    ensures
        r == in_game_only(k@),
{
    str_eq(k, "/setup") || str_eq(k, "/login") || str_eq(k, "/logout") || str_eq(k, "/password")
        || str_eq(k, "/register") || str_eq(k, "/item") || str_eq(k, "/i") || str_eq(
        k,
        "/spawnboss",
    ) || str_eq(k, "/sb") || str_eq(k, "/spawnmob") || str_eq(k, "/sm") || str_eq(k, "/home")
        || str_eq(k, "/spawn") || str_eq(k, "/tp") || str_eq(k, "/tphere") || str_eq(k, "/tpnpc")
        || str_eq(k, "/tppos") || str_eq(k, "/pos") || str_eq(k, "/tpallow") || str_eq(k, "/grow")
        || str_eq(k, "/setspawn") || str_eq(k, "/setdungeon") || str_eq(k, "/buff") || str_eq(
        k,
        "/party",
    ) || str_eq(k, "/p") || str_eq(k, "/wallow") || str_eq(k, "/wa") || str_eq(k, "/death")
        || str_eq(k, "/pvpdeath")
}

fn is_viewer_key(k: &str) -> (r: bool)
    ensures
        r == viewer_key(k@),
{
    str_eq(k, "/who") || str_eq(k, "/online") || str_eq(k, "/playing") || str_eq(k, "/time")
        || str_eq(k, "/world") || str_eq(k, "/rules") || str_eq(k, "/help") || str_eq(k, "/motd")
}

fn is_operator_key(k: &str) -> (r: bool)
    ensures
        r == operator_key(k@),
{
    str_eq(k, "/save") || str_eq(k, "/time day") || str_eq(k, "/time night") || str_eq(
        k,
        "/butcher",
    ) || str_eq(k, "/broadcast") || str_eq(k, "/bc") || str_eq(k, "/say") || str_eq(k, "/kick")
        || str_eq(k, "/ban") || str_eq(k, "/mute") || str_eq(k, "/unmute") || str_eq(k, "/kill")
        || str_eq(k, "/slap") || str_eq(k, "/heal") || str_eq(k, "/godmode") || str_eq(k, "/gbuff")
        || str_eq(k, "/give") || str_eq(k, "/settle") || str_eq(k, "/worldevent") || str_eq(
        k,
        "/wind",
    )
}

fn is_owner_key(k: &str) -> (r: bool)
    ensures
        r == owner_key(k@),
{
    str_eq(k, "/off") || str_eq(k, "/reload") || str_eq(k, "/whitelist") || str_eq(k, "/region")
}

fn is_admin_key(k: &str) -> (r: bool)
    ensures
        r == admin_key(k@),
{
    str_eq(k, "/group list") || str_eq(k, "/user list") || str_eq(k, "/antibuild") || str_eq(
        k,
        "/hardmode",
    ) || str_eq(k, "/evil") || str_eq(k, "/worldmode")
}

/// Commands that TShock's command registry marks as `AllowServer = false`:
/// they need an in-game player and are never sent from the panel.
pub fn requires_game_player_context(command: &str) -> (r: bool)
    ensures
        r == in_game_only(normalized_command(command@)),
{
    let key = normalize_command(command);
    is_in_game_only_key(key.as_str())
}

/// The least privilege needed to run `command`.
pub fn required_scope(command: &str) -> (r: CommandScope)
    ensures
        r == scope_of(normalized_command(command@)),
{
    let key = normalize_command(command);
    let k = key.as_str();
    if is_viewer_key(k) {
        CommandScope::Viewer
    } else if is_operator_key(k) {
        CommandScope::Operator
    } else if is_owner_key(k) {
        CommandScope::Owner
    } else if is_admin_key(k) {
        CommandScope::Admin
    } else if str_starts_with(k, "/") {
        CommandScope::Owner
    } else {
        CommandScope::Admin
    }
}

/// Whether `auth` may send `command` to a server owned by `server_owner_id`.
pub fn can_execute_command(auth: &Auth, server_owner_id: Option<&str>, command: &str) -> (r: bool)
    ensures
        r == command_allowed(auth.role@, auth.user_id@, owner_view(server_owner_id), command@),
{
    if requires_game_player_context(command) {
        return false;
    }
    match required_scope(command) {
        CommandScope::Viewer => true,
        CommandScope::Operator => auth.is_operator_or_admin(),
        CommandScope::Owner => {
            auth.is_admin() || match server_owner_id {
                Some(owner_id) => str_eq(owner_id, auth.user_id.as_str()),
                None => false,
            }
        },
        CommandScope::Admin => auth.is_admin(),
    }
}

// ───────────────────────── laws ─────────────────────────

/// A command that needs an in-game player is refused to everyone,
/// administrators included.
pub proof fn law_in_game_commands_never_allowed(
    role: Seq<char>,
    user_id: Seq<char>,
    owner: Option<Seq<char>>,
    command: Seq<char>,
)
    requires
        in_game_only(normalized_command(command)),
    ensures
        !command_allowed(role, user_id, owner, command),
{
}

/// An administrator may run every command that anyone may run.
pub proof fn law_admin_may_run_what_anyone_may(
    role: Seq<char>,
    user_id: Seq<char>,
    admin_id: Seq<char>,
    owner: Option<Seq<char>>,
    command: Seq<char>,
)
    requires
        command_allowed(role, user_id, owner, command),
    ensures
        command_allowed("admin"@, admin_id, owner, command),
{
}

/// Privilege is monotone in the role: whatever a viewer may run, an operator
/// with the same identity may run, and whatever an operator may run, an
/// administrator may run.
pub proof fn law_role_monotone(
    user_id: Seq<char>,
    owner: Option<Seq<char>>,
    command: Seq<char>,
    weaker: Seq<char>,
)
    requires
        weaker != "admin"@ && weaker != "operator"@,
    ensures
        command_allowed(weaker, user_id, owner, command) ==> command_allowed(
            "operator"@,
            user_id,
            owner,
            command,
        ),
        command_allowed("operator"@, user_id, owner, command) ==> command_allowed(
            "admin"@,
            user_id,
            owner,
            command,
        ),
{
}

/// Viewer-scope commands that are not in-game-only are open to every role.
pub proof fn law_viewer_commands_open_to_all(
    role: Seq<char>,
    user_id: Seq<char>,
    owner: Option<Seq<char>>,
    command: Seq<char>,
)
    requires
        scope_of(normalized_command(command)) == CommandScope::Viewer,
        !in_game_only(normalized_command(command)),
    ensures
        command_allowed(role, user_id, owner, command),
{
}

/// For an owner-scope command, a non-admin may run it exactly when they own
/// the server.
pub proof fn law_owner_scope_needs_ownership(
    role: Seq<char>,
    user_id: Seq<char>,
    owner: Option<Seq<char>>,
    command: Seq<char>,
)
    requires
        scope_of(normalized_command(command)) == CommandScope::Owner,
        !in_game_only(normalized_command(command)),
        role != "admin"@,
    ensures
        command_allowed(role, user_id, owner, command) <==> owner == Some(user_id),
{
}

/// The commands an operator may run on any server, owned or not: saving,
/// the time of day, butchering, broadcasting, kicking, banning, muting,
/// killing, slapping, healing, god mode, buffs, giving items, settling
/// liquids, world events and wind (and the aliases `/slay`, `/god`, `/g`).
/// The word is the first word of the trimmed, lower-cased command line.
/// How each command word, scope word and role this policy names is spelled,
/// character by character (so that distinct words are seen to differ).
proof fn lemma_command_words_spelled()
    ensures
        "/slay"@.len() == 5 && "/slay"@[0] == '/' && "/slay"@[1] == 's' && "/slay"@[2] == 'l' && "/slay"@[3] == 'a' && "/slay"@[4] == 'y',
        "/kill"@.len() == 5 && "/kill"@[0] == '/' && "/kill"@[1] == 'k' && "/kill"@[2] == 'i' && "/kill"@[3] == 'l' && "/kill"@[4] == 'l',
        "/god"@.len() == 4 && "/god"@[0] == '/' && "/god"@[1] == 'g' && "/god"@[2] == 'o' && "/god"@[3] == 'd',
        "/godmode"@.len() == 8 && "/godmode"@[0] == '/' && "/godmode"@[1] == 'g' && "/godmode"@[2] == 'o' && "/godmode"@[3] == 'd' && "/godmode"@[4] == 'm' && "/godmode"@[5] == 'o' && "/godmode"@[6] == 'd' && "/godmode"@[7] == 'e',
        "/g"@.len() == 2 && "/g"@[0] == '/' && "/g"@[1] == 'g',
        "/give"@.len() == 5 && "/give"@[0] == '/' && "/give"@[1] == 'g' && "/give"@[2] == 'i' && "/give"@[3] == 'v' && "/give"@[4] == 'e',
        "/gamemode"@.len() == 9 && "/gamemode"@[0] == '/' && "/gamemode"@[1] == 'g' && "/gamemode"@[2] == 'a' && "/gamemode"@[3] == 'm' && "/gamemode"@[4] == 'e' && "/gamemode"@[5] == 'm' && "/gamemode"@[6] == 'o' && "/gamemode"@[7] == 'd' && "/gamemode"@[8] == 'e',
        "/worldmode"@.len() == 10 && "/worldmode"@[0] == '/' && "/worldmode"@[1] == 'w' && "/worldmode"@[2] == 'o' && "/worldmode"@[3] == 'r' && "/worldmode"@[4] == 'l' && "/worldmode"@[5] == 'd' && "/worldmode"@[6] == 'm' && "/worldmode"@[7] == 'o' && "/worldmode"@[8] == 'd' && "/worldmode"@[9] == 'e',
        "/time"@.len() == 5 && "/time"@[0] == '/' && "/time"@[1] == 't' && "/time"@[2] == 'i' && "/time"@[3] == 'm' && "/time"@[4] == 'e',
        "day"@.len() == 3 && "day"@[0] == 'd' && "day"@[1] == 'a' && "day"@[2] == 'y',
        "/time day"@.len() == 9 && "/time day"@[0] == '/' && "/time day"@[1] == 't' && "/time day"@[2] == 'i' && "/time day"@[3] == 'm' && "/time day"@[4] == 'e' && "/time day"@[5] == ' ' && "/time day"@[6] == 'd' && "/time day"@[7] == 'a' && "/time day"@[8] == 'y',
        "night"@.len() == 5 && "night"@[0] == 'n' && "night"@[1] == 'i' && "night"@[2] == 'g' && "night"@[3] == 'h' && "night"@[4] == 't',
        "/time night"@.len() == 11 && "/time night"@[0] == '/' && "/time night"@[1] == 't' && "/time night"@[2] == 'i' && "/time night"@[3] == 'm' && "/time night"@[4] == 'e' && "/time night"@[5] == ' ' && "/time night"@[6] == 'n' && "/time night"@[7] == 'i' && "/time night"@[8] == 'g' && "/time night"@[9] == 'h' && "/time night"@[10] == 't',
        "/group"@.len() == 6 && "/group"@[0] == '/' && "/group"@[1] == 'g' && "/group"@[2] == 'r' && "/group"@[3] == 'o' && "/group"@[4] == 'u' && "/group"@[5] == 'p',
        "list"@.len() == 4 && "list"@[0] == 'l' && "list"@[1] == 'i' && "list"@[2] == 's' && "list"@[3] == 't',
        "/group list"@.len() == 11 && "/group list"@[0] == '/' && "/group list"@[1] == 'g' && "/group list"@[2] == 'r' && "/group list"@[3] == 'o' && "/group list"@[4] == 'u' && "/group list"@[5] == 'p' && "/group list"@[6] == ' ' && "/group list"@[7] == 'l' && "/group list"@[8] == 'i' && "/group list"@[9] == 's' && "/group list"@[10] == 't',
        "/user"@.len() == 5 && "/user"@[0] == '/' && "/user"@[1] == 'u' && "/user"@[2] == 's' && "/user"@[3] == 'e' && "/user"@[4] == 'r',
        "/user list"@.len() == 10 && "/user list"@[0] == '/' && "/user list"@[1] == 'u' && "/user list"@[2] == 's' && "/user list"@[3] == 'e' && "/user list"@[4] == 'r' && "/user list"@[5] == ' ' && "/user list"@[6] == 'l' && "/user list"@[7] == 'i' && "/user list"@[8] == 's' && "/user list"@[9] == 't',
        "/setup"@.len() == 6 && "/setup"@[0] == '/' && "/setup"@[1] == 's' && "/setup"@[2] == 'e' && "/setup"@[3] == 't' && "/setup"@[4] == 'u' && "/setup"@[5] == 'p',
        "/login"@.len() == 6 && "/login"@[0] == '/' && "/login"@[1] == 'l' && "/login"@[2] == 'o' && "/login"@[3] == 'g' && "/login"@[4] == 'i' && "/login"@[5] == 'n',
        "/logout"@.len() == 7 && "/logout"@[0] == '/' && "/logout"@[1] == 'l' && "/logout"@[2] == 'o' && "/logout"@[3] == 'g' && "/logout"@[4] == 'o' && "/logout"@[5] == 'u' && "/logout"@[6] == 't',
        "/password"@.len() == 9 && "/password"@[0] == '/' && "/password"@[1] == 'p' && "/password"@[2] == 'a' && "/password"@[3] == 's' && "/password"@[4] == 's' && "/password"@[5] == 'w' && "/password"@[6] == 'o' && "/password"@[7] == 'r' && "/password"@[8] == 'd',
        "/register"@.len() == 9 && "/register"@[0] == '/' && "/register"@[1] == 'r' && "/register"@[2] == 'e' && "/register"@[3] == 'g' && "/register"@[4] == 'i' && "/register"@[5] == 's' && "/register"@[6] == 't' && "/register"@[7] == 'e' && "/register"@[8] == 'r',
        "/item"@.len() == 5 && "/item"@[0] == '/' && "/item"@[1] == 'i' && "/item"@[2] == 't' && "/item"@[3] == 'e' && "/item"@[4] == 'm',
        "/i"@.len() == 2 && "/i"@[0] == '/' && "/i"@[1] == 'i',
        "/spawnboss"@.len() == 10 && "/spawnboss"@[0] == '/' && "/spawnboss"@[1] == 's' && "/spawnboss"@[2] == 'p' && "/spawnboss"@[3] == 'a' && "/spawnboss"@[4] == 'w' && "/spawnboss"@[5] == 'n' && "/spawnboss"@[6] == 'b' && "/spawnboss"@[7] == 'o' && "/spawnboss"@[8] == 's' && "/spawnboss"@[9] == 's',
        "/sb"@.len() == 3 && "/sb"@[0] == '/' && "/sb"@[1] == 's' && "/sb"@[2] == 'b',
        "/spawnmob"@.len() == 9 && "/spawnmob"@[0] == '/' && "/spawnmob"@[1] == 's' && "/spawnmob"@[2] == 'p' && "/spawnmob"@[3] == 'a' && "/spawnmob"@[4] == 'w' && "/spawnmob"@[5] == 'n' && "/spawnmob"@[6] == 'm' && "/spawnmob"@[7] == 'o' && "/spawnmob"@[8] == 'b',
        "/sm"@.len() == 3 && "/sm"@[0] == '/' && "/sm"@[1] == 's' && "/sm"@[2] == 'm',
        "/home"@.len() == 5 && "/home"@[0] == '/' && "/home"@[1] == 'h' && "/home"@[2] == 'o' && "/home"@[3] == 'm' && "/home"@[4] == 'e',
        "/spawn"@.len() == 6 && "/spawn"@[0] == '/' && "/spawn"@[1] == 's' && "/spawn"@[2] == 'p' && "/spawn"@[3] == 'a' && "/spawn"@[4] == 'w' && "/spawn"@[5] == 'n',
        "/tp"@.len() == 3 && "/tp"@[0] == '/' && "/tp"@[1] == 't' && "/tp"@[2] == 'p',
        "/tphere"@.len() == 7 && "/tphere"@[0] == '/' && "/tphere"@[1] == 't' && "/tphere"@[2] == 'p' && "/tphere"@[3] == 'h' && "/tphere"@[4] == 'e' && "/tphere"@[5] == 'r' && "/tphere"@[6] == 'e',
        "/tpnpc"@.len() == 6 && "/tpnpc"@[0] == '/' && "/tpnpc"@[1] == 't' && "/tpnpc"@[2] == 'p' && "/tpnpc"@[3] == 'n' && "/tpnpc"@[4] == 'p' && "/tpnpc"@[5] == 'c',
        "/tppos"@.len() == 6 && "/tppos"@[0] == '/' && "/tppos"@[1] == 't' && "/tppos"@[2] == 'p' && "/tppos"@[3] == 'p' && "/tppos"@[4] == 'o' && "/tppos"@[5] == 's',
        "/pos"@.len() == 4 && "/pos"@[0] == '/' && "/pos"@[1] == 'p' && "/pos"@[2] == 'o' && "/pos"@[3] == 's',
        "/tpallow"@.len() == 8 && "/tpallow"@[0] == '/' && "/tpallow"@[1] == 't' && "/tpallow"@[2] == 'p' && "/tpallow"@[3] == 'a' && "/tpallow"@[4] == 'l' && "/tpallow"@[5] == 'l' && "/tpallow"@[6] == 'o' && "/tpallow"@[7] == 'w',
        "/grow"@.len() == 5 && "/grow"@[0] == '/' && "/grow"@[1] == 'g' && "/grow"@[2] == 'r' && "/grow"@[3] == 'o' && "/grow"@[4] == 'w',
        "/setspawn"@.len() == 9 && "/setspawn"@[0] == '/' && "/setspawn"@[1] == 's' && "/setspawn"@[2] == 'e' && "/setspawn"@[3] == 't' && "/setspawn"@[4] == 's' && "/setspawn"@[5] == 'p' && "/setspawn"@[6] == 'a' && "/setspawn"@[7] == 'w' && "/setspawn"@[8] == 'n',
        "/setdungeon"@.len() == 11 && "/setdungeon"@[0] == '/' && "/setdungeon"@[1] == 's' && "/setdungeon"@[2] == 'e' && "/setdungeon"@[3] == 't' && "/setdungeon"@[4] == 'd' && "/setdungeon"@[5] == 'u' && "/setdungeon"@[6] == 'n' && "/setdungeon"@[7] == 'g' && "/setdungeon"@[8] == 'e' && "/setdungeon"@[9] == 'o' && "/setdungeon"@[10] == 'n',
        "/buff"@.len() == 5 && "/buff"@[0] == '/' && "/buff"@[1] == 'b' && "/buff"@[2] == 'u' && "/buff"@[3] == 'f' && "/buff"@[4] == 'f',
        "/party"@.len() == 6 && "/party"@[0] == '/' && "/party"@[1] == 'p' && "/party"@[2] == 'a' && "/party"@[3] == 'r' && "/party"@[4] == 't' && "/party"@[5] == 'y',
        "/p"@.len() == 2 && "/p"@[0] == '/' && "/p"@[1] == 'p',
        "/wallow"@.len() == 7 && "/wallow"@[0] == '/' && "/wallow"@[1] == 'w' && "/wallow"@[2] == 'a' && "/wallow"@[3] == 'l' && "/wallow"@[4] == 'l' && "/wallow"@[5] == 'o' && "/wallow"@[6] == 'w',
        "/wa"@.len() == 3 && "/wa"@[0] == '/' && "/wa"@[1] == 'w' && "/wa"@[2] == 'a',
        "/death"@.len() == 6 && "/death"@[0] == '/' && "/death"@[1] == 'd' && "/death"@[2] == 'e' && "/death"@[3] == 'a' && "/death"@[4] == 't' && "/death"@[5] == 'h',
        "/pvpdeath"@.len() == 9 && "/pvpdeath"@[0] == '/' && "/pvpdeath"@[1] == 'p' && "/pvpdeath"@[2] == 'v' && "/pvpdeath"@[3] == 'p' && "/pvpdeath"@[4] == 'd' && "/pvpdeath"@[5] == 'e' && "/pvpdeath"@[6] == 'a' && "/pvpdeath"@[7] == 't' && "/pvpdeath"@[8] == 'h',
        "/who"@.len() == 4 && "/who"@[0] == '/' && "/who"@[1] == 'w' && "/who"@[2] == 'h' && "/who"@[3] == 'o',
        "/online"@.len() == 7 && "/online"@[0] == '/' && "/online"@[1] == 'o' && "/online"@[2] == 'n' && "/online"@[3] == 'l' && "/online"@[4] == 'i' && "/online"@[5] == 'n' && "/online"@[6] == 'e',
        "/playing"@.len() == 8 && "/playing"@[0] == '/' && "/playing"@[1] == 'p' && "/playing"@[2] == 'l' && "/playing"@[3] == 'a' && "/playing"@[4] == 'y' && "/playing"@[5] == 'i' && "/playing"@[6] == 'n' && "/playing"@[7] == 'g',
        "/world"@.len() == 6 && "/world"@[0] == '/' && "/world"@[1] == 'w' && "/world"@[2] == 'o' && "/world"@[3] == 'r' && "/world"@[4] == 'l' && "/world"@[5] == 'd',
        "/rules"@.len() == 6 && "/rules"@[0] == '/' && "/rules"@[1] == 'r' && "/rules"@[2] == 'u' && "/rules"@[3] == 'l' && "/rules"@[4] == 'e' && "/rules"@[5] == 's',
        "/help"@.len() == 5 && "/help"@[0] == '/' && "/help"@[1] == 'h' && "/help"@[2] == 'e' && "/help"@[3] == 'l' && "/help"@[4] == 'p',
        "/motd"@.len() == 5 && "/motd"@[0] == '/' && "/motd"@[1] == 'm' && "/motd"@[2] == 'o' && "/motd"@[3] == 't' && "/motd"@[4] == 'd',
        "/save"@.len() == 5 && "/save"@[0] == '/' && "/save"@[1] == 's' && "/save"@[2] == 'a' && "/save"@[3] == 'v' && "/save"@[4] == 'e',
        "/butcher"@.len() == 8 && "/butcher"@[0] == '/' && "/butcher"@[1] == 'b' && "/butcher"@[2] == 'u' && "/butcher"@[3] == 't' && "/butcher"@[4] == 'c' && "/butcher"@[5] == 'h' && "/butcher"@[6] == 'e' && "/butcher"@[7] == 'r',
        "/broadcast"@.len() == 10 && "/broadcast"@[0] == '/' && "/broadcast"@[1] == 'b' && "/broadcast"@[2] == 'r' && "/broadcast"@[3] == 'o' && "/broadcast"@[4] == 'a' && "/broadcast"@[5] == 'd' && "/broadcast"@[6] == 'c' && "/broadcast"@[7] == 'a' && "/broadcast"@[8] == 's' && "/broadcast"@[9] == 't',
        "/bc"@.len() == 3 && "/bc"@[0] == '/' && "/bc"@[1] == 'b' && "/bc"@[2] == 'c',
        "/say"@.len() == 4 && "/say"@[0] == '/' && "/say"@[1] == 's' && "/say"@[2] == 'a' && "/say"@[3] == 'y',
        "/kick"@.len() == 5 && "/kick"@[0] == '/' && "/kick"@[1] == 'k' && "/kick"@[2] == 'i' && "/kick"@[3] == 'c' && "/kick"@[4] == 'k',
        "/ban"@.len() == 4 && "/ban"@[0] == '/' && "/ban"@[1] == 'b' && "/ban"@[2] == 'a' && "/ban"@[3] == 'n',
        "/mute"@.len() == 5 && "/mute"@[0] == '/' && "/mute"@[1] == 'm' && "/mute"@[2] == 'u' && "/mute"@[3] == 't' && "/mute"@[4] == 'e',
        "/unmute"@.len() == 7 && "/unmute"@[0] == '/' && "/unmute"@[1] == 'u' && "/unmute"@[2] == 'n' && "/unmute"@[3] == 'm' && "/unmute"@[4] == 'u' && "/unmute"@[5] == 't' && "/unmute"@[6] == 'e',
        "/slap"@.len() == 5 && "/slap"@[0] == '/' && "/slap"@[1] == 's' && "/slap"@[2] == 'l' && "/slap"@[3] == 'a' && "/slap"@[4] == 'p',
        "/heal"@.len() == 5 && "/heal"@[0] == '/' && "/heal"@[1] == 'h' && "/heal"@[2] == 'e' && "/heal"@[3] == 'a' && "/heal"@[4] == 'l',
        "/gbuff"@.len() == 6 && "/gbuff"@[0] == '/' && "/gbuff"@[1] == 'g' && "/gbuff"@[2] == 'b' && "/gbuff"@[3] == 'u' && "/gbuff"@[4] == 'f' && "/gbuff"@[5] == 'f',
        "/settle"@.len() == 7 && "/settle"@[0] == '/' && "/settle"@[1] == 's' && "/settle"@[2] == 'e' && "/settle"@[3] == 't' && "/settle"@[4] == 't' && "/settle"@[5] == 'l' && "/settle"@[6] == 'e',
        "/worldevent"@.len() == 11 && "/worldevent"@[0] == '/' && "/worldevent"@[1] == 'w' && "/worldevent"@[2] == 'o' && "/worldevent"@[3] == 'r' && "/worldevent"@[4] == 'l' && "/worldevent"@[5] == 'd' && "/worldevent"@[6] == 'e' && "/worldevent"@[7] == 'v' && "/worldevent"@[8] == 'e' && "/worldevent"@[9] == 'n' && "/worldevent"@[10] == 't',
        "/wind"@.len() == 5 && "/wind"@[0] == '/' && "/wind"@[1] == 'w' && "/wind"@[2] == 'i' && "/wind"@[3] == 'n' && "/wind"@[4] == 'd',
        "/off"@.len() == 4 && "/off"@[0] == '/' && "/off"@[1] == 'o' && "/off"@[2] == 'f' && "/off"@[3] == 'f',
        "/reload"@.len() == 7 && "/reload"@[0] == '/' && "/reload"@[1] == 'r' && "/reload"@[2] == 'e' && "/reload"@[3] == 'l' && "/reload"@[4] == 'o' && "/reload"@[5] == 'a' && "/reload"@[6] == 'd',
        "/whitelist"@.len() == 10 && "/whitelist"@[0] == '/' && "/whitelist"@[1] == 'w' && "/whitelist"@[2] == 'h' && "/whitelist"@[3] == 'i' && "/whitelist"@[4] == 't' && "/whitelist"@[5] == 'e' && "/whitelist"@[6] == 'l' && "/whitelist"@[7] == 'i' && "/whitelist"@[8] == 's' && "/whitelist"@[9] == 't',
        "/region"@.len() == 7 && "/region"@[0] == '/' && "/region"@[1] == 'r' && "/region"@[2] == 'e' && "/region"@[3] == 'g' && "/region"@[4] == 'i' && "/region"@[5] == 'o' && "/region"@[6] == 'n',
        "/antibuild"@.len() == 10 && "/antibuild"@[0] == '/' && "/antibuild"@[1] == 'a' && "/antibuild"@[2] == 'n' && "/antibuild"@[3] == 't' && "/antibuild"@[4] == 'i' && "/antibuild"@[5] == 'b' && "/antibuild"@[6] == 'u' && "/antibuild"@[7] == 'i' && "/antibuild"@[8] == 'l' && "/antibuild"@[9] == 'd',
        "/hardmode"@.len() == 9 && "/hardmode"@[0] == '/' && "/hardmode"@[1] == 'h' && "/hardmode"@[2] == 'a' && "/hardmode"@[3] == 'r' && "/hardmode"@[4] == 'd' && "/hardmode"@[5] == 'm' && "/hardmode"@[6] == 'o' && "/hardmode"@[7] == 'd' && "/hardmode"@[8] == 'e',
        "/evil"@.len() == 5 && "/evil"@[0] == '/' && "/evil"@[1] == 'e' && "/evil"@[2] == 'v' && "/evil"@[3] == 'i' && "/evil"@[4] == 'l',
        "/"@.len() == 1 && "/"@[0] == '/',
        "admin"@.len() == 5 && "admin"@[0] == 'a' && "admin"@[1] == 'd' && "admin"@[2] == 'm' && "admin"@[3] == 'i' && "admin"@[4] == 'n',
        "operator"@.len() == 8 && "operator"@[0] == 'o' && "operator"@[1] == 'p' && "operator"@[2] == 'e' && "operator"@[3] == 'r' && "operator"@[4] == 'a' && "operator"@[5] == 't' && "operator"@[6] == 'o' && "operator"@[7] == 'r',
        "viewer"@.len() == 6 && "viewer"@[0] == 'v' && "viewer"@[1] == 'i' && "viewer"@[2] == 'e' && "viewer"@[3] == 'w' && "viewer"@[4] == 'e' && "viewer"@[5] == 'r',
{
    reveal_strlit("/slay");
    reveal_strlit("/kill");
    reveal_strlit("/god");
    reveal_strlit("/godmode");
    reveal_strlit("/g");
    reveal_strlit("/give");
    reveal_strlit("/gamemode");
    reveal_strlit("/worldmode");
    reveal_strlit("/time");
    reveal_strlit("day");
    reveal_strlit("/time day");
    reveal_strlit("night");
    reveal_strlit("/time night");
    reveal_strlit("/group");
    reveal_strlit("list");
    reveal_strlit("/group list");
    reveal_strlit("/user");
    reveal_strlit("/user list");
    reveal_strlit("/setup");
    reveal_strlit("/login");
    reveal_strlit("/logout");
    reveal_strlit("/password");
    reveal_strlit("/register");
    reveal_strlit("/item");
    reveal_strlit("/i");
    reveal_strlit("/spawnboss");
    reveal_strlit("/sb");
    reveal_strlit("/spawnmob");
    reveal_strlit("/sm");
    reveal_strlit("/home");
    reveal_strlit("/spawn");
    reveal_strlit("/tp");
    reveal_strlit("/tphere");
    reveal_strlit("/tpnpc");
    reveal_strlit("/tppos");
    reveal_strlit("/pos");
    reveal_strlit("/tpallow");
    reveal_strlit("/grow");
    reveal_strlit("/setspawn");
    reveal_strlit("/setdungeon");
    reveal_strlit("/buff");
    reveal_strlit("/party");
    reveal_strlit("/p");
    reveal_strlit("/wallow");
    reveal_strlit("/wa");
    reveal_strlit("/death");
    reveal_strlit("/pvpdeath");
    reveal_strlit("/who");
    reveal_strlit("/online");
    reveal_strlit("/playing");
    reveal_strlit("/world");
    reveal_strlit("/rules");
    reveal_strlit("/help");
    reveal_strlit("/motd");
    reveal_strlit("/save");
    reveal_strlit("/butcher");
    reveal_strlit("/broadcast");
    reveal_strlit("/bc");
    reveal_strlit("/say");
    reveal_strlit("/kick");
    reveal_strlit("/ban");
    reveal_strlit("/mute");
    reveal_strlit("/unmute");
    reveal_strlit("/slap");
    reveal_strlit("/heal");
    reveal_strlit("/gbuff");
    reveal_strlit("/settle");
    reveal_strlit("/worldevent");
    reveal_strlit("/wind");
    reveal_strlit("/off");
    reveal_strlit("/reload");
    reveal_strlit("/whitelist");
    reveal_strlit("/region");
    reveal_strlit("/antibuild");
    reveal_strlit("/hardmode");
    reveal_strlit("/evil");
    reveal_strlit("/");
    reveal_strlit("admin");
    reveal_strlit("operator");
    reveal_strlit("viewer");
}

pub proof fn law_operator_commands(user_id: Seq<char>, owner: Option<Seq<char>>, command: Seq<char>)
    requires
        ({
            let t = lowercase(trim(command));
            let w = first_word(t);
            ||| w == "/save"@
            ||| (w == "/time"@ && (second_word(t) == "day"@ || second_word(t) == "night"@))
            ||| w == "/butcher"@
            ||| w == "/broadcast"@
            ||| w == "/bc"@
            ||| w == "/say"@
            ||| w == "/kick"@
            ||| w == "/ban"@
            ||| w == "/mute"@
            ||| w == "/unmute"@
            ||| w == "/kill"@
            ||| w == "/slay"@
            ||| w == "/slap"@
            ||| w == "/heal"@
            ||| w == "/godmode"@
            ||| w == "/god"@
            ||| w == "/gbuff"@
            ||| w == "/give"@
            ||| w == "/g"@
            ||| w == "/settle"@
            ||| w == "/worldevent"@
            ||| w == "/wind"@
        }),
    ensures
        scope_of(normalized_command(command)) == CommandScope::Operator,
        command_allowed("operator"@, user_id, owner, command),
        !command_allowed("viewer"@, user_id, owner, command),
{
    lemma_command_words_spelled();
}

} // verus!
