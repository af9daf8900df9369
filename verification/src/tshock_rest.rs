//! The panel's REST token for a TShock server: which token to use, and what
//! has to change in the server's `config.json` for TShock to accept it.
use vstd::prelude::*;

use crate::error::AppError;
use crate::json::{json_pretty, member, obj_get, parse_json, parsed_json, pretty_json, set_member, take_member, JsonValue};
use crate::text::{concat2, opt_view, owned, parse_unsigned, parse_unsigned_exec, replace_all, replace_str, trim, trimmed};

verus! {

/// What `config.json` stores for one application token.
#[derive(Debug, Clone, Copy, PartialEq, Eq, Structural)]
pub enum TokenEntryKind {
    /// The current form: an object naming the user group.
    Object,
    /// The legacy form: the group name as a string.
    Legacy,
    /// Anything else, which TShock ignores.
    Other,
}

/// What the REST logic reads from a server's `config.json` settings.
#[derive(Debug, Clone)]
pub struct RestConfigView {
    /// `RestApiEnabled`, when it is a boolean.
    pub rest_enabled: Option<bool>,
    /// Whether `RestApiPort` is present.
    pub rest_port_present: bool,
    /// The application tokens, in the order the file lists them.
    pub tokens: Vec<(String, TokenEntryKind)>,
}

pub open spec fn tokens_view(v: Seq<(String, TokenEntryKind)>) -> Seq<(Seq<char>, TokenEntryKind)> {
    Seq::new(v.len(), |i: int| (v[i].0@, v[i].1))
}

/// The kind of the entry for `token` (the last one listed, as a JSON object
/// keeps the last duplicate); `None` when there is none.
pub open spec fn entry_kind(tokens: Seq<(Seq<char>, TokenEntryKind)>, token: Seq<char>) -> Option<TokenEntryKind>
    decreases tokens.len(),
{
    if tokens.len() == 0 {
        None
    } else if tokens.last().0 == token {
        Some(tokens.last().1)
    } else {
        entry_kind(tokens.drop_last(), token)
    }
}

/// The first usable token: the first entry in the current or the legacy form,
/// with whether it is legacy.
pub open spec fn first_usable_token(tokens: Seq<(Seq<char>, TokenEntryKind)>) -> Option<(Seq<char>, bool)>
    decreases tokens.len(),
{
    if tokens.len() == 0 {
        None
    } else if tokens[0].1 == TokenEntryKind::Object {
        Some((tokens[0].0, false))
    } else if tokens[0].1 == TokenEntryKind::Legacy {
        Some((tokens[0].0, true))
    } else {
        first_usable_token(tokens.drop_first())
    }
}

fn entry_kind_exec(tokens: &Vec<(String, TokenEntryKind)>, token: &str) -> (r: Option<TokenEntryKind>)
    ensures
        r == entry_kind(tokens_view(tokens@), token@),
{
    let mut i = tokens.len();
    assert(tokens_view(tokens@).take(i as int) =~= tokens_view(tokens@));
    while i > 0
        invariant
            i <= tokens.len(),
            entry_kind(tokens_view(tokens@), token@) == entry_kind(tokens_view(tokens@).take(i as int), token@),
        decreases i,
    {
        let ghost t = tokens_view(tokens@).take(i as int);
        assert(t.drop_last() =~= tokens_view(tokens@).take(i - 1));
        if crate::text::str_eq(tokens[i - 1].0.as_str(), token) {
            return Some(tokens[i - 1].1);
        }
        i = i - 1;
    }
    None
}

/// The first usable token of the configuration.
pub fn first_config_token(config: &RestConfigView) -> (r: Option<(String, bool)>)
    ensures
        r matches Some((t, l)) ==> first_usable_token(tokens_view(config.tokens@)) == Some((t@, l)),
        r is None ==> first_usable_token(tokens_view(config.tokens@)) is None,
{
    let mut i: usize = 0;
    assert(tokens_view(config.tokens@).skip(0) =~= tokens_view(config.tokens@));
    while i < config.tokens.len()
        invariant
            i <= config.tokens.len(),
            first_usable_token(tokens_view(config.tokens@)) == first_usable_token(tokens_view(config.tokens@).skip(i as int)),
        decreases config.tokens.len() - i,
    {
        let ghost t = tokens_view(config.tokens@).skip(i as int);
        assert(t.drop_first() =~= tokens_view(config.tokens@).skip(i + 1));
        match config.tokens[i].1 {
            TokenEntryKind::Object => {
                return Some((config.tokens[i].0.clone(), false));
            },
            TokenEntryKind::Legacy => {
                return Some((config.tokens[i].0.clone(), true));
            },
            TokenEntryKind::Other => {},
        }
        i = i + 1;
    }
    None
}

/// Whether `RestApiEnabled`/`RestApiPort` must be written: the API is not
/// enabled as a boolean `true`, or no port is set.
pub fn rest_api_needs_enabling(config: &RestConfigView) -> (r: bool)
    ensures
        r == (config.rest_enabled != Some(true) || !config.rest_port_present),
{
    match config.rest_enabled {
        Some(true) => !config.rest_port_present,
        _ => true,
    }
}

/// How `config.json` is brought in line with the chosen token.
#[derive(Debug, Clone, Copy, PartialEq, Eq, Structural)]
pub enum ConfigChange {
    /// Enable the REST API and set the port where needed (the token is in the
    /// current form already).
    EnsureEnabled,
    /// Enable the REST API, set the port if missing, and rewrite the legacy
    /// token entry in the current form.
    FixLegacy,
    /// Enable the REST API, set the port if missing, and add the token.
    Inject,
}

/// Which token the panel uses and what it changes.
#[derive(Debug)]
pub struct TokenPlan {
    /// The token to use; `None` means a new one is generated (and injected).
    pub token: Option<String>,
    pub change: ConfigChange,
    /// Whether the token is written to the panel's token file.
    pub cache: bool,
}

/// The token decision: a cached token is kept (its entry fixed or added as
/// needed); else the first usable token of the configuration is used and
/// cached; else a new token is provisioned and cached.
pub open spec fn token_plan_spec(
    cached: Option<Seq<char>>,
    tokens: Seq<(Seq<char>, TokenEntryKind)>,
) -> (Option<Seq<char>>, ConfigChange, bool) {
    match cached {
        Some(t) => match entry_kind(tokens, t) {
            Some(TokenEntryKind::Object) => (Some(t), ConfigChange::EnsureEnabled, false),
            Some(TokenEntryKind::Legacy) => (Some(t), ConfigChange::FixLegacy, false),
            _ => (Some(t), ConfigChange::Inject, false),
        },
        None => match first_usable_token(tokens) {
            Some((t, legacy)) => (Some(t), if legacy {
                ConfigChange::FixLegacy
            } else {
                ConfigChange::EnsureEnabled
            }, true),
            None => (None, ConfigChange::Inject, true),
        },
    }
}


/// Chooses the token (`read_application_token`'s decision).
pub fn token_plan(cached: Option<String>, config: &RestConfigView) -> (r: TokenPlan)
    ensures
        (opt_view(r.token), r.change, r.cache) == token_plan_spec(
            opt_view(cached),
            tokens_view(config.tokens@),
        ),
{
    match cached {
        Some(t) => {
            let kind = entry_kind_exec(&config.tokens, t.as_str());
            let change = match kind {
                Some(TokenEntryKind::Object) => ConfigChange::EnsureEnabled,
                Some(TokenEntryKind::Legacy) => ConfigChange::FixLegacy,
                _ => ConfigChange::Inject,
            };
            TokenPlan { token: Some(t), change, cache: false }
        },
        None => match first_config_token(config) {
            Some((t, legacy)) => TokenPlan {
                token: Some(t),
                change: if legacy {
                    ConfigChange::FixLegacy
                } else {
                    ConfigChange::EnsureEnabled
                },
                cache: true,
            },
            None => TokenPlan { token: None, change: ConfigChange::Inject, cache: true },
        },
    }
}

/// The cached token in the panel's token file: its trimmed content, unless
/// that is empty.
pub fn cached_token_from_file(content: &str) -> (r: Option<String>)
    ensures
        r matches Some(t) ==> t@ == trim(content@) && t@.len() > 0,
        r is None ==> trim(content@).len() == 0,
{
    let t = trimmed(content);
    if t.unicode_len() == 0 {
        None
    } else {
        Some(t)
    }
}

/// The group a legacy token entry names, `superadmin` when it is blank.
pub fn legacy_token_group(value: Option<&str>) -> (r: String)
    ensures
        r@ == (match value {
            Some(g) => if trim(g@).len() > 0 {
                g@
            } else {
                "superadmin"@
            },
            None => "superadmin"@,
        }),
{
    match value {
        Some(g) => {
            let t = trimmed(g);
            if t.unicode_len() > 0 {
                owned(g)
            } else {
                owned("superadmin")
            }
        },
        None => owned("superadmin"),
    }
}

/// A freshly generated token: the given UUID text without its dashes.
pub fn provisioned_token(uuid_text: &str) -> (r: String)
    ensures
        r@ == replace_all(uuid_text@, "-"@, Seq::<char>::empty()),
{
    proof {
        reveal_strlit("-");
    }
    let r = replace_str(uuid_text, "-", "");
    proof {
        reveal_strlit("");
        assert(""@ =~= Seq::<char>::empty());
    }
    r
}

/// Whether the REST API is ready: enabled, with a port, and with a token in
/// the current form first.
pub open spec fn rest_ready(config: RestConfigView) -> bool {
    &&& config.rest_enabled == Some(true)
    &&& config.rest_port_present
    &&& first_usable_token(tokens_view(config.tokens@)) matches Some((_, legacy)) && !legacy
}

/// The answer about REST setup, given the configuration as it was and the
/// token that was then settled on: `(ready, message, token)`.
pub fn ensure_rest_setup(config: &RestConfigView, token: String) -> (r: (bool, String, String))
    ensures
        r.0 == rest_ready(*config),
        r.1@ == (if rest_ready(*config) {
            "REST API is configured and ready."@
        } else {
            "REST API token has been provisioned. Please restart the server for changes to take effect."@
        }),
        r.2 == token,
{
    let enabled = match config.rest_enabled {
        Some(true) => true,
        _ => false,
    };
    let clean = match first_config_token(config) {
        Some((_, legacy)) => !legacy,
        None => false,
    };
    if enabled && config.rest_port_present && clean {
        (true, owned("REST API is configured and ready."), token)
    } else {
        (
            false,
            owned(
                "REST API token has been provisioned. Please restart the server for changes to take effect.",
            ),
            token,
        )
    }
}


// ───────────────────────── config.json ─────────────────────────

/// The `config.json` of a server, read from its text; a text that is not
/// JSON is refused with `Invalid config.json: ` and the reason.
pub fn read_config_json(text: &str) -> (r: Result<JsonValue, AppError>)
    ensures
        r is Ok <==> parsed_json(text@) is Some,
        r matches Ok(v) ==> parsed_json(text@) == Some(v),
        r matches Err(e) ==> (e matches AppError::BadRequest(m) && crate::text::starts_with(m@, "Invalid config.json: "@)),
{
    match parse_json(text) {
        Ok(v) => Ok(v),
        Err(e) => {
            let m = concat2("Invalid config.json: ", e.as_str());
            proof {
                assert(m@.subrange(0, "Invalid config.json: "@.len() as int) =~= "Invalid config.json: "@);
            }
            Err(AppError::BadRequest(m))
        },
    }
}

/// The text a `config.json` is written with (pretty-printed JSON).
pub fn config_json_text(v: &JsonValue) -> (r: Result<String, AppError>)
    ensures
        r matches Ok(t) ==> t@ == pretty_json(*v),
        r matches Err(e) ==> e is FileError,
{
    match json_pretty(v) {
        Ok(t) => Ok(t),
        Err(e) => Err(AppError::FileError(concat2("Failed to serialize config.json: ", e.as_str()))),
    }
}

/// The settings TShock reads: the `Settings` object when there is one,
/// else the whole document when it is an object.
pub open spec fn settings_read(root: JsonValue) -> Option<Seq<(String, JsonValue)>> {
    match root {
        JsonValue::Object(e) => match obj_get(e@, "Settings"@) {
            Some(JsonValue::Object(s)) => Some(s@),
            _ => Some(e@),
        },
        _ => None,
    }
}

/// A setting as TShock reads it.
pub open spec fn setting(root: JsonValue, k: Seq<char>) -> Option<JsonValue> {
    match settings_read(root) {
        Some(s) => obj_get(s, k),
        None => None,
    }
}

/// How an application token is stored: an object, a legacy group name, or
/// something else.
pub open spec fn token_kind(v: JsonValue) -> TokenEntryKind {
    match v {
        JsonValue::Object(_) => TokenEntryKind::Object,
        JsonValue::Str(_) => TokenEntryKind::Legacy,
        _ => TokenEntryKind::Other,
    }
}

/// The application tokens of a document, in order, when they form an
/// object.
pub open spec fn read_tokens(root: JsonValue) -> Seq<(String, JsonValue)> {
    match setting(root, "ApplicationRestTokens"@) {
        Some(JsonValue::Object(t)) => t@,
        _ => Seq::empty(),
    }
}

pub open spec fn token_kinds(t: Seq<(String, JsonValue)>) -> Seq<(Seq<char>, TokenEntryKind)> {
    Seq::new(t.len(), |i: int| (t[i].0@, token_kind(t[i].1)))
}

fn settings_read_of(root: &JsonValue) -> (r: Option<&Vec<(String, JsonValue)>>)
    ensures
        r is None <==> settings_read(*root) is None,
        r matches Some(s) ==> settings_read(*root) == Some(s@),
{
    match root {
        JsonValue::Object(e) => match member(e, "Settings") {
            Some(JsonValue::Object(s)) => Some(s),
            _ => Some(e),
        },
        _ => None,
    }
}

/// What the token logic reads of a `config.json`.
pub fn rest_config_view(root: &JsonValue) -> (r: RestConfigView)
    ensures
        r.rest_enabled == (match setting(*root, "RestApiEnabled"@) {
            Some(JsonValue::Bool(b)) => Some(b),
            _ => None,
        }),
        r.rest_port_present == setting(*root, "RestApiPort"@) is Some,
        tokens_view(r.tokens@) == token_kinds(read_tokens(*root)),
{
    match settings_read_of(root) {
        None => {
            let tokens: Vec<(String, TokenEntryKind)> = Vec::new();
            assert(tokens_view(tokens@) =~= token_kinds(read_tokens(*root)));
            RestConfigView { rest_enabled: None, rest_port_present: false, tokens }
        },
        Some(s) => {
            let rest_enabled = match member(s, "RestApiEnabled") {
                Some(JsonValue::Bool(b)) => Some(*b),
                _ => None,
            };
            let rest_port_present = member(s, "RestApiPort").is_some();
            let mut tokens: Vec<(String, TokenEntryKind)> = Vec::new();
            match member(s, "ApplicationRestTokens") {
                Some(JsonValue::Object(t)) => {
                    let mut i: usize = 0;
                    while i < t.len()
                        invariant
                            i <= t@.len(),
                            tokens_view(tokens@) =~= token_kinds(t@).take(i as int),
                        decreases t@.len() - i,
                    {
                        let kind = match &t[i].1 {
                            JsonValue::Object(_) => TokenEntryKind::Object,
                            JsonValue::Str(_) => TokenEntryKind::Legacy,
                            _ => TokenEntryKind::Other,
                        };
                        let ghost before = tokens@;
                        tokens.push((t[i].0.clone(), kind));
                        assert(tokens_view(tokens@) =~= tokens_view(before).push((t@[i as int].0@, kind)));
                        i = i + 1;
                    }
                    assert(token_kinds(t@).take(t@.len() as int) =~= token_kinds(t@));
                },
                _ => {
                    assert(tokens_view(tokens@) =~= token_kinds(read_tokens(*root)));
                },
            }
            RestConfigView { rest_enabled, rest_port_present, tokens }
        },
    }
}

/// The REST port TShock is configured with, when it is a whole number (as
/// `serde_json`'s `as_u64` reads it).
pub open spec fn configured_rest_port(root: JsonValue) -> Option<nat> {
    match setting(root, "RestApiPort"@) {
        Some(JsonValue::Number(n)) => parse_unsigned(n@, u64::MAX as nat),
        _ => None,
    }
}

/// The REST port a `config.json` sets, when it sets a whole number.
pub fn rest_port(root: &JsonValue) -> (r: Option<u64>)
    ensures
        r matches Some(p) ==> configured_rest_port(*root) == Some(p as nat),
        r is None ==> configured_rest_port(*root) is None,
{
    match settings_read_of(root) {
        Some(s) => match member(s, "RestApiPort") {
            Some(JsonValue::Number(n)) => parse_unsigned_exec(n.as_str(), u64::MAX),
            _ => None,
        },
        None => None,
    }
}

/// The settings an edit changes: the `Settings` member (an empty object in
/// place of one that is not an object) when the document has one, else the
/// document itself.
pub open spec fn edit_settings_of(e: Seq<(String, JsonValue)>) -> Seq<(String, JsonValue)> {
    match obj_get(e, "Settings"@) {
        Some(JsonValue::Object(s)) => s@,
        Some(_) => Seq::empty(),
        None => e,
    }
}

/// The token table an edit changes: an empty one in place of one that is
/// not an object.
pub open spec fn edit_tokens_of(s: Seq<(String, JsonValue)>) -> Seq<(String, JsonValue)> {
    match obj_get(s, "ApplicationRestTokens"@) {
        Some(JsonValue::Object(t)) => t@,
        _ => Seq::empty(),
    }
}

/// The REST API is off or has no port.
pub open spec fn needs_enabling(s: Seq<(String, JsonValue)>) -> bool {
    obj_get(s, "RestApiEnabled"@) != Some(JsonValue::Bool(true)) || obj_get(s, "RestApiPort"@) is None
}

/// The entry of an application token: `{"UserGroupName": group,
/// "Username": "Panel"}`.
pub open spec fn is_token_entry(v: JsonValue, group: Seq<char>) -> bool {
    v matches JsonValue::Object(u) && {
        &&& obj_get(u@, "UserGroupName"@) matches Some(JsonValue::Str(g)) && g@ == group
        &&& obj_get(u@, "Username"@) matches Some(JsonValue::Str(n)) && n@ == "Panel"@
        &&& forall|x: Seq<char>| x != "UserGroupName"@ && x != "Username"@ ==> #[trigger] obj_get(u@, x) is None
    }
}

/// The group a legacy token keeps: its non-blank group name, else
/// `superadmin`.
pub open spec fn legacy_group_of(t: Seq<(String, JsonValue)>, token: Seq<char>) -> Seq<char> {
    match obj_get(t, token) {
        Some(JsonValue::Str(g)) => if trim(g@).len() > 0 {
            g@
        } else {
            "superadmin"@
        },
        _ => "superadmin"@,
    }
}

/// The token table after recording `token` for `group`.
pub open spec fn tokens_edited(t1: Seq<(String, JsonValue)>, t2: Seq<(String, JsonValue)>, token: Seq<char>, group: Seq<char>) -> bool {
    &&& obj_get(t2, token) matches Some(v) && is_token_entry(v, group)
    &&& forall|x: Seq<char>| x != token ==> #[trigger] obj_get(t2, x) == obj_get(t1, x)
}

/// The settings after a change: the REST API on, port 7878 when none was
/// set, and for a legacy fix or an injection the token recorded (a legacy
/// token keeping its group, an injected one for `superadmin`); nothing else
/// changes.
pub open spec fn settings_edited(
    s1: Seq<(String, JsonValue)>,
    s2: Seq<(String, JsonValue)>,
    change: ConfigChange,
    token: Seq<char>,
) -> bool {
    &&& obj_get(s2, "RestApiEnabled"@) == Some(JsonValue::Bool(true))
    &&& obj_get(s1, "RestApiPort"@) is Some ==> obj_get(s2, "RestApiPort"@) == obj_get(s1, "RestApiPort"@)
    &&& obj_get(s1, "RestApiPort"@) is None ==> (obj_get(s2, "RestApiPort"@) matches Some(JsonValue::Number(n)) && n@
        == "7878"@)
    &&& change == ConfigChange::EnsureEnabled ==> obj_get(s2, "ApplicationRestTokens"@) == obj_get(
        s1,
        "ApplicationRestTokens"@,
    )
    &&& change != ConfigChange::EnsureEnabled ==> (obj_get(s2, "ApplicationRestTokens"@) matches Some(
        JsonValue::Object(t2),
    ) && tokens_edited(
        edit_tokens_of(s1),
        t2@,
        token,
        if change == ConfigChange::FixLegacy {
            legacy_group_of(edit_tokens_of(s1), token)
        } else {
            "superadmin"@
        },
    ))
    &&& forall|x: Seq<char>|
        x != "RestApiEnabled"@ && x != "RestApiPort"@ && x != "ApplicationRestTokens"@ ==> #[trigger] obj_get(s2, x)
            == obj_get(s1, x)
}

/// What a change does to a document: refused when it is not an object;
/// nothing when only the REST API is to be on and it is on with a port;
/// else the edited document (the `Settings` member edited when there is
/// one, every other member kept).
pub open spec fn config_change_done(
    root: JsonValue,
    change: ConfigChange,
    token: Seq<char>,
    r: Result<Option<JsonValue>, AppError>,
) -> bool {
    match root {
        JsonValue::Object(e) => if change == ConfigChange::EnsureEnabled && !needs_enabling(edit_settings_of(e@)) {
            r matches Ok(None)
        } else {
            r matches Ok(Some(JsonValue::Object(e2))) && if obj_get(e@, "Settings"@) is Some {
                &&& obj_get(e2@, "Settings"@) matches Some(JsonValue::Object(s2)) && settings_edited(
                    edit_settings_of(e@),
                    s2@,
                    change,
                    token,
                )
                &&& forall|x: Seq<char>| x != "Settings"@ ==> #[trigger] obj_get(e2@, x) == obj_get(e@, x)
            } else {
                settings_edited(edit_settings_of(e@), e2@, change, token)
            }
        },
        _ => r matches Err(AppError::BadRequest(m)) && m@ == "Invalid config.json root object"@,
    }
}

fn token_entry(group: &str) -> (r: JsonValue)
    ensures
        is_token_entry(r, group@),
{
    let mut u: Vec<(String, JsonValue)> = Vec::new();
    set_member(&mut u, "UserGroupName", JsonValue::Str(owned(group)));
    set_member(&mut u, "Username", JsonValue::Str(owned("Panel")));
    proof {
        reveal_strlit("UserGroupName");
        reveal_strlit("Username");
        assert("UserGroupName"@.len() != "Username"@.len());
    }
    JsonValue::Object(u)
}

/// Applies a change of the token plan to a `config.json`: `None` when
/// nothing has to change.
pub fn apply_config_change(root: JsonValue, change: ConfigChange, token: &str) -> (r: Result<
    Option<JsonValue>,
    AppError,
>)
    ensures
        config_change_done(root, change, token@, r),
{
    proof {
        reveal_strlit("RestApiEnabled");
        reveal_strlit("RestApiPort");
        reveal_strlit("ApplicationRestTokens");
        reveal_strlit("Settings");
        assert("RestApiEnabled"@.len() != "RestApiPort"@.len());
        assert("RestApiEnabled"@.len() != "ApplicationRestTokens"@.len());
        assert("RestApiPort"@.len() != "ApplicationRestTokens"@.len());
    }
    match root {
        JsonValue::Object(mut e) => {
            let ghost e0 = e@;
            let (nested, mut s, mut rest) = match take_member(&mut e, "Settings") {
                Some(JsonValue::Object(inner)) => (true, inner, e),
                Some(_) => (true, Vec::new(), e),
                None => (false, e, Vec::new()),
            };
            let ghost s1 = s@;
            assert(s1 == edit_settings_of(e0));
            assert(nested == obj_get(e0, "Settings"@) is Some);
            let enabled = match member(&s, "RestApiEnabled") {
                Some(JsonValue::Bool(b)) => *b,
                _ => false,
            };
            let port_present = member(&s, "RestApiPort").is_some();
            if change == ConfigChange::EnsureEnabled && enabled && port_present {
                return Ok(None);
            }
            set_member(&mut s, "RestApiEnabled", JsonValue::Bool(true));
            if !port_present {
                set_member(&mut s, "RestApiPort", JsonValue::Number(owned("7878")));
            }
            if change != ConfigChange::EnsureEnabled {
                let mut t = match take_member(&mut s, "ApplicationRestTokens") {
                    Some(JsonValue::Object(t)) => t,
                    _ => Vec::new(),
                };
                let ghost t1 = t@;
                assert(t1 == edit_tokens_of(s1));
                let group = if change == ConfigChange::FixLegacy {
                    match member(&t, token) {
                        Some(JsonValue::Str(g)) => legacy_token_group(Some(g.as_str())),
                        _ => legacy_token_group(None),
                    }
                } else {
                    owned("superadmin")
                };
                set_member(&mut t, token, token_entry(group.as_str()));
                set_member(&mut s, "ApplicationRestTokens", JsonValue::Object(t));
            }
            let new_root = if nested {
                set_member(&mut rest, "Settings", JsonValue::Object(s));
                JsonValue::Object(rest)
            } else {
                JsonValue::Object(s)
            };
            Ok(Some(new_root))
        },
        _ => Err(AppError::BadRequest(owned("Invalid config.json root object"))),
    }
}

/// The panel's token for a server and what to write: the token the plan
/// picks (see `token_plan`; a fresh one is `fresh_id` without hyphens), the
/// edited `config.json` when it has to change, and whether to cache the
/// token in the panel's token file.
#[derive(Debug)]
pub struct TokenSetup {
    pub token: String,
    pub new_config: Option<JsonValue>,
    pub cache: bool,
}

/// Finds or provisions the panel's REST token for a `config.json` and a
/// cached token: the plan of `token_plan` over the document's tokens, and
/// the change it calls for applied to the document.
pub fn plan_rest_token(config: JsonValue, cached: Option<String>, fresh_id: &str) -> (r: Result<TokenSetup, AppError>)
    ensures
        ({
            let plan = token_plan_spec(opt_view(cached), token_kinds(read_tokens(config)));
            let token = match plan.0 {
                Some(t) => t,
                None => replace_all(fresh_id@, "-"@, Seq::<char>::empty()),
            };
            &&& r matches Ok(s) ==> s.token@ == token && s.cache == plan.2
            &&& config_change_done(config, plan.1, token, match r {
                Ok(s) => Ok::<Option<JsonValue>, AppError>(s.new_config),
                Err(e) => Err(e),
            })
        }),
{
    let view = rest_config_view(&config);
    let plan = token_plan(cached, &view);
    let token = match plan.token {
        Some(t) => t,
        None => provisioned_token(fresh_id),
    };
    match apply_config_change(config, plan.change, token.as_str()) {
        Ok(new_config) => Ok(TokenSetup { token, new_config, cache: plan.cache }),
        Err(e) => Err(e),
    }
}
} // verus!
