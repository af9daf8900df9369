//! The server-side character (SSC) configuration of a TShock server
//! (`sscconfig.json`) and its defaults.
use vstd::prelude::*;

verus! {

/// An item of the starting inventory.
#[derive(Debug, Clone)]
pub struct SscInventoryItem {
    pub net_id: i32,
    pub prefix: i32,
    pub stack: i32,
    pub favorited: bool,
}

impl Default for SscInventoryItem {
    /// One of item 0, no prefix, not favorited.
    fn default() -> (r: Self)
        ensures
            r.net_id == 0,
            r.prefix == 0,
            r.stack == 1,
            !r.favorited,
    {
        SscInventoryItem { net_id: 0, prefix: 0, stack: 1, favorited: default_favorited() }
    }
}

fn default_enabled() -> (r: bool)
    ensures
        !r,
{
    false
}

fn default_server_side_character_save() -> (r: i32)
    ensures
        r == 5,
{
    5
}

fn default_logon_discard_threshold() -> (r: i32)
    ensures
        r == 250,
{
    250
}

fn default_starting_health() -> (r: i32)
    ensures
        r == 100,
{
    100
}

fn default_starting_mana() -> (r: i32)
    ensures
        r == 20,
{
    20
}

fn default_warn_players_about_bypass_permission() -> (r: bool)
    ensures
        r,
{
    true
}

fn default_keep_player_appearance() -> (r: bool)
    ensures
        !r,
{
    false
}

fn default_favorited() -> (r: bool)
    ensures
        !r,
{
    false
}

/// A starting item: one of `net_id`, no prefix, not favorited.
pub open spec fn is_plain_item(item: SscInventoryItem, net_id: int) -> bool {
    item.net_id == net_id && item.prefix == 0 && item.stack == 1 && !item.favorited
}

/// TShock's starting inventory: the copper shortsword, pickaxe and axe
/// (`-15`, `-13`, `-16`).
pub fn default_starting_inventory() -> (r: Vec<SscInventoryItem>)
    ensures
        r@.len() == 3,
        is_plain_item(r@[0], -15),
        is_plain_item(r@[1], -13),
        is_plain_item(r@[2], -16),
{
    let mut v: Vec<SscInventoryItem> = Vec::new();
    v.push(SscInventoryItem { net_id: -15, prefix: 0, stack: 1, favorited: false });
    v.push(SscInventoryItem { net_id: -13, prefix: 0, stack: 1, favorited: false });
    v.push(SscInventoryItem { net_id: -16, prefix: 0, stack: 1, favorited: false });
    v
}

/// The `Settings` of an SSC configuration. `extra` keeps the settings this
/// panel does not edit, by name, each as its JSON text.
#[derive(Debug, Clone)]
pub struct SscSettings {
    pub enabled: bool,
    pub server_side_character_save: i32,
    pub logon_discard_threshold: i32,
    pub starting_health: i32,
    pub starting_mana: i32,
    pub starting_inventory: Vec<SscInventoryItem>,
    pub warn_players_about_bypass_permission: bool,
    pub keep_player_appearance: bool,
    pub extra: Vec<(String, String)>,
}

/// TShock's defaults: SSC off, saved every 5 minutes, a logon discard
/// threshold of 250, 100 health and 20 mana to start with, the starting
/// tools, a warning about the bypass permission, appearances not kept.
pub open spec fn is_default_settings(s: SscSettings) -> bool {
    &&& !s.enabled
    &&& s.server_side_character_save == 5
    &&& s.logon_discard_threshold == 250
    &&& s.starting_health == 100
    &&& s.starting_mana == 20
    &&& s.starting_inventory@.len() == 3
    &&& is_plain_item(s.starting_inventory@[0], -15)
    &&& is_plain_item(s.starting_inventory@[1], -13)
    &&& is_plain_item(s.starting_inventory@[2], -16)
    &&& s.warn_players_about_bypass_permission
    &&& !s.keep_player_appearance
    &&& s.extra@.len() == 0
}

impl Default for SscSettings {
    fn default() -> (r: Self)
        ensures
            is_default_settings(r),
    {
        SscSettings {
            enabled: default_enabled(),
            server_side_character_save: default_server_side_character_save(),
            logon_discard_threshold: default_logon_discard_threshold(),
            starting_health: default_starting_health(),
            starting_mana: default_starting_mana(),
            starting_inventory: default_starting_inventory(),
            warn_players_about_bypass_permission: default_warn_players_about_bypass_permission(),
            keep_player_appearance: default_keep_player_appearance(),
            extra: Vec::new(),
        }
    }
}

/// An SSC configuration file: its `Settings`, and (by name, as JSON text)
/// whatever else the file holds.
#[derive(Debug, Clone)]
pub struct SscConfig {
    pub settings: SscSettings,
    pub extra: Vec<(String, String)>,
}

impl Default for SscConfig {
    fn default() -> (r: Self)
        ensures
            is_default_settings(r.settings),
            r.extra@.len() == 0,
    {
        SscConfig { settings: SscSettings::default(), extra: Vec::new() }
    }
}

impl SscConfig {
    /// A file written flat, with the settings at the top level, read as a
    /// configuration: those settings and nothing else.
    pub fn from_flat(settings: SscSettings) -> (r: Self)
        ensures
            r.settings == settings,
            r.extra@.len() == 0,
    {
        SscConfig { settings, extra: Vec::new() }
    }

    /// Whether server-side characters are on.
    pub fn enabled(&self) -> (r: bool)
        ensures
            r == self.settings.enabled,
    {
        self.settings.enabled
    }

    /// Turns server-side characters on or off; nothing else changes.
    pub fn set_enabled(&mut self, enabled: bool)
        ensures
            final(self).settings.enabled == enabled,
            final(self).settings == (SscSettings { enabled, ..old(self).settings }),
            final(self).extra == old(self).extra,
    {
        self.settings.enabled = enabled;
    }
}

/// What `enabled` reads is what `set_enabled` last wrote, and the rest of
/// the configuration stays as it was.
pub proof fn law_enabled_reads_back(before: SscConfig, after: SscConfig, enabled: bool)
    requires
        after.settings == (SscSettings { enabled, ..before.settings }),
        after.extra == before.extra,
    ensures
        after.settings.enabled == enabled,
        after.settings.starting_inventory == before.settings.starting_inventory,
        after.settings.extra == before.settings.extra,
        after.extra == before.extra,
{
}

} // verus!
