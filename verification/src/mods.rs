//! Server plugins (mods): accepted uploads, and enabling or disabling by
//! renaming to and from `.disabled`.
use vstd::prelude::*;

use crate::error::AppError;
use crate::paths::{join, path_join};
use crate::text::{concat2, concat3, ends_with, owned, str_ends_with, str_trim_end_matches, trim_end_matches};

verus! {

/// A plugin file of a server.
#[derive(Debug, Clone)]
pub struct ModInfo {
    pub name: String,
    pub filename: String,
    pub size: u64,
    pub enabled: bool,
    pub created_at: String,
}

/// A server's plugins.
#[derive(Debug)]
pub struct ModList {
    pub mods: Vec<ModInfo>,
    pub total: usize,
}

/// Finds the plugin directories under the data directory.
pub struct ModManager {
    data_dir: String,
}

/// The largest plugin accepted on upload (50 MiB).
pub open spec fn max_mod_size() -> nat {
    52_428_800
}

/// The file name of a plugin after toggling: a disabled plugin loses its
/// `.disabled` endings, an enabled one gains `.disabled`.
pub open spec fn toggled_name(name: Seq<char>) -> Seq<char> {
    if ends_with(name, ".disabled"@) {
        trim_end_matches(name, ".disabled"@)
    } else {
        name + ".disabled"@
    }
}

impl ModManager {
    pub closed spec fn data_dir_view(&self) -> Seq<char> {
        self.data_dir@
    }

    pub fn new(data_dir: String) -> (r: Self)
        ensures
            r.data_dir_view() == data_dir@,
    {
        ModManager { data_dir }
    }

    /// `<data_dir>/servers/<server_id>/ServerPlugins`.
    pub fn plugins_dir(&self, server_id: &str) -> (r: String)
        ensures
            r@ == path_join(
                path_join(path_join(self.data_dir_view(), "servers"@), server_id@),
                "ServerPlugins"@,
            ),
    {
        let a = join(self.data_dir.as_str(), "servers");
        let b = join(a.as_str(), server_id);
        join(b.as_str(), "ServerPlugins")
    }

    /// Accepts a plugin upload, or says why not: only `.dll` files of at most
    /// 50 MiB.
    pub fn check_upload(filename: &str, size: usize) -> (r: Result<(), AppError>)
        ensures
            r is Ok <==> ends_with(filename@, ".dll"@) && size <= max_mod_size(),
            !ends_with(filename@, ".dll"@) ==> (r matches Err(AppError::BadRequest(m)) && m@
                == "Only .dll files are allowed"@),
            ends_with(filename@, ".dll"@) && size > max_mod_size() ==> (r matches Err(
                AppError::BadRequest(m),
            ) && m@ == "Mod file too large (max 50MB)"@),
    {
        if !str_ends_with(filename, ".dll") {
            return Err(AppError::BadRequest(owned("Only .dll files are allowed")));
        }
        if size > 52_428_800 {
            return Err(AppError::BadRequest(owned("Mod file too large (max 50MB)")));
        }
        Ok(())
    }
}

impl Default for ModManager {
    fn default() -> (r: Self)
        ensures
            r.data_dir_view() == "./data"@,
    {
        ModManager::new(owned("./data"))
    }
}

/// How a plugin file is listed: its name without `.disabled` endings, and
/// whether it is enabled (its file name does not end in `.disabled`).
pub fn listed_mod(filename: String, size: u64, created_at: String) -> (r: ModInfo)
    ensures
        r.filename@ == filename@,
        r.name@ == (if ends_with(filename@, ".disabled"@) {
            trim_end_matches(filename@, ".disabled"@)
        } else {
            filename@
        }),
        r.enabled == !ends_with(filename@, ".disabled"@),
        r.size == size,
        r.created_at == created_at,
{
    let is_disabled = str_ends_with(filename.as_str(), ".disabled");
    let name = if is_disabled {
        str_trim_end_matches(filename.as_str(), ".disabled")
    } else {
        filename.clone()
    };
    ModInfo { name, filename, size, enabled: !is_disabled, created_at }
}

/// The new file name when a plugin is toggled.
pub fn toggled_filename(mod_name: &str) -> (r: String)
    ensures
        r@ == toggled_name(mod_name@),
{
    if str_ends_with(mod_name, ".disabled") {
        str_trim_end_matches(mod_name, ".disabled")
    } else {
        concat2(mod_name, ".disabled")
    }
}

/// What a toggle reports: the plugin under its new file name; as its name,
/// the new file name when it was disabled and its old name otherwise; and
/// as `enabled` whether it was enabled before the toggle.
pub fn toggled_mod(mod_name: &str, size: u64, created_at: String) -> (r: ModInfo)
    ensures
        r.filename@ == toggled_name(mod_name@),
        r.name@ == (if ends_with(mod_name@, ".disabled"@) {
            toggled_name(mod_name@)
        } else {
            trim_end_matches(mod_name@, ".disabled"@)
        }),
        r.enabled == !ends_with(mod_name@, ".disabled"@),
        r.size == size,
        r.created_at == created_at,
{
    let is_disabled = str_ends_with(mod_name, ".disabled");
    let new_filename = toggled_filename(mod_name);
    let name = if is_disabled {
        new_filename.clone()
    } else {
        str_trim_end_matches(mod_name, ".disabled")
    };
    ModInfo { name, filename: new_filename, size, enabled: !is_disabled, created_at }
}

/// Toggling a plugin twice gives back its file name, for any name that does
/// not already end in `.disabled`.
pub proof fn law_toggle_twice(name: Seq<char>)
    requires
        !ends_with(name, ".disabled"@),
    ensures
        toggled_name(toggled_name(name)) == name,
{
    let d = ".disabled"@;
    let t = name + d;
    assert(t.skip(t.len() - d.len()) =~= d);
    assert(t.take(t.len() - d.len()) =~= name);
    assert(d.len() > 0) by {
        reveal_strlit(".disabled");
    }
    assert(trim_end_matches(name, d) == name);
    assert(trim_end_matches(t, d) == trim_end_matches(name, d));
}

/// The plugin file of an upload form: it must have a name, be a `.dll`
/// and hold at most 50 MiB.
pub fn check_mod_field(filename: Option<&str>, size: usize) -> (r: Result<String, AppError>)
    ensures
        filename is None ==> (r matches Err(AppError::BadRequest(m)) && m@ == "Missing filename"@),
        filename matches Some(f) ==> (r is Ok <==> ends_with(f@, ".dll"@) && size <= max_mod_size()),
        filename matches Some(f) && !ends_with(f@, ".dll"@) ==> (r matches Err(AppError::BadRequest(m)) && m@
            == "Only .dll files are allowed"@),
        filename matches Some(f) && ends_with(f@, ".dll"@) && size > max_mod_size() ==> (r matches Err(
            AppError::BadRequest(m),
        ) && m@ == "File size exceeds 50MB limit"@),
        r matches Ok(n) ==> (filename matches Some(f) && n@ == f@),
{
    match filename {
        None => Err(AppError::BadRequest(owned("Missing filename"))),
        Some(f) => {
            if !str_ends_with(f, ".dll") {
                return Err(AppError::BadRequest(owned("Only .dll files are allowed")));
            }
            if size > 52_428_800 {
                return Err(AppError::BadRequest(owned("File size exceeds 50MB limit")));
            }
            Ok(owned(f))
        },
    }
}

/// The error when a plugin file is not there.
pub fn mod_not_found(mod_name: &str) -> (r: AppError)
    ensures
        r matches AppError::NotFound(m) && m@ == "Mod "@ + mod_name@ + " not found"@,
{
    AppError::NotFound(concat3("Mod ", mod_name, " not found"))
}

/// An uploaded plugin: listed under its file name, enabled.
pub fn uploaded_mod(filename: &str, size: u64, created_at: String) -> (r: ModInfo)
    ensures
        r.name@ == filename@,
        r.filename@ == filename@,
        r.size == size,
        r.enabled,
        r.created_at == created_at,
{
    ModInfo { name: owned(filename), filename: owned(filename), size, enabled: true, created_at }
}

impl ModList {
    /// A listing of plugins: the plugins and their number.
    pub fn of(mods: Vec<ModInfo>) -> (r: Self)
        ensures
            r.mods == mods,
            r.total == mods@.len(),
    {
        let total = mods.len();
        ModList { mods, total }
    }
}

} // verus!
