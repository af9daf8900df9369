//! World saves: which files count as saves, and how listed saves are labelled.
use vstd::prelude::*;

use crate::error::AppError;
use crate::text::{concat3, ends_with, owned, str_ends_with};

verus! {

/// A world file or a backup of one: `.wld`, `.wld.bak` or `.bak`.
pub open spec fn is_save_name(name: Seq<char>) -> bool {
    ends_with(name, ".wld"@) || ends_with(name, ".wld.bak"@) || ends_with(name, ".bak"@)
}

/// Whether an uploaded or imported file may be stored as a save.
pub fn is_allowed_save_name(name: &str) -> (r: bool)
    ensures
        r == is_save_name(name@),
{
    str_ends_with(name, ".wld") || str_ends_with(name, ".wld.bak") || str_ends_with(name, ".bak")
}

/// Whether a file in a server's world directory is a world.
pub fn is_world_file_name(name: &str) -> (r: bool)
    ensures
        r == is_save_name(name@),
{
    is_allowed_save_name(name)
}

/// Whether a recorded backup is a world backup (and so goes into the daily
/// archive).
pub fn is_world_backup_name(name: &str) -> (r: bool)
    ensures
        r == is_save_name(name@),
{
    is_allowed_save_name(name)
}

/// How a save came to be: uploaded by hand, a server's backup, or a daily
/// archive of backups.
pub open spec fn source_type_of(name: Seq<char>, from_server: bool) -> Seq<char> {
    if !from_server {
        "manual_upload"@
    } else if ends_with(name, ".zip"@) {
        "server_archive"@
    } else {
        "server_backup"@
    }
}

pub fn save_source_type(name: &str, source_server_id: Option<&String>) -> (r: String)
    ensures
        r@ == source_type_of(name@, source_server_id is Some),
{
    if source_server_id.is_none() {
        return owned("manual_upload");
    }
    if str_ends_with(name, ".zip") {
        owned("server_archive")
    } else {
        owned("server_backup")
    }
}

/// A save in the listing, with the server it came from.
#[derive(Debug)]
pub struct SaveInfo {
    pub id: String,
    pub name: String,
    pub file_path: String,
    pub file_size: u64,
    pub source_server_id: Option<String>,
    pub source_server_name: Option<String>,
    pub source_type: String,
    pub created_at: String,
}

/// The filter of a save listing.
#[derive(Debug)]
pub struct SaveListQuery {
    pub server_id: Option<String>,
    pub include_other_servers: bool,
}

impl SaveListQuery {
    /// Whether the listing keeps only manual uploads and the given server's
    /// own saves (a server is named and other servers are not included).
    pub fn restricts_to_server(&self) -> (r: bool)
        ensures
            r == (self.server_id is Some && !self.include_other_servers),
    {
        self.server_id.is_some() && !self.include_other_servers
    }
}

impl SaveInfo {
    /// A listing entry for a stored save row; its source type follows from
    /// its name and whether it came from a server.
    pub fn from_row(
        id: String,
        name: String,
        file_path: String,
        file_size: u64,
        source_server_id: Option<String>,
        source_server_name: Option<String>,
        created_at: String,
    ) -> (r: Self)
        ensures
            r.id == id,
            r.name == name,
            r.file_path == file_path,
            r.file_size == file_size,
            r.source_server_id == source_server_id,
            r.source_server_name == source_server_name,
            r.created_at == created_at,
            r.source_type@ == source_type_of(name@, source_server_id is Some),
    {
        let source_type = save_source_type(name.as_str(), source_server_id.as_ref());
        SaveInfo {
            id,
            name,
            file_path,
            file_size,
            source_server_id,
            source_server_name,
            source_type,
            created_at,
        }
    }
}

/// The largest save the upload form takes: 500 MiB.
pub open spec fn max_form_upload() -> nat {
    524_288_000
}

/// The file of an upload form: it must have a name, be a save file and
/// hold at most 500 MiB.
pub fn check_upload_field(filename: Option<&str>, size: usize) -> (r: Result<String, AppError>)
    ensures
        filename is None ==> (r matches Err(AppError::BadRequest(m)) && m@ == "Missing filename"@),
        filename matches Some(f) ==> (r is Ok <==> is_save_name(f@) && size <= max_form_upload()),
        filename matches Some(f) && !is_save_name(f@) ==> (r matches Err(AppError::BadRequest(m)) && m@
            == "Only .wld, .wld.bak and .bak files are allowed"@),
        filename matches Some(f) && is_save_name(f@) && size > max_form_upload() ==> (r matches Err(
            AppError::BadRequest(m),
        ) && m@ == "File size exceeds 500MB limit"@),
        r matches Ok(n) ==> (filename matches Some(f) && n@ == f@),
{
    match filename {
        None => Err(AppError::BadRequest(owned("Missing filename"))),
        Some(f) => {
            if !is_allowed_save_name(f) {
                return Err(AppError::BadRequest(owned("Only .wld, .wld.bak and .bak files are allowed")));
            }
            if size > 524_288_000 {
                return Err(AppError::BadRequest(owned("File size exceeds 500MB limit")));
            }
            Ok(owned(f))
        },
    }
}

/// The error when an upload form holds no file.
pub fn no_save_uploaded() -> (r: AppError)
    ensures
        r matches AppError::BadRequest(m) && m@ == "No save file uploaded"@,
{
    AppError::BadRequest(owned("No save file uploaded"))
}

/// The error when a save id is unknown.
pub fn save_not_found() -> (r: AppError)
    ensures
        r matches AppError::NotFound(m) && m@ == "Save not found"@,
{
    AppError::NotFound(owned("Save not found"))
}

/// Only world saves can be imported into a server; an archive can only be
/// downloaded.
pub fn check_importable(save_name: &str) -> (r: Result<(), AppError>)
    ensures
        r is Ok <==> is_save_name(save_name@),
        r matches Err(e) ==> (e matches AppError::BadRequest(m) && m@
            == "归档包只能下载，不能直接导入为世界存档。请解压后选择其中的 .wld 文件导入。"@),
{
    if is_allowed_save_name(save_name) {
        Ok(())
    } else {
        Err(AppError::BadRequest(owned("归档包只能下载，不能直接导入为世界存档。请解压后选择其中的 .wld 文件导入。")))
    }
}

/// A manual backup needs the server's world name.
pub fn backup_world_name(world_name: Option<String>) -> (r: Result<String, AppError>)
    ensures
        r is Err <==> world_name is None,
        r matches Ok(w) ==> world_name == Some(w),
        r matches Err(e) ==> (e matches AppError::BadRequest(m) && m@ == "Server has no world name set"@),
{
    match world_name {
        Some(w) => Ok(w),
        None => Err(AppError::BadRequest(owned("Server has no world name set"))),
    }
}

/// The `Content-Disposition` of a downloaded save.
pub fn content_disposition(save_name: &str) -> (r: String)
    ensures
        r@ == "attachment; filename=\""@ + save_name@ + "\""@,
{
    concat3("attachment; filename=\"", save_name, "\"")
}

} // verus!
