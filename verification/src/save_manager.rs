//! Where saves are stored, what their files are called, and which uploads are
//! accepted.
use vstd::prelude::*;

use crate::error::AppError;
use crate::paths::{join, path_join};
use crate::saves::{is_allowed_save_name, is_save_name};
use crate::text::{
    append, chars_of, concat2, concat3, contains, contains_exec, ends_with, find_from,
    owned, starts_with, str_ends_with, str_starts_with, string_of_range,
    trim_end_matches,
};

verus! {

/// A stored save file.
#[derive(Debug, Clone)]
pub struct SaveInfo {
    pub id: String,
    pub name: String,
    pub file_path: String,
    pub file_size: u64,
    pub source_server_id: Option<String>,
    pub created_at: String,
}

/// The saves directory and the servers' directories.
pub struct SaveManager {
    saves_dir: String,
    servers_dir: String,
}

/// The largest save accepted on upload (512 MiB).
pub open spec fn max_save_size() -> nat {
    536_870_912
}

/// A world file name for `name`: kept when it ends in `.wld`; `.wld.bak`
/// and `.bak` endings are dropped (adding `.wld` where none is left);
/// anything else gets `.wld` appended.
pub open spec fn normalized_world_name(name: Seq<char>) -> Seq<char> {
    if ends_with(name, ".wld"@) {
        name
    } else if ends_with(name, ".wld.bak"@) {
        trim_end_matches(name, ".bak"@)
    } else if ends_with(name, ".bak"@) {
        let base = trim_end_matches(name, ".bak"@);
        if ends_with(base, ".wld"@) {
            base
        } else {
            base + ".wld"@
        }
    } else {
        name + ".wld"@
    }
}

pub fn normalize_world_filename(name: &str) -> (r: String)
    ensures
        r@ == normalized_world_name(name@),
{
    if str_ends_with(name, ".wld") {
        return owned(name);
    }
    if str_ends_with(name, ".wld.bak") {
        return crate::text::str_trim_end_matches(name, ".bak");
    }
    if str_ends_with(name, ".bak") {
        let base = crate::text::str_trim_end_matches(name, ".bak");
        if str_ends_with(base.as_str(), ".wld") {
            return base;
        }
        return concat2(base.as_str(), ".wld");
    }
    concat2(name, ".wld")
}

proof fn lemma_ends_with_append(s: Seq<char>, t: Seq<char>)
    ensures
        ends_with(s + t, t),
{
    assert((s + t).skip((s + t).len() - t.len()) =~= t);
}

proof fn lemma_wld_bak_trim(name: Seq<char>)
    requires
        ends_with(name, ".wld.bak"@),
    ensures
        trim_end_matches(name, ".bak"@) == name.take(name.len() - 4),
        ends_with(name.take(name.len() - 4), ".wld"@),
{
    reveal_strlit(".wld.bak");
    reveal_strlit(".bak");
    reveal_strlit(".wld");
    let n = name.len();
    let tail = name.skip(n - 8);
    assert(tail == ".wld.bak"@);
    assert(forall|k: int| 0 <= k < 8 ==> name[n - 8 + k] == #[trigger] tail[k]);
    assert(name.skip(n - 4) =~= ".bak"@) by {
        assert(forall|k: int| 0 <= k < 4 ==> #[trigger] name.skip(n - 4)[k] == tail[4 + k]);
    }
    let s = name.take(n - 4);
    assert(s.skip(s.len() - 4) =~= ".wld"@) by {
        assert(forall|k: int| 0 <= k < 4 ==> #[trigger] s.skip(s.len() - 4)[k] == tail[k]);
    }
    assert(s.last() == 'd') by {
        assert(s.last() == tail[3]);
    }
    assert(!ends_with(s, ".bak"@)) by {
        if ends_with(s, ".bak"@) {
            assert(s.skip(s.len() - 4)[3] == s.last());
            assert(".bak"@[3] == 'k');
        }
    }
    assert(trim_end_matches(s, ".bak"@) == s);
}

/// A normalized world name always ends in `.wld`, and normalizing it again
/// changes nothing.
pub proof fn law_normalized_world_name(name: Seq<char>)
    ensures
        ends_with(normalized_world_name(name), ".wld"@),
        normalized_world_name(normalized_world_name(name)) == normalized_world_name(name),
{
    if ends_with(name, ".wld"@) {
    } else if ends_with(name, ".wld.bak"@) {
        lemma_wld_bak_trim(name);
    } else if ends_with(name, ".bak"@) {
        let base = trim_end_matches(name, ".bak"@);
        if !ends_with(base, ".wld"@) {
            lemma_ends_with_append(base, ".wld"@);
        }
    } else {
        lemma_ends_with_append(name, ".wld"@);
    }
}

/// The id part of a stored save's file name: the text before the first `_`.
pub open spec fn first_segment(s: Seq<char>) -> Seq<char> {
    match find_from(s, "_"@, 0) {
        Some(i) => s.take(i),
        None => s,
    }
}

/// The text between the first and second `_` (or to the end), if there is a
/// first `_`.
pub open spec fn second_segment(s: Seq<char>) -> Option<Seq<char>> {
    match find_from(s, "_"@, 0) {
        Some(i) => Some(first_segment(s.skip(i + 1))),
        None => None,
    }
}

fn first_segment_end(v: &Vec<char>, from: usize) -> (r: usize)
    requires
        from <= v.len(),
    ensures
        from <= r <= v.len(),
        v@.subrange(from as int, r as int) == first_segment(v@.skip(from as int)),
        r < v.len() ==> find_from(v@.skip(from as int), "_"@, 0) == Some(r - from),
        r == v.len() ==> find_from(v@.skip(from as int), "_"@, 0) is None,
{
    let u = chars_of("_");
    proof {
        reveal_strlit("_");
    }
    let mut i = from;
    let ghost t = v@.skip(from as int);
    while i < v.len() && v[i] != '_'
        invariant
            from <= i <= v.len(),
            u@ == "_"@,
            u@.len() == 1,
            t == v@.skip(from as int),
            find_from(t, "_"@, 0) == find_from(t, "_"@, i - from),
            forall|k: int| from <= k < i ==> v@[k] != '_',
        decreases v.len() - i,
    {
        assert(!crate::text::occurs_at(t, "_"@, i - from)) by {
            reveal_strlit("_");
            if crate::text::occurs_at(t, "_"@, i - from) {
                assert(t.subrange(i - from, i - from + 1)[0] == "_"@[0]);
                assert(t[i - from] == v@[i as int]);
            }
        }
        i = i + 1;
    }
    if i < v.len() {
        assert(crate::text::occurs_at(t, "_"@, i - from)) by {
            assert(t.subrange(i - from, i - from + 1) =~= u@);
        }
        assert(t.take(i - from) =~= v@.subrange(from as int, i as int));
    } else {
        assert(find_from(t, "_"@, i - from) is None);
        assert(t =~= v@.subrange(from as int, i as int));
    }
    i
}

/// The save id encoded in a stored file name.
pub fn save_id_of_file(filename: &str) -> (r: String)
    ensures
        r@ == first_segment(filename@),
{
    let v = chars_of(filename);
    assert(v@.skip(0) =~= v@);
    let e = first_segment_end(&v, 0);
    string_of_range(&v, 0, e)
}

/// The server a stored backup came from: the second `_`-separated part of its
/// name, for names holding `_backup_`.
pub fn source_server_of_file(filename: &str) -> (r: Option<String>)
    ensures
        r matches Some(x) ==> contains(filename@, "_backup_"@) && second_segment(filename@)
            == Some(x@),
        r is None ==> !contains(filename@, "_backup_"@) || second_segment(filename@) is None,
{
    let v = chars_of(filename);
    let pat = chars_of("_backup_");
    if !contains_exec(&v, &pat) {
        return None;
    }
    assert(v@.skip(0) =~= v@);
    let e = first_segment_end(&v, 0);
    if e == v.len() {
        return None;
    }
    assert(v@.skip(0).skip(e + 1) =~= v@.skip(e + 1));
    let f = first_segment_end(&v, e + 1);
    Some(string_of_range(&v, e + 1, f))
}

impl SaveManager {
    pub closed spec fn saves_dir_view(&self) -> Seq<char> {
        self.saves_dir@
    }

    pub closed spec fn servers_dir_view(&self) -> Seq<char> {
        self.servers_dir@
    }

    pub fn new(saves_dir: String, servers_dir: String) -> (r: Self)
        ensures
            r.saves_dir_view() == saves_dir@,
            r.servers_dir_view() == servers_dir@,
    {
        SaveManager { saves_dir, servers_dir }
    }

    pub fn saves_dir(&self) -> (r: &str)
        ensures
            r@ == self.saves_dir_view(),
    {
        self.saves_dir.as_str()
    }

    /// Accepts an upload named `name` of `size` bytes, or says why not.
    pub fn check_upload(name: &str, size: usize) -> (r: Result<(), AppError>)
        ensures
            r is Ok <==> is_save_name(name@) && size <= max_save_size(),
            !is_save_name(name@) ==> (r matches Err(AppError::BadRequest(m)) && m@
                == "Only .wld, .wld.bak and .bak files are allowed"@),
            is_save_name(name@) && size > max_save_size() ==> (r matches Err(
                AppError::BadRequest(m),
            ) && m@ == "Save file too large (max 500MB)"@),
    {
        if !is_allowed_save_name(name) {
            return Err(AppError::BadRequest(owned("Only .wld, .wld.bak and .bak files are allowed")));
        }
        if size > 536_870_912 {
            return Err(AppError::BadRequest(owned("Save file too large (max 500MB)")));
        }
        Ok(())
    }

    /// Where an upload with id `save_id` and name `name` is stored:
    /// `<saves_dir>/<save_id>_<name>`.
    pub fn upload_path(&self, save_id: &str, name: &str) -> (r: String)
        ensures
            r@ == path_join(self.saves_dir_view(), save_id@ + "_"@ + name@),
    {
        let file_name = concat3(save_id, "_", name);
        join(self.saves_dir.as_str(), file_name.as_str())
    }

    /// A server's world directory: `<servers_dir>/<server_id>/world`.
    pub fn world_dir(&self, server_id: &str) -> (r: String)
        ensures
            r@ == path_join(path_join(self.servers_dir_view(), server_id@), "world"@),
    {
        let d = join(self.servers_dir.as_str(), server_id);
        join(d.as_str(), "world")
    }

    /// Where an imported save lands in a server's world directory, under its
    /// normalized world name; only save files may be imported.
    pub fn import_target(&self, server_id: &str, target_name: &str) -> (r: Result<
        (String, String),
        AppError,
    >)
        ensures
            r is Ok <==> is_save_name(target_name@),
            r matches Ok((n, p)) ==> n@ == normalized_world_name(target_name@) && p@ == path_join(
                path_join(path_join(self.servers_dir_view(), server_id@), "world"@),
                normalized_world_name(target_name@),
            ),
            r matches Err(e) ==> e matches AppError::BadRequest(m) && m@
                == "Imported save must be a .wld, .wld.bak or .bak file"@,
    {
        if !is_allowed_save_name(target_name) {
            return Err(
                AppError::BadRequest(owned("Imported save must be a .wld, .wld.bak or .bak file")),
            );
        }
        let dir = self.world_dir(server_id);
        let name = normalize_world_filename(target_name);
        let dest = join(dir.as_str(), name.as_str());
        Ok((name, dest))
    }

    /// The world file a server backup copies: the name as given when it ends
    /// in `.wld` or `.bak`, else with `.wld` added, in the world directory.
    pub fn backup_source_path(&self, server_id: &str, world_name: &str) -> (r: String)
        ensures
            r@ == path_join(
                path_join(path_join(self.servers_dir_view(), server_id@), "world"@),
                if ends_with(world_name@, ".wld"@) || ends_with(world_name@, ".bak"@) {
                    world_name@
                } else {
                    world_name@ + ".wld"@
                },
            ),
    {
        let dir = self.world_dir(server_id);
        if str_ends_with(world_name, ".wld") || str_ends_with(world_name, ".bak") {
            join(dir.as_str(), world_name)
        } else {
            let f = concat2(world_name, ".wld");
            join(dir.as_str(), f.as_str())
        }
    }

    /// The name of a backup taken at `stamp`: `<world>_backup_<stamp>.wld`,
    /// and its path in the saves directory.
    pub fn backup_target(&self, world_name: &str, stamp: &str) -> (r: (String, String))
        ensures
            r.0@ == world_name@ + "_backup_"@ + stamp@ + ".wld"@,
            r.1@ == path_join(self.saves_dir_view(), r.0@),
    {
        let mut name = concat3(world_name, "_backup_", stamp);
        append(&mut name, ".wld");
        let path = join(self.saves_dir.as_str(), name.as_str());
        (name, path)
    }

    /// Whether a file in the saves directory is the save with id `save_id`:
    /// its name starts with the id and is a save name.
    pub fn is_file_of_save(filename: &str, save_id: &str) -> (r: bool)
        ensures
            r == (starts_with(filename@, save_id@) && is_save_name(filename@)),
    {
        str_starts_with(filename, save_id) && is_allowed_save_name(filename)
    }
}

impl Default for SaveManager {
    fn default() -> (r: Self)
        ensures
            r.saves_dir_view() == "./data/saves"@,
            r.servers_dir_view() == "./data/servers"@,
    {
        SaveManager::new(owned("./data/saves"), owned("./data/servers"))
    }
}

} // verus!
