//! Servers: their directories, which world file a start loads, whether a
//! new world is created, and the listing of a server's worlds.
use vstd::prelude::*;

use crate::error::AppError;
use crate::names::{lemma_name_le_total, lemma_name_le_trans, name_le, name_le_exec};
use crate::paths::{join, path_join};
use crate::saves::{is_save_name, is_world_file_name};
use crate::text::{concat2, concat3, ends_with, owned, starts_with, str_ends_with, str_starts_with};

verus! {

// ───────────────────────── directories ─────────────────────────

/// A server's directory: `<data_dir>/servers/<id>`.
pub fn server_dir(data_dir: &str, server_id: &str) -> (r: String)
    ensures
        r@ == path_join(path_join(data_dir@, "servers"@), server_id@),
{
    let a = join(data_dir, "servers");
    join(a.as_str(), server_id)
}

/// The directories made for a new server: `world`, `ServerPlugins`, `logs`
/// and `tshock` under its directory.
pub fn new_server_dirs(server_dir: &str) -> (r: Vec<String>)
    ensures
        r@.len() == 4,
        r@[0]@ == path_join(server_dir@, "world"@),
        r@[1]@ == path_join(server_dir@, "ServerPlugins"@),
        r@[2]@ == path_join(server_dir@, "logs"@),
        r@[3]@ == path_join(server_dir@, "tshock"@),
{
    let mut v: Vec<String> = Vec::new();
    v.push(join(server_dir, "world"));
    v.push(join(server_dir, "ServerPlugins"));
    v.push(join(server_dir, "logs"));
    v.push(join(server_dir, "tshock"));
    v
}

/// The error when a server id is unknown.
pub fn server_not_found() -> (r: AppError)
    ensures
        r matches AppError::NotFound(m) && m@ == "Server not found"@,
{
    AppError::NotFound(owned("Server not found"))
}

/// The error when a server's TShock version is not installed.
pub fn version_not_found(version: &str) -> (r: AppError)
    ensures
        r matches AppError::NotFound(m) && m@ == "TShock version "@ + version@ + " not found"@,
{
    AppError::NotFound(concat3("TShock version ", version, " not found"))
}

/// What `status` reports of a server: `running` or `stopped`.
pub fn status_word(is_running: bool) -> (r: &'static str)
    ensures
        r@ == (if is_running { "running"@ } else { "stopped"@ }),
{
    if is_running {
        "running"
    } else {
        "stopped"
    }
}

// ───────────────────────── the world a start loads ─────────────────────────

/// The files tried first for a world name, in order: the name itself when
/// it ends in `.wld` or `.bak`, else `<name>.wld`, `<name>.wld.bak` and
/// `<name>.bak`; none for an empty name.
pub open spec fn world_candidates(world_dir: Seq<char>, name: Seq<char>) -> Seq<Seq<char>> {
    if name.len() == 0 {
        Seq::empty()
    } else if ends_with(name, ".wld"@) || ends_with(name, ".bak"@) {
        seq![path_join(world_dir, name)]
    } else {
        seq![
            path_join(world_dir, name + ".wld"@),
            path_join(world_dir, name + ".wld.bak"@),
            path_join(world_dir, name + ".bak"@),
        ]
    }
}

/// The candidate files of a world name.
pub fn world_candidate_paths(world_dir: &str, world_name: &str) -> (r: Vec<String>)
    ensures
        r@.len() == world_candidates(world_dir@, world_name@).len(),
        forall|i: int| 0 <= i < r@.len() ==> #[trigger] r@[i]@ == world_candidates(world_dir@, world_name@)[i],
{
    let mut v: Vec<String> = Vec::new();
    if world_name.unicode_len() == 0 {
        return v;
    }
    if str_ends_with(world_name, ".wld") || str_ends_with(world_name, ".bak") {
        v.push(join(world_dir, world_name));
    } else {
        let a = concat2(world_name, ".wld");
        let b = concat2(world_name, ".wld.bak");
        let c = concat2(world_name, ".bak");
        v.push(join(world_dir, a.as_str()));
        v.push(join(world_dir, b.as_str()));
        v.push(join(world_dir, c.as_str()));
    }
    v
}

/// An entry of a server's world directory.
#[derive(Debug, Clone)]
pub struct WorldEntry {
    pub file_name: String,
    pub path: String,
    pub is_file: bool,
}

/// A file of the directory that can stand for `name`: a world file whose
/// name starts with it.
pub open spec fn entry_matches(e: WorldEntry, name: Seq<char>) -> bool {
    e.is_file && is_save_name(e.file_name@) && starts_with(e.file_name@, name)
}

/// The first index of `exists` that is set.
pub open spec fn first_existing(exists: Seq<bool>) -> Option<int>
    decreases exists.len(),
{
    if exists.len() == 0 {
        None
    } else {
        match first_existing(exists.drop_last()) {
            Some(i) => Some(i),
            None => if exists.last() {
                Some(exists.len() - 1)
            } else {
                None
            },
        }
    }
}

/// The first directory entry that matches `name`.
pub open spec fn first_matching(entries: Seq<WorldEntry>, name: Seq<char>) -> Option<int>
    decreases entries.len(),
{
    if entries.len() == 0 {
        None
    } else {
        match first_matching(entries.drop_last(), name) {
            Some(i) => Some(i),
            None => if entry_matches(entries.last(), name) {
                Some(entries.len() - 1)
            } else {
                None
            },
        }
    }
}

/// The world file a start loads: none for an empty name; else the first
/// candidate that exists; else the first world file of the directory whose
/// name starts with the world name.
pub open spec fn resolved_world(
    name: Seq<char>,
    candidates: Seq<Seq<char>>,
    exists: Seq<bool>,
    entries: Seq<WorldEntry>,
) -> Option<Seq<char>> {
    if name.len() == 0 {
        None
    } else if let Some(i) = first_existing(exists) {
        Some(candidates[i])
    } else if let Some(j) = first_matching(entries, name) {
        Some(entries[j].path@)
    } else {
        None
    }
}

fn first_true(v: &Vec<bool>) -> (r: Option<usize>)
    ensures
        r matches Some(i) ==> first_existing(v@) == Some(i as int),
        r is None ==> first_existing(v@) is None,
{
    let mut i: usize = 0;
    while i < v.len()
        invariant
            i <= v@.len(),
            first_existing(v@.take(i as int)) is None,
        decreases v@.len() - i,
    {
        assert(v@.take(i + 1).drop_last() =~= v@.take(i as int));
        if v[i] {
            proof {
                lemma_first_existing_prefix(v@, i as int + 1);
            }
            return Some(i);
        }
        i = i + 1;
    }
    assert(v@.take(v@.len() as int) =~= v@);
    None
}

proof fn lemma_first_existing_prefix(v: Seq<bool>, n: int)
    requires
        0 <= n <= v.len(),
        first_existing(v.take(n)) is Some,
    ensures
        first_existing(v) == first_existing(v.take(n)),
    decreases v.len() - n,
{
    if n < v.len() {
        assert(v.take(n + 1).drop_last() =~= v.take(n));
        lemma_first_existing_prefix(v, n + 1);
    } else {
        assert(v.take(n) =~= v);
    }
}

proof fn lemma_first_matching_prefix(v: Seq<WorldEntry>, name: Seq<char>, n: int)
    requires
        0 <= n <= v.len(),
        first_matching(v.take(n), name) is Some,
    ensures
        first_matching(v, name) == first_matching(v.take(n), name),
    decreases v.len() - n,
{
    if n < v.len() {
        assert(v.take(n + 1).drop_last() =~= v.take(n));
        lemma_first_matching_prefix(v, name, n + 1);
    } else {
        assert(v.take(n) =~= v);
    }
}

fn first_matching_entry(entries: &Vec<WorldEntry>, name: &str) -> (r: Option<usize>)
    ensures
        r matches Some(i) ==> first_matching(entries@, name@) == Some(i as int),
        r is None ==> first_matching(entries@, name@) is None,
{
    let mut i: usize = 0;
    while i < entries.len()
        invariant
            i <= entries@.len(),
            first_matching(entries@.take(i as int), name@) is None,
        decreases entries@.len() - i,
    {
        assert(entries@.take(i + 1).drop_last() =~= entries@.take(i as int));
        let e = &entries[i];
        if e.is_file && is_world_file_name(e.file_name.as_str()) && str_starts_with(e.file_name.as_str(), name) {
            proof {
                lemma_first_matching_prefix(entries@, name@, i as int + 1);
            }
            return Some(i);
        }
        i = i + 1;
    }
    assert(entries@.take(entries@.len() as int) =~= entries@);
    None
}

/// The world file a start loads, given which candidates exist and the
/// entries of the world directory.
pub fn resolve_world_path(
    world_name: &str,
    candidates: &Vec<String>,
    candidate_exists: &Vec<bool>,
    entries: &Vec<WorldEntry>,
) -> (r: Option<String>)
    requires
        candidates@.len() == candidate_exists@.len(),
    ensures
        r matches Some(p) ==> resolved_world(
            world_name@,
            candidates@.map_values(|c: String| c@),
            candidate_exists@,
            entries@,
        ) == Some(p@),
        r is None ==> resolved_world(
            world_name@,
            candidates@.map_values(|c: String| c@),
            candidate_exists@,
            entries@,
        ) is None,
{
    if world_name.unicode_len() == 0 {
        return None;
    }
    match first_true(candidate_exists) {
        Some(i) => {
            proof {
                lemma_first_existing_bound(candidate_exists@);
            }
            Some(candidates[i].clone())
        },
        None => match first_matching_entry(entries, world_name) {
            Some(j) => {
                proof {
                    lemma_first_matching_bound(entries@, world_name@);
                }
                Some(entries[j].path.clone())
            },
            None => None,
        },
    }
}

proof fn lemma_first_existing_bound(v: Seq<bool>)
    ensures
        first_existing(v) matches Some(i) ==> 0 <= i < v.len() && v[i],
    decreases v.len(),
{
    if v.len() > 0 {
        lemma_first_existing_bound(v.drop_last());
    }
}

proof fn lemma_first_matching_bound(v: Seq<WorldEntry>, name: Seq<char>)
    ensures
        first_matching(v, name) matches Some(i) ==> 0 <= i < v.len() && entry_matches(v[i], name),
    decreases v.len(),
{
    if v.len() > 0 {
        lemma_first_matching_bound(v.drop_last(), name);
    }
}

// ───────────────────────── creating a world ─────────────────────────

/// TShock's world size for a width: small up to 4200, medium up to 6400,
/// large beyond.
pub open spec fn size_for_width(width: u64) -> u32 {
    if width <= 4200 {
        1
    } else if width <= 6400 {
        2
    } else {
        3
    }
}

/// The `-autocreate` size for a world width.
pub fn autocreate_size(width: u64) -> (r: u32)
    ensures
        r == size_for_width(width),
{
    if width <= 4200 {
        1
    } else if width <= 6400 {
        2
    } else {
        3
    }
}

/// What the server's `config.json` says about creating a world, as far as it
/// could be read: `auto_create`, `world_width` and `world_name`.
#[derive(Debug, Clone)]
pub struct AutoCreateSettings {
    pub auto_create: Option<bool>,
    pub world_width: Option<u64>,
    pub world_name: Option<String>,
}

/// Whether a start creates a world, and under which name: only when no
/// world file was found and the config asks for it (`auto_create`), with the
/// size of its width (6400 when absent) and its world name, else the
/// server's; without creating, the server's world name goes along unless a
/// world file was found.
pub fn autocreate_plan(
    world_found: bool,
    config: &Option<AutoCreateSettings>,
    world_name: &Option<String>,
) -> (r: (Option<u32>, Option<String>))
    ensures
        world_found ==> r.0 is None && r.1 is None,
        !world_found ==> match *config {
            Some(c) if c.auto_create == Some(true) => {
                &&& r.0 == Some(size_for_width(
                    match c.world_width {
                        Some(w) => w,
                        None => 6400,
                    },
                ))
                &&& r.1 == (match c.world_name {
                    Some(n) => Some(n),
                    None => *world_name,
                })
            },
            _ => r.0 is None && r.1 == *world_name,
        },
{
    if world_found {
        return (None, None);
    }
    match config {
        Some(c) => {
            let auto = match c.auto_create {
                Some(b) => b,
                None => false,
            };
            if auto {
                let width = match c.world_width {
                    Some(w) => w,
                    None => 6400,
                };
                let name = match &c.world_name {
                    Some(n) => Some(n.clone()),
                    None => world_name.clone(),
                };
                (Some(autocreate_size(width)), name)
            } else {
                (None, world_name.clone())
            }
        },
        None => (None, world_name.clone()),
    }
}

// ───────────────────────── listing worlds ─────────────────────────

/// A world file of a server.
#[derive(Debug, Clone)]
pub struct WorldFile {
    pub name: String,
    pub size: u64,
    pub modified: String,
    pub is_backup: bool,
}

/// A listed world file: `is_backup` when its name ends in `.bak`.
pub fn world_file(name: &str, size: u64, modified: &str) -> (r: WorldFile)
    ensures
        r.name@ == name@,
        r.size == size,
        r.modified@ == modified@,
        r.is_backup == ends_with(name@, ".bak"@),
{
    WorldFile { name: owned(name), size, modified: owned(modified), is_backup: str_ends_with(name, ".bak") }
}

/// The listing order: worlds before backups, each by name.
pub open spec fn world_le(a: WorldFile, b: WorldFile) -> bool {
    (!a.is_backup && b.is_backup) || (a.is_backup == b.is_backup && name_le(a.name@, b.name@))
}

pub open spec fn worlds_sorted(s: Seq<WorldFile>) -> bool {
    forall|i: int, j: int| 0 <= i < j < s.len() ==> world_le(#[trigger] s[i], #[trigger] s[j])
}

proof fn lemma_world_le_total(a: WorldFile, b: WorldFile)
    ensures
        world_le(a, b) || world_le(b, a),
{
    lemma_name_le_total(a.name@, b.name@);
}

proof fn lemma_world_le_trans(a: WorldFile, b: WorldFile, c: WorldFile)
    requires
        world_le(a, b),
        world_le(b, c),
    ensures
        world_le(a, c),
{
    if a.is_backup == b.is_backup && b.is_backup == c.is_backup {
        lemma_name_le_trans(a.name@, b.name@, c.name@);
    }
}

fn world_le_exec(a: &WorldFile, b: &WorldFile) -> (r: bool)
    ensures
        r == world_le(*a, *b),
{
    (!a.is_backup && b.is_backup) || (a.is_backup == b.is_backup && name_le_exec(a.name.as_str(), b.name.as_str()))
}

/// The world files in listing order: the same files, worlds before
/// backups, each group by name.
pub fn sort_worlds(files: Vec<WorldFile>) -> (r: Vec<WorldFile>)
    ensures
        r@.to_multiset() == files@.to_multiset(),
        worlds_sorted(r@),
{
    broadcast use vstd::seq_lib::group_to_multiset_ensures;
    broadcast use vstd::multiset::group_multiset_axioms;

    let ghost orig = files@;
    let mut rest = files;
    let mut out: Vec<WorldFile> = Vec::new();
    while rest.len() > 0
        invariant
            out@.to_multiset().add(rest@.to_multiset()) == orig.to_multiset(),
            worlds_sorted(out@),
        decreases rest@.len(),
    {
        let ghost rest_before = rest@;
        let x = rest.remove(0);
        proof {
            vstd::seq_lib::to_multiset_remove(rest_before, 0);
            vstd::seq_lib::to_multiset_contains(rest_before, x);
            assert(rest_before[0] == x);
            assert(rest_before.contains(x));
        }
        let mut k: usize = 0;
        while k < out.len() && !world_le_exec(&x, &out[k])
            invariant
                k <= out@.len(),
                forall|m: int| 0 <= m < k ==> !world_le(x, #[trigger] out@[m]),
            decreases out@.len() - k,
        {
            k = k + 1;
        }
        let ghost before = out@;
        out.insert(k, x);
        proof {
            assert(out@ == before.insert(k as int, x));
            assert forall|a: int, b: int| 0 <= a < b < out@.len() implies world_le(#[trigger] out@[a], #[trigger] out@[b]) by {
                if b < k {
                    assert(out@[a] == before[a] && out@[b] == before[b]);
                } else if b == k {
                    assert(out@[a] == before[a]);
                    lemma_world_le_total(x, before[a]);
                } else if a == k {
                    assert(out@[b] == before[b - 1]);
                    if b - 1 > k {
                        lemma_world_le_trans(x, before[k as int], before[b - 1]);
                    }
                } else if a < k {
                    assert(out@[a] == before[a] && out@[b] == before[b - 1]);
                } else {
                    assert(out@[a] == before[a - 1] && out@[b] == before[b - 1]);
                }
            }
            vstd::seq_lib::to_multiset_insert(before, k as int, x);
            assert(out@.to_multiset() == before.to_multiset().insert(x));
            assert(rest@.to_multiset() == rest_before.to_multiset().remove(x));
            assert(rest_before.to_multiset().count(x) > 0);
            assert(out@.to_multiset().add(rest@.to_multiset()) =~= before.to_multiset().add(rest_before.to_multiset()));
        }
    }
    assert(rest@.to_multiset() =~= vstd::multiset::Multiset::empty());
    assert(out@.to_multiset().add(vstd::multiset::Multiset::empty()) =~= out@.to_multiset());
    out
}

} // verus!
