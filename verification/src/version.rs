//! TShock releases: choosing the archive to download, download mirrors,
//! unpacking layout and paging of the release list.
use vstd::prelude::*;

use crate::names::{lemma_name_le_total, lemma_name_le_trans, name_le, name_le_exec, strings_view};
use crate::paths::{join, path_join};
use crate::text::{
    chars_of, concat2, contains, contains_exec, ends_with, find_from, last_path_segment,
    last_segment, owned, replace_all, replace_str, starts_with, str_ends_with, str_trim_end_matches,
    str_trim_start_matches, string_of_range, to_lowercase, trim, trim_end_matches,
    trim_start_matches, trimmed, lowercase, lemma_lowercase_ascii_idempotent, is_ascii_text, ascii_lower_seq, vec_eq,
};

verus! {

/// A release offered for download.
#[derive(Debug, Clone)]
pub struct VersionInfo {
    pub version: String,
    pub tag_name: String,
    pub name: String,
    pub download_url: String,
    pub published_at: String,
    pub size: u64,
    pub downloaded: bool,
}

/// An installed version.
#[derive(Debug, Clone)]
pub struct LocalVersion {
    pub version: String,
    pub name: String,
    pub path: String,
    pub size: u64,
    pub is_dotnet: bool,
    pub installed_at: String,
}

/// One page of the release list.
#[derive(Debug, Clone)]
pub struct AvailableVersionsResponse {
    pub versions: Vec<VersionInfo>,
    pub total: usize,
    pub page: usize,
    pub per_page: usize,
    pub has_more: bool,
}

/// A request to download a release.
#[derive(Debug)]
pub struct DownloadVersionRequest {
    pub tag_name: String,
    pub download_url: String,
}

/// A request to set the download mirror.
#[derive(Debug)]
pub struct ProxyRequest {
    pub mirror: String,
}

/// A downloadable file of a release.
#[derive(Debug, Clone)]
pub struct GitHubAsset {
    pub name: String,
    pub browser_download_url: String,
    pub size: u64,
}

/// The archive formats a release may come in.
#[derive(Debug, Clone, Copy, PartialEq, Eq, Structural)]
pub enum ArchiveFormat {
    Zip,
    Tar,
    TarGz,
}

/// The format a file name announces, judged on its lower-cased form.
pub open spec fn format_of_name(name: Seq<char>) -> Option<ArchiveFormat> {
    let l = lowercase(name);
    if ends_with(l, ".zip"@) {
        Some(ArchiveFormat::Zip)
    } else if ends_with(l, ".tar.gz"@) || ends_with(l, ".tgz"@) {
        Some(ArchiveFormat::TarGz)
    } else if ends_with(l, ".tar"@) {
        Some(ArchiveFormat::Tar)
    } else {
        None
    }
}

pub open spec fn temp_name_of(f: ArchiveFormat) -> Seq<char> {
    match f {
        ArchiveFormat::Zip => "release.zip"@,
        ArchiveFormat::Tar => "release.tar"@,
        ArchiveFormat::TarGz => "release.tar.gz"@,
    }
}

impl ArchiveFormat {
    pub fn from_filename(name: &str) -> (r: Option<Self>)
        ensures
            r == format_of_name(name@),
    {
        let lower = to_lowercase(name);
        let l = lower.as_str();
        if str_ends_with(l, ".zip") {
            Some(ArchiveFormat::Zip)
        } else if str_ends_with(l, ".tar.gz") || str_ends_with(l, ".tgz") {
            Some(ArchiveFormat::TarGz)
        } else if str_ends_with(l, ".tar") {
            Some(ArchiveFormat::Tar)
        } else {
            None
        }
    }

    /// The name the download is saved under before unpacking.
    pub fn temp_filename(&self) -> (r: &'static str)
        ensures
            r@ == temp_name_of(*self),
    {
        match self {
            ArchiveFormat::Zip => "release.zip",
            ArchiveFormat::Tar => "release.tar",
            ArchiveFormat::TarGz => "release.tar.gz",
        }
    }
}

/// The format of a download, from the last segment of its URL; zip when
/// the name says nothing.
pub fn detect_format_from_url(url: &str) -> (r: ArchiveFormat)
    ensures
        r == (match format_of_name(last_segment(url@)) {
            Some(f) => f,
            None => ArchiveFormat::Zip,
        }),
{
    let file = last_path_segment(url);
    match ArchiveFormat::from_filename(file.as_str()) {
        Some(f) => f,
        None => ArchiveFormat::Zip,
    }
}

/// The mirror setting without surrounding whitespace and trailing `/`s.
pub open spec fn clean_mirror(mirror: Seq<char>) -> Seq<char> {
    trim_end_matches(trim(mirror), "/"@)
}

/// A download URL through a mirror: a proxy-style mirror (`ghproxy`,
/// `gh-proxy`) is put in front of the whole URL; any other mirror replaces
/// `https://github.com`; an empty mirror leaves the URL alone.
pub open spec fn mirrored_url(url: Seq<char>, mirror: Seq<char>) -> Seq<char> {
    let m = clean_mirror(mirror);
    if m.len() == 0 {
        url
    } else if contains(m, "ghproxy"@) || contains(m, "gh-proxy"@) || contains(m, "mirror.ghproxy"@) {
        m + "/"@ + url
    } else {
        replace_all(url, "https://github.com"@, m)
    }
}

pub fn apply_mirror(url: &str, mirror: &str) -> (r: String)
    ensures
        r@ == mirrored_url(url@, mirror@),
{
    let t = trimmed(mirror);
    let m = str_trim_end_matches(t.as_str(), "/");
    let mv = chars_of(m.as_str());
    if mv.len() == 0 {
        return owned(url);
    }
    let p1 = chars_of("ghproxy");
    let p2 = chars_of("gh-proxy");
    let p3 = chars_of("mirror.ghproxy");
    if contains_exec(&mv, &p1) || contains_exec(&mv, &p2) || contains_exec(&mv, &p3) {
        let mut r = concat2(m.as_str(), "/");
        crate::text::append(&mut r, url);
        r
    } else {
        proof {
            reveal_strlit("https://github.com");
        }
        replace_str(url, "https://github.com", m.as_str())
    }
}

// ───────────────────────── choosing an asset ─────────────────────────

pub open spec fn is_archive_name(name: Seq<char>) -> bool {
    let l = lowercase(name);
    ends_with(l, ".zip"@) || ends_with(l, ".tar"@) || ends_with(l, ".tar.gz"@) || ends_with(l, ".tgz"@)
}

pub open spec fn is_linux_name(name: Seq<char>) -> bool {
    contains(lowercase(name), "linux"@)
}

pub open spec fn is_arm_name(name: Seq<char>) -> bool {
    let l = lowercase(name);
    contains(l, "arm"@) || contains(l, "aarch64"@)
}

/// An x64 build: says x64, amd64 or x86_64, or says linux and nothing of ARM.
pub open spec fn is_x64_name(name: Seq<char>) -> bool {
    let l = lowercase(name);
    contains(l, "x64"@) || contains(l, "amd64"@) || contains(l, "x86_64"@) || (is_linux_name(l)
        && !is_arm_name(l) && !contains(l, "arm"@))
}

/// An archive built for this platform.
pub open spec fn is_platform_asset(name: Seq<char>, is_arm: bool) -> bool {
    let l = lowercase(name);
    is_linux_name(l) && if is_arm {
        is_arm_name(l)
    } else {
        is_x64_name(l)
    }
}

/// The tiers of preference: 0 is a platform build, 1 any Linux build,
/// 2 any archive.
pub open spec fn asset_fits(name: Seq<char>, tier: int, is_arm: bool) -> bool {
    is_archive_name(name) && (if tier == 0 {
        is_platform_asset(name, is_arm)
    } else if tier == 1 {
        is_linux_name(name)
    } else {
        true
    })
}

pub open spec fn names_of(assets: Seq<GitHubAsset>) -> Seq<Seq<char>> {
    Seq::new(assets.len(), |i: int| assets[i].name@)
}

/// The first asset that fits a tier.
pub open spec fn is_first_fit(names: Seq<Seq<char>>, tier: int, is_arm: bool, i: int) -> bool {
    0 <= i < names.len() && asset_fits(names[i], tier, is_arm) && forall|j: int|
        0 <= j < i ==> !asset_fits(#[trigger] names[j], tier, is_arm)
}

pub open spec fn has_fit(names: Seq<Seq<char>>, tier: int, is_arm: bool) -> bool {
    exists|i: int| 0 <= i < names.len() && asset_fits(#[trigger] names[i], tier, is_arm)
}

fn tier_fits(name: &str, tier: u8, is_arm: bool) -> (r: bool)
    ensures
        r == asset_fits(name@, tier as int, is_arm),
{
    let lower = to_lowercase(name);
    let archive = str_ends_with(lower.as_str(), ".zip") || str_ends_with(lower.as_str(), ".tar")
        || str_ends_with(lower.as_str(), ".tar.gz") || str_ends_with(lower.as_str(), ".tgz");
    if !archive {
        return false;
    }
    if tier == 0 {
        let l2 = to_lowercase(lower.as_str());
        let l2v = chars_of(l2.as_str());
        if !contains_exec(&l2v, &chars_of("linux")) {
            return false;
        }
        if is_arm {
            contains_exec(&l2v, &chars_of("arm")) || contains_exec(&l2v, &chars_of("aarch64"))
        } else {
            let l3 = to_lowercase(l2.as_str());
            let l3v = chars_of(l3.as_str());
            contains_exec(&l2v, &chars_of("x64")) || contains_exec(&l2v, &chars_of("amd64"))
                || contains_exec(&l2v, &chars_of("x86_64")) || (contains_exec(&l3v, &chars_of("linux"))
                && !(contains_exec(&l3v, &chars_of("arm")) || contains_exec(&l3v, &chars_of("aarch64")))
                && !contains_exec(&l2v, &chars_of("arm")))
        }
    } else if tier == 1 {
        contains_exec(&chars_of(lower.as_str()), &chars_of("linux"))
    } else {
        true
    }
}

fn first_fit(assets: &Vec<GitHubAsset>, tier: u8, is_arm: bool) -> (r: Option<usize>)
    ensures
        r matches Some(i) ==> is_first_fit(names_of(assets@), tier as int, is_arm, i as int),
        r is None ==> !has_fit(names_of(assets@), tier as int, is_arm),
{
    let ghost names = names_of(assets@);
    let mut i: usize = 0;
    while i < assets.len()
        invariant
            i <= assets.len(),
            names == names_of(assets@),
            forall|j: int| 0 <= j < i ==> !asset_fits(#[trigger] names[j], tier as int, is_arm),
        decreases assets.len() - i,
    {
        if tier_fits(assets[i].name.as_str(), tier, is_arm) {
            return Some(i);
        }
        i = i + 1;
    }
    None
}

/// The asset to download: the first archive built for this platform, else
/// the first Linux archive, else the first archive; `None` when a release
/// has no archive.
pub fn pick_best_asset(assets: &Vec<GitHubAsset>, is_arm: bool) -> (r: Option<usize>)
    ensures
        r is None <==> !has_fit(names_of(assets@), 2, is_arm),
        r matches Some(i) ==> (is_first_fit(names_of(assets@), 0, is_arm, i as int)) || (!has_fit(
            names_of(assets@),
            0,
            is_arm,
        ) && is_first_fit(names_of(assets@), 1, is_arm, i as int)) || (!has_fit(
            names_of(assets@),
            0,
            is_arm,
        ) && !has_fit(names_of(assets@), 1, is_arm) && is_first_fit(
            names_of(assets@),
            2,
            is_arm,
            i as int,
        )),
{
    let any = first_fit(assets, 2, is_arm);
    if any.is_none() {
        return None;
    }
    match first_fit(assets, 0, is_arm) {
        Some(i) => {
            return Some(i);
        },
        None => {},
    }
    match first_fit(assets, 1, is_arm) {
        Some(i) => {
            return Some(i);
        },
        None => {},
    }
    any
}

// ───────────────────────── unpacking ─────────────────────────

/// The top directory of an archive entry path, with its `/`.
pub open spec fn top_dir(path: Seq<char>) -> Option<Seq<char>> {
    match find_from(path, "/"@, 0) {
        Some(i) => Some(path.take(i + 1)),
        None => None,
    }
}

/// The directory all entries of an archive share at the top, which is
/// stripped when unpacking; `None` when there are no entries, an entry lies
/// at the top level, or two entries differ.
pub open spec fn common_top_dir(paths: Seq<Seq<char>>) -> Option<Seq<char>> {
    if paths.len() > 0 && top_dir(paths[0]) is Some && forall|i: int|
        0 <= i < paths.len() ==> top_dir(#[trigger] paths[i]) == top_dir(paths[0]) {
        top_dir(paths[0])
    } else {
        None
    }
}


fn top_dir_exec(path: &str) -> (r: Option<Vec<char>>)
    ensures
        r matches Some(t) ==> top_dir(path@) == Some(t@),
        r is None ==> top_dir(path@) is None,
{
    let v = chars_of(path);
    let slash = chars_of("/");
    match crate::text::find_from_exec(&v, &slash, 0) {
        Some(i) => {
            proof {
                crate::text::lemma_find_from_some_pub(v@, slash@, 0);
                reveal_strlit("/");
            }
            let mut t: Vec<char> = Vec::new();
            let mut k: usize = 0;
            while k <= i
                invariant
                    k <= i + 1,
                    i < v.len(),
                    t@ == v@.take(k as int),
                decreases i + 1 - k,
            {
                t.push(v[k]);
                k = k + 1;
                assert(t@ =~= v@.take(k as int));
            }
            Some(t)
        },
        None => None,
    }
}

/// The shared top directory of archive entries (`detect_tar_prefix`,
/// `detect_zip_prefix`).
pub fn detect_common_prefix(paths: &Vec<String>) -> (r: Option<String>)
    ensures
        r matches Some(p) ==> common_top_dir(strings_view(paths@)) == Some(p@),
        r is None ==> common_top_dir(strings_view(paths@)) is None,
{
    let ghost ps = strings_view(paths@);
    if paths.len() == 0 {
        return None;
    }
    let first = match top_dir_exec(paths[0].as_str()) {
        Some(t) => t,
        None => {
            return None;
        },
    };
    let mut i: usize = 1;
    while i < paths.len()
        invariant
            1 <= i <= paths.len(),
            ps == strings_view(paths@),
            top_dir(ps[0]) == Some(first@),
            forall|j: int| 0 <= j < i ==> top_dir(#[trigger] ps[j]) == top_dir(ps[0]),
        decreases paths.len() - i,
    {
        match top_dir_exec(paths[i].as_str()) {
            Some(t) => {
                if !vec_eq(&t, &first) {
                    assert(top_dir(ps[i as int]) != top_dir(ps[0]));
                    return None;
                }
            },
            None => {
                assert(top_dir(ps[i as int]) != top_dir(ps[0]));
                return None;
            },
        }
        i = i + 1;
    }
    Some(crate::text::string_of(&first))
}

/// Where an archive entry goes relative to the install directory: the path
/// with the shared prefix removed (when it starts with it); entries that end
/// up empty, `/`, or (for tar archives) `.` are skipped.
pub open spec fn entry_target(raw: Seq<char>, prefix: Option<Seq<char>>, is_tar: bool) -> Option<Seq<char>> {
    let rel = match prefix {
        Some(p) => if starts_with(raw, p) {
            raw.skip(p.len() as int)
        } else {
            raw
        },
        None => raw,
    };
    if rel.len() == 0 || rel == "/"@ || (is_tar && rel == "."@) {
        None
    } else {
        Some(rel)
    }
}

pub fn entry_relative_path(raw: &str, prefix: Option<&str>, is_tar: bool) -> (r: Option<String>)
    ensures
        r matches Some(x) ==> entry_target(raw@, match prefix { Some(p) => Some(p@), None => None }, is_tar) == Some(x@),
        r is None ==> entry_target(raw@, match prefix { Some(p) => Some(p@), None => None }, is_tar) is None,
{
    let v = chars_of(raw);
    let rel: String = match prefix {
        Some(p) => {
            if crate::text::starts_with_exec(&v, p) {
                let n = p.unicode_len();
                assert(v@.subrange(n as int, v.len() as int) =~= v@.skip(n as int));
                string_of_range(&v, n, v.len())
            } else {
                owned(raw)
            }
        },
        None => owned(raw),
    };
    let s = rel.as_str();
    if s.unicode_len() == 0 || crate::text::str_eq(s, "/") || (is_tar && crate::text::str_eq(s, ".")) {
        None
    } else {
        Some(rel)
    }
}

// ───────────────────────── listing ─────────────────────────

/// The display name of a version: `TShock <tag without leading v>`.
pub open spec fn version_display_name(tag: Seq<char>) -> Seq<char> {
    "TShock "@ + trim_start_matches(tag, "v"@)
}

pub fn display_name_for(tag: &str) -> (r: String)
    ensures
        r@ == version_display_name(tag@),
{
    let t = str_trim_start_matches(tag, "v");
    concat2("TShock ", t.as_str())
}

/// The listing entry for a release and its chosen asset; the download URL
/// goes through the mirror when one is set.
pub fn release_entry(
    tag_name: &str,
    release_name: Option<String>,
    published_at: String,
    asset: &GitHubAsset,
    mirror: &str,
    downloaded: bool,
) -> (r: VersionInfo)
    ensures
        r.version@ == tag_name@,
        r.tag_name@ == tag_name@,
        r.name@ == (match release_name {
            Some(n) => n@,
            None => version_display_name(tag_name@),
        }),
        r.download_url@ == (if mirror@.len() == 0 {
            asset.browser_download_url@
        } else {
            mirrored_url(asset.browser_download_url@, mirror@)
        }),
        r.published_at == published_at,
        r.size == asset.size,
        r.downloaded == downloaded,
{
    let download_url = if mirror.unicode_len() == 0 {
        asset.browser_download_url.clone()
    } else {
        apply_mirror(asset.browser_download_url.as_str(), mirror)
    };
    let name = match release_name {
        Some(n) => n,
        None => display_name_for(tag_name),
    };
    VersionInfo {
        version: owned(tag_name),
        tag_name: owned(tag_name),
        name,
        download_url,
        published_at,
        size: asset.size,
        downloaded,
    }
}

/// The listing entry of an installed version.
pub fn local_version_entry(
    dir_name: String,
    path: String,
    size: u64,
    is_dotnet: bool,
    installed_at: String,
) -> (r: LocalVersion)
    ensures
        r.version@ == dir_name@,
        r.name@ == version_display_name(dir_name@),
        r.path == path,
        r.size == size,
        r.is_dotnet == is_dotnet,
        r.installed_at == installed_at,
{
    let name = display_name_for(dir_name.as_str());
    LocalVersion { version: dir_name, name, path, size, is_dotnet, installed_at }
}

/// A version directory holds a self-contained build when it has the
/// `TShock.Server` binary and no `TShock.Server.dll`.
pub fn is_self_contained(has_binary: bool, has_dll: bool) -> (r: bool)
    ensures
        r == (has_binary && !has_dll),
{
    has_binary && !has_dll
}

/// The window of one page of `total` entries.
#[derive(Debug, Clone, Copy)]
pub struct PageWindow {
    pub start: usize,
    pub end: usize,
    pub has_more: bool,
}

/// Entries `start..end` of page `page` (from 1) of `per_page` entries each;
/// empty past the end; `has_more` when entries follow the page.
pub fn page_window(total: usize, page: usize, per_page: usize) -> (r: PageWindow)
    requires
        page >= 1,
        page * per_page <= usize::MAX,
    ensures
        r.start == (if (page - 1) * per_page < total { (page - 1) * per_page } else { 0 }),
        r.end == (if (page - 1) * per_page < total {
            if (page - 1) * per_page + per_page < total { (page - 1) * per_page + per_page } else { total as int }
        } else {
            0
        }),
        r.has_more == ((page - 1) * per_page + per_page < total),
{
    assert((page - 1) * per_page + per_page == page * per_page) by (nonlinear_arith);
    assert((page - 1) * per_page <= page * per_page) by (nonlinear_arith)
        requires page >= 1;
    let start = (page - 1) * per_page;
    let has_more = start + per_page < total;
    if start < total {
        let end = if start + per_page < total {
            start + per_page
        } else {
            total
        };
        PageWindow { start, end, has_more }
    } else {
        PageWindow { start: 0, end: 0, has_more }
    }
}

/// The paging request of the release list: page from 1 (default 1), page
/// size between 1 and 50 (default 10).
pub fn page_params(page: Option<&str>, per_page: Option<&str>) -> (r: (usize, usize))
    ensures
        r.0 >= 1,
        1 <= r.1 <= 50,
        r.0 == (match page {
            Some(p) => match crate::text::parse_unsigned(p@, usize::MAX as nat) {
                Some(v) => if v >= 1 { v } else { 1 },
                None => 1,
            },
            None => 1,
        }),
        r.1 == (match per_page {
            Some(p) => match crate::text::parse_unsigned(p@, usize::MAX as nat) {
                Some(v) => if v > 50 { 50 } else if v < 1 { 1 } else { v },
                None => 10,
            },
            None => 10,
        }),
{
    let p: usize = match page {
        Some(s) => match crate::text::parse_unsigned_exec(s, usize::MAX as u64) {
            Some(v) => v as usize,
            None => 1,
        },
        None => 1,
    };
    let pp: usize = match per_page {
        Some(s) => match crate::text::parse_unsigned_exec(s, usize::MAX as u64) {
            Some(v) => v as usize,
            None => 10,
        },
        None => 10,
    };
    let p = if p < 1 { 1 } else { p };
    let pp = if pp > 50 { 50 } else if pp < 1 { 1 } else { pp };
    (p, pp)
}

/// The directory a version is installed in.
pub fn version_dir(versions_dir: &str, tag_name: &str) -> (r: String)
    ensures
        r@ == path_join(versions_dir@, tag_name@),
{
    join(versions_dir, tag_name)
}

// ───────────────────────── release listing ─────────────────────────

/// The asset `pick_best_asset` picks: the first that fits the best tier
/// any asset fits.
pub open spec fn best_asset(names: Seq<Seq<char>>, is_arm: bool) -> Option<int> {
    if has_fit(names, 0, is_arm) {
        Some(choose|i: int| is_first_fit(names, 0, is_arm, i))
    } else if has_fit(names, 1, is_arm) {
        Some(choose|i: int| is_first_fit(names, 1, is_arm, i))
    } else if has_fit(names, 2, is_arm) {
        Some(choose|i: int| is_first_fit(names, 2, is_arm, i))
    } else {
        None
    }
}

proof fn lemma_first_fit_unique(names: Seq<Seq<char>>, tier: int, is_arm: bool, i: int, j: int)
    requires
        is_first_fit(names, tier, is_arm, i),
        is_first_fit(names, tier, is_arm, j),
    ensures
        i == j,
{
    if i < j {
        assert(!asset_fits(names[i], tier, is_arm));
    } else if j < i {
        assert(!asset_fits(names[j], tier, is_arm));
    }
}

proof fn lemma_first_fit_exists(names: Seq<Seq<char>>, tier: int, is_arm: bool)
    requires
        has_fit(names, tier, is_arm),
    ensures
        exists|i: int| is_first_fit(names, tier, is_arm, i),
    decreases names.len(),
{
    let k = choose|k: int| 0 <= k < names.len() && asset_fits(#[trigger] names[k], tier, is_arm);
    if !asset_fits(names[0], tier, is_arm) {
        let rest = names.drop_first();
        assert(asset_fits(rest[k - 1], tier, is_arm));
        lemma_first_fit_exists(rest, tier, is_arm);
        let i = choose|i: int| is_first_fit(rest, tier, is_arm, i);
        assert(is_first_fit(names, tier, is_arm, i + 1)) by {
            assert forall|j: int| 0 <= j < i + 1 implies !asset_fits(#[trigger] names[j], tier, is_arm) by {
                if j > 0 {
                    assert(names[j] == rest[j - 1]);
                }
            }
        }
    } else {
        assert(is_first_fit(names, tier, is_arm, 0));
    }
}

/// `pick_best_asset` picks `best_asset`.
proof fn lemma_pick_is_best(names: Seq<Seq<char>>, is_arm: bool, r: Option<usize>)
    requires
        r is None <==> !has_fit(names, 2, is_arm),
        r matches Some(i) ==> (is_first_fit(names, 0, is_arm, i as int)) || (!has_fit(names, 0, is_arm)
            && is_first_fit(names, 1, is_arm, i as int)) || (!has_fit(names, 0, is_arm) && !has_fit(
            names,
            1,
            is_arm,
        ) && is_first_fit(names, 2, is_arm, i as int)),
    ensures
        best_asset(names, is_arm) == (match r {
            Some(i) => Some(i as int),
            None => None,
        }),
{
    if has_fit(names, 0, is_arm) {
        lemma_first_fit_exists(names, 0, is_arm);
        let c = choose|i: int| is_first_fit(names, 0, is_arm, i);
        let i = r->0;
        assert(has_fit(names, 2, is_arm)) by {
            assert(asset_fits(names[c], 2, is_arm));
        }
        lemma_first_fit_unique(names, 0, is_arm, c, i as int);
    } else if has_fit(names, 1, is_arm) {
        lemma_first_fit_exists(names, 1, is_arm);
        let c = choose|i: int| is_first_fit(names, 1, is_arm, i);
        assert(has_fit(names, 2, is_arm)) by {
            assert(asset_fits(names[c], 2, is_arm));
        }
        let i = r->0;
        lemma_first_fit_unique(names, 1, is_arm, c, i as int);
    } else if has_fit(names, 2, is_arm) {
        lemma_first_fit_exists(names, 2, is_arm);
        let c = choose|i: int| is_first_fit(names, 2, is_arm, i);
        let i = r->0;
        lemma_first_fit_unique(names, 2, is_arm, c, i as int);
    }
}

/// A release as the GitHub API lists it.
#[derive(Debug, Clone)]
pub struct GitHubRelease {
    pub tag_name: String,
    pub name: Option<String>,
    pub published_at: String,
    pub assets: Vec<GitHubAsset>,
}

/// A listed release as plain data.
pub struct VersionView {
    pub version: Seq<char>,
    pub tag_name: Seq<char>,
    pub name: Seq<char>,
    pub download_url: Seq<char>,
    pub published_at: Seq<char>,
    pub size: u64,
    pub downloaded: bool,
}

pub open spec fn version_view(v: VersionInfo) -> VersionView {
    VersionView {
        version: v.version@,
        tag_name: v.tag_name@,
        name: v.name@,
        download_url: v.download_url@,
        published_at: v.published_at@,
        size: v.size,
        downloaded: v.downloaded,
    }
}

pub open spec fn versions_view(v: Seq<VersionInfo>) -> Seq<VersionView> {
    v.map_values(|x: VersionInfo| version_view(x))
}

/// How a release is listed with the asset at `i`.
pub open spec fn listed_release(r: GitHubRelease, i: int, local: Seq<Seq<char>>, mirror: Seq<char>) -> VersionView {
    let a = r.assets@[i];
    VersionView {
        version: r.tag_name@,
        tag_name: r.tag_name@,
        name: match r.name {
            Some(n) => n@,
            None => version_display_name(r.tag_name@),
        },
        download_url: if mirror.len() == 0 {
            a.browser_download_url@
        } else {
            mirrored_url(a.browser_download_url@, mirror)
        },
        published_at: r.published_at@,
        size: a.size,
        downloaded: local.contains(r.tag_name@),
    }
}

/// The releases that can be downloaded, in order: each with an archive,
/// listed with its best asset.
pub open spec fn listed_releases(rs: Seq<GitHubRelease>, local: Seq<Seq<char>>, is_arm: bool, mirror: Seq<char>) -> Seq<
    VersionView,
>
    decreases rs.len(),
{
    if rs.len() == 0 {
        Seq::empty()
    } else {
        let prev = listed_releases(rs.drop_last(), local, is_arm, mirror);
        match best_asset(names_of(rs.last().assets@), is_arm) {
            Some(i) => prev.push(listed_release(rs.last(), i, local, mirror)),
            None => prev,
        }
    }
}

fn contains_string(v: &Vec<String>, s: &str) -> (r: bool)
    ensures
        r == v@.map_values(|x: String| x@).contains(s@),
{
    let ghost sv = v@.map_values(|x: String| x@);
    let mut i: usize = 0;
    while i < v.len()
        invariant
            i <= v@.len(),
            sv == v@.map_values(|x: String| x@),
            forall|k: int| 0 <= k < i ==> sv[k] != s@,
        decreases v@.len() - i,
    {
        assert(sv[i as int] == v@[i as int]@);
        if crate::text::str_eq(v[i].as_str(), s) {
            return true;
        }
        i = i + 1;
    }
    false
}

/// The page of downloadable releases asked for; `local` are the installed
/// versions and `mirror` the download mirror (empty for none).
pub fn available_versions(
    releases: &Vec<GitHubRelease>,
    local: &Vec<String>,
    is_arm: bool,
    mirror: &str,
    page: usize,
    per_page: usize,
) -> (r: AvailableVersionsResponse)
    requires
        page >= 1,
        page * per_page <= usize::MAX,
    ensures
        r.total == listed_releases(releases@, local@.map_values(|x: String| x@), is_arm, mirror@).len(),
        r.page == page,
        r.per_page == per_page,
        r.has_more == ((page - 1) * per_page + per_page < r.total),
        versions_view(r.versions@) == (if (page - 1) * per_page < r.total {
            listed_releases(releases@, local@.map_values(|x: String| x@), is_arm, mirror@).subrange(
                (page - 1) * per_page,
                if (page - 1) * per_page + per_page < r.total {
                    (page - 1) * per_page + per_page
                } else {
                    r.total as int
                },
            )
        } else {
            Seq::empty()
        }),
{
    let ghost lv = local@.map_values(|x: String| x@);
    let mut all: Vec<VersionInfo> = Vec::new();
    let mut i: usize = 0;
    while i < releases.len()
        invariant
            i <= releases@.len(),
            lv == local@.map_values(|x: String| x@),
            versions_view(all@) == listed_releases(releases@.take(i as int), lv, is_arm, mirror@),
        decreases releases@.len() - i,
    {
        let rel = &releases[i];
        assert(releases@.take(i + 1).drop_last() =~= releases@.take(i as int));
        assert(releases@.take(i + 1).last() == *rel);
        let picked = pick_best_asset(&rel.assets, is_arm);
        proof {
            lemma_pick_is_best(names_of(rel.assets@), is_arm, picked);
        }
        match picked {
            Some(k) => {
                let downloaded = contains_string(local, rel.tag_name.as_str());
                let name = match &rel.name {
                    Some(n) => Some(n.clone()),
                    None => None,
                };
                let e = release_entry(
                    rel.tag_name.as_str(),
                    name,
                    rel.published_at.clone(),
                    &rel.assets[k],
                    mirror,
                    downloaded,
                );
                let ghost before = versions_view(all@);
                all.push(e);
                assert(versions_view(all@) =~= before.push(listed_release(*rel, k as int, lv, mirror@)));
            },
            None => {},
        }
        i = i + 1;
    }
    assert(releases@.take(releases@.len() as int) =~= releases@);
    let total = all.len();
    let w = page_window(total, page, per_page);
    let mut versions: Vec<VersionInfo> = Vec::new();
    let mut j = w.start;
    while j < w.end
        invariant
            w.start <= j <= w.end <= total,
            total == all@.len(),
            versions_view(versions@) == versions_view(all@).subrange(w.start as int, j as int),
        decreases w.end - j,
    {
        let ghost before = versions_view(versions@);
        let src = &all[j];
        let copy = VersionInfo {
            version: src.version.clone(),
            tag_name: src.tag_name.clone(),
            name: src.name.clone(),
            download_url: src.download_url.clone(),
            published_at: src.published_at.clone(),
            size: src.size,
            downloaded: src.downloaded,
        };
        assert(version_view(copy) == version_view(all@[j as int]));
        assert(versions_view(all@)[j as int] == version_view(all@[j as int]));
        versions.push(copy);
        assert(versions_view(versions@) =~= before.push(version_view(all@[j as int])));
        assert(versions_view(all@).subrange(w.start as int, j + 1) =~= versions_view(all@).subrange(
            w.start as int,
            j as int,
        ).push(versions_view(all@)[j as int]));
        j = j + 1;
    }
    proof {
        if (page - 1) * per_page >= total {
            assert(versions_view(versions@) =~= Seq::<VersionView>::empty());
        }
    }
    AvailableVersionsResponse { versions, total, page, per_page, has_more: w.has_more }
}

/// Installed versions in listing order: by version name, the greatest
/// first.
pub open spec fn local_sorted(s: Seq<LocalVersion>) -> bool {
    forall|i: int, j: int| 0 <= i < j < s.len() ==> name_le(#[trigger] s[j].version@, #[trigger] s[i].version@)
}

/// The installed versions listed newest name first: the same entries,
/// ordered by version name descending.
pub fn sort_local_versions(versions: Vec<LocalVersion>) -> (r: Vec<LocalVersion>)
    ensures
        r@.to_multiset() == versions@.to_multiset(),
        local_sorted(r@),
{
    broadcast use vstd::seq_lib::group_to_multiset_ensures;
    broadcast use vstd::multiset::group_multiset_axioms;

    let ghost orig = versions@;
    let mut rest = versions;
    let mut out: Vec<LocalVersion> = Vec::new();
    while rest.len() > 0
        invariant
            out@.to_multiset().add(rest@.to_multiset()) == orig.to_multiset(),
            local_sorted(out@),
        decreases rest@.len(),
    {
        let ghost rest_before = rest@;
        let x = rest.remove(0);
        proof {
            vstd::seq_lib::to_multiset_remove(rest_before, 0);
            vstd::seq_lib::to_multiset_contains(rest_before, x);
            assert(rest_before[0] == x);
            assert(rest_before.contains(x));
        }
        let mut k: usize = 0;
        while k < out.len() && !name_le_exec(out[k].version.as_str(), x.version.as_str())
            invariant
                k <= out@.len(),
                forall|m: int| 0 <= m < k ==> !name_le(#[trigger] out@[m].version@, x.version@),
            decreases out@.len() - k,
        {
            k = k + 1;
        }
        let ghost before = out@;
        out.insert(k, x);
        proof {
            assert(out@ == before.insert(k as int, x));
            assert forall|a: int, b: int| 0 <= a < b < out@.len() implies name_le(
                #[trigger] out@[b].version@,
                #[trigger] out@[a].version@,
            ) by {
                if b < k {
                    assert(out@[a] == before[a] && out@[b] == before[b]);
                } else if b == k {
                    assert(out@[a] == before[a]);
                    lemma_name_le_total(before[a].version@, x.version@);
                } else if a == k {
                    assert(out@[b] == before[b - 1]);
                    if b - 1 > k {
                        lemma_name_le_trans(before[b - 1].version@, before[k as int].version@, x.version@);
                    }
                } else if a < k {
                    assert(out@[a] == before[a] && out@[b] == before[b - 1]);
                } else {
                    assert(out@[a] == before[a - 1] && out@[b] == before[b - 1]);
                }
            }
            vstd::seq_lib::to_multiset_insert(before, k as int, x);
            assert(out@.to_multiset() == before.to_multiset().insert(x));
            assert(rest@.to_multiset() == rest_before.to_multiset().remove(x));
            assert(rest_before.to_multiset().count(x) > 0);
            assert(out@.to_multiset().add(rest@.to_multiset()) =~= before.to_multiset().add(rest_before.to_multiset()));
        }
    }
    assert(rest@.to_multiset() =~= vstd::multiset::Multiset::empty());
    assert(out@.to_multiset().add(vstd::multiset::Multiset::empty()) =~= out@.to_multiset());
    out
}

// ───────────────────────── laws ─────────────────────────

/// On an x64 machine, a Linux archive whose (ASCII) name says nothing of
/// ARM (neither `arm` nor `aarch64`, in any case) is a build for this
/// platform: Linux archives that name no architecture are x64 builds.
pub proof fn law_plain_linux_archive_is_x64_build(name: Seq<char>)
    requires
        is_ascii_text(name),
        is_archive_name(name),
        contains(ascii_lower_seq(name), "linux"@),
        !contains(ascii_lower_seq(name), "arm"@),
        !contains(ascii_lower_seq(name), "aarch64"@),
    ensures
        asset_fits(name, 0, false),
{
    lemma_lowercase_ascii_idempotent(name);
}

/// On an x64 machine, when a release has a Linux archive that says nothing
/// of ARM, the asset picked is a platform build (the first one), never a
/// mere Linux or other archive.
pub proof fn law_pick_prefers_plain_linux_on_x64(names: Seq<Seq<char>>, i: int)
    requires
        0 <= i < names.len(),
        is_ascii_text(names[i]),
        is_archive_name(names[i]),
        contains(ascii_lower_seq(names[i]), "linux"@),
        !contains(ascii_lower_seq(names[i]), "arm"@),
        !contains(ascii_lower_seq(names[i]), "aarch64"@),
    ensures
        has_fit(names, 0, false),
{
    law_plain_linux_archive_is_x64_build(names[i]);
}

} // verus!
