//! Scheduled backups: remote copies (NAS or Tencent COS), COS request
//! signing, backup file names and the pruning rules.
use chrono::{Datelike, TimeZone};
use hmac::Mac;
use sha1::Digest;
use vstd::prelude::*;

use crate::config::{BackupConfig, OssBackupConfig};
use crate::models::{status_from_name, ServerStatus};
use crate::paths::{join, path_join};
use crate::saves::{is_save_name, is_world_backup_name};
use crate::names::{lemma_sort_names, name_le, sort_by_name, sort_names, strings_view};
use crate::text::{
    append, ascii_lower_seq, ascii_lowercase, chars_of, concat2, concat3, decimal, ends_with,
    owned, push_char, signed_decimal, starts_with, str_eq, str_ends_with, str_starts_with,
    str_trim_end_matches, str_trim_start_matches, string_of, trim, trim_end_matches,
    trim_start_matches, trimmed, i64_text,
};

verus! {

// ───────────────────────── remote copies ─────────────────────────

/// Where a backup is copied.
#[derive(Debug, Clone, PartialEq, Eq)]
pub enum SyncProvider {
    Nas,
    TencentCos,
    Unsupported(String),
}

/// A remote copy to make.
#[derive(Debug)]
pub struct SyncJob {
    pub provider: SyncProvider,
    pub object_key: String,
    pub file_path: String,
}

/// The remote object name: `<prefix without surrounding />/<name>`, or the
/// name alone without a prefix.
pub open spec fn object_key_of(prefix: Seq<char>, name: Seq<char>) -> Seq<char> {
    if prefix.len() == 0 {
        name
    } else {
        trim_start_matches(trim_end_matches(prefix, "/"@), "/"@) + "/"@ + name
    }
}


/// The remote copy of a backup file, when remote copies are enabled: the
/// object key and the provider (`nas`/`local` or `tencent_cos`/`cos`).
pub fn sync_backup_to_oss(config: &OssBackupConfig, file_path: &str, object_name: &str) -> (r: Option<SyncJob>)
    ensures
        !config.enabled <==> r is None,
        r matches Some(j) ==> j.object_key@ == object_key_of(config.prefix@, object_name@),
        r matches Some(j) ==> j.file_path@ == file_path@,
        r matches Some(j) ==> (j.provider is Nas <==> (config.provider@ == "nas"@ || config.provider@ == "local"@)),
        r matches Some(j) ==> (j.provider is TencentCos <==> (config.provider@ == "tencent_cos"@ || config.provider@ == "cos"@)),
        r matches Some(j) ==> (j.provider matches SyncProvider::Unsupported(n) ==> n@ == config.provider@),
{
    if !config.enabled {
        return None;
    }
    let object_key = if config.prefix.unicode_len() == 0 {
        owned(object_name)
    } else {
        let a = str_trim_end_matches(config.prefix.as_str(), "/");
        let b = str_trim_start_matches(a.as_str(), "/");
        concat3(b.as_str(), "/", object_name)
    };
    let p = config.provider.as_str();
    proof {
        reveal_strlit("nas");
        reveal_strlit("local");
        reveal_strlit("tencent_cos");
        reveal_strlit("cos");
        assert("nas"@[0] != "cos"@[0]);
        assert("cos"@.len() != "local"@.len());
        assert("tencent_cos"@.len() != "local"@.len());
        assert("tencent_cos"@.len() != "nas"@.len());
    }
    let provider = if str_eq(p, "nas") || str_eq(p, "local") {
        SyncProvider::Nas
    } else if str_eq(p, "tencent_cos") || str_eq(p, "cos") {
        SyncProvider::TencentCos
    } else {
        SyncProvider::Unsupported(owned(p))
    };
    Some(SyncJob { provider, object_key, file_path: owned(file_path) })
}

/// The error of an unknown provider.
pub fn unsupported_provider_message(provider: &str) -> (r: String)
    ensures
        r@ == "Unsupported backup provider: "@ + provider@,
{
    concat2("Unsupported backup provider: ", provider)
}

/// Where a NAS copy goes: `<local_path>/<object_key>`; refused without a
/// local path.
pub fn nas_destination(config: &OssBackupConfig, object_key: &str) -> (r: Result<String, String>)
    ensures
        trim(config.local_path@).len() == 0 <==> r is Err,
        r matches Err(m) ==> m@ == "backup.oss.local_path is required for provider=nas"@,
        r matches Ok(d) ==> d@ == path_join(config.local_path@, object_key@),
{
    let t = trimmed(config.local_path.as_str());
    if t.unicode_len() == 0 {
        return Err(owned("backup.oss.local_path is required for provider=nas"));
    }
    Ok(join(config.local_path.as_str(), object_key))
}

/// The settings a COS upload needs: a bucket, a region or an endpoint, and
/// both keys.
pub fn check_cos_settings(config: &OssBackupConfig) -> (r: Result<(), String>)
    ensures
        r is Ok <==> trim(config.bucket@).len() > 0 && (trim(config.region@).len() > 0 || trim(
            config.endpoint@,
        ).len() > 0) && trim(config.access_key_id@).len() > 0 && trim(config.access_key_secret@).len() > 0,
        trim(config.bucket@).len() == 0 ==> (r matches Err(m) && m@ == "backup.oss.bucket is required for provider=tencent_cos"@),
{
    if trimmed(config.bucket.as_str()).unicode_len() == 0 {
        return Err(owned("backup.oss.bucket is required for provider=tencent_cos"));
    }
    if trimmed(config.region.as_str()).unicode_len() == 0 && trimmed(config.endpoint.as_str()).unicode_len() == 0 {
        return Err(owned("backup.oss.region or backup.oss.endpoint is required for provider=tencent_cos"));
    }
    if trimmed(config.access_key_id.as_str()).unicode_len() == 0 || trimmed(config.access_key_secret.as_str()).unicode_len() == 0 {
        return Err(owned("backup.oss.access_key_id/access_key_secret are required for provider=tencent_cos"));
    }
    Ok(())
}

/// The COS endpoint: the default one of the bucket and region, or the
/// configured endpoint (with `https://` added when it has no scheme), without
/// trailing `/`s.
pub open spec fn cos_endpoint(config: OssBackupConfig) -> Seq<char> {
    if trim(config.endpoint@).len() == 0 {
        "https://"@ + trim(config.bucket@) + ".cos."@ + trim(config.region@) + ".myqcloud.com"@
    } else if starts_with(config.endpoint@, "http://"@) || starts_with(config.endpoint@, "https://"@) {
        trim_end_matches(trim(config.endpoint@), "/"@)
    } else {
        "https://"@ + trim_end_matches(trim(config.endpoint@), "/"@)
    }
}

pub fn tencent_cos_endpoint(config: &OssBackupConfig) -> (r: String)
    ensures
        r@ == cos_endpoint(*config),
{
    let e = trimmed(config.endpoint.as_str());
    if e.unicode_len() == 0 {
        let b = trimmed(config.bucket.as_str());
        let g = trimmed(config.region.as_str());
        let mut r = concat3("https://", b.as_str(), ".cos.");
        append(&mut r, g.as_str());
        append(&mut r, ".myqcloud.com");
        r
    } else if str_starts_with(config.endpoint.as_str(), "http://") || str_starts_with(config.endpoint.as_str(), "https://") {
        str_trim_end_matches(e.as_str(), "/")
    } else {
        let t = str_trim_end_matches(e.as_str(), "/");
        concat2("https://", t.as_str())
    }
}

/// What the request to a COS endpoint takes from its URL.
#[derive(Debug, Clone)]
pub struct UrlParts {
    pub scheme: String,
    pub host: Option<String>,
    pub port: Option<u16>,
}

/// URL parts as plain data.
pub struct UrlPartsView {
    pub scheme: Seq<char>,
    pub host: Option<Seq<char>>,
    pub port: Option<u16>,
}

pub open spec fn parts_view(p: UrlParts) -> UrlPartsView {
    UrlPartsView {
        scheme: p.scheme@,
        host: match p.host {
            Some(h) => Some(h@),
            None => None,
        },
        port: p.port,
    }
}

/// The scheme, host and explicit port (none for the scheme's default) that
/// `url::Url::parse` finds in a text; none when it does not parse.
pub uninterp spec fn url_parts_of(text: Seq<char>) -> Option<UrlPartsView>;

/// Calls `reqwest::Url::parse` (the `url` crate) and hands back the URL's
/// scheme, host and port. Trusted: it succeeds exactly when `url_parts_of`
/// finds parts, and gives those parts; the error text is not stated.
#[verifier::external_body]
fn parse_url_parts(text: &str) -> (r: Result<UrlParts, String>)
    ensures
        r is Ok <==> url_parts_of(text@) is Some,
        r matches Ok(p) ==> url_parts_of(text@) == Some(parts_view(p)),
{
    let u = reqwest::Url::parse(text).map_err(|e| e.to_string())?;
    Ok(UrlParts { scheme: u.scheme().to_string(), host: u.host_str().map(String::from), port: u.port() })
}

/// The parts of the COS endpoint URL (see `cos_endpoint`); an endpoint that
/// does not parse is refused with `Parse COS endpoint: ` and the reason.
pub fn tencent_cos_base_url(config: &OssBackupConfig) -> (r: Result<UrlParts, String>)
    ensures
        r is Ok <==> url_parts_of(cos_endpoint(*config)) is Some,
        r matches Ok(p) ==> url_parts_of(cos_endpoint(*config)) == Some(parts_view(p)),
        r matches Err(m) ==> starts_with(m@, "Parse COS endpoint: "@),
{
    let endpoint = tencent_cos_endpoint(config);
    match parse_url_parts(endpoint.as_str()) {
        Ok(p) => Ok(p),
        Err(e) => {
            let m = concat2("Parse COS endpoint: ", e.as_str());
            proof {
                assert(m@.subrange(0, "Parse COS endpoint: "@.len() as int) =~= "Parse COS endpoint: "@);
            }
            Err(m)
        },
    }
}

/// The upload URL of an object on COS and the host it is signed for:
/// `<scheme>://<host>[:<port>]<encoded key>`.
pub open spec fn cos_request_url(parts: UrlPartsView, host: Seq<char>, encoded_key: Seq<char>) -> Seq<char> {
    parts.scheme + "://"@ + host + match parts.port {
        Some(p) => ":"@ + decimal(p as nat),
        None => Seq::empty(),
    } + encoded_key
}

/// The URL to upload an object to, and the host to sign; refused when the
/// endpoint has no host.
pub fn cos_request_target(parts: &UrlParts, encoded_key: &str) -> (r: Result<(String, String), String>)
    ensures
        r is Ok <==> parts.host is Some,
        r matches Err(m) ==> m@ == "COS endpoint host is invalid"@,
        r matches Ok((url, host)) ==> (parts.host matches Some(h) && host@ == h@ && url@ == cos_request_url(
            parts_view(*parts),
            h@,
            encoded_key@,
        )),
{
    match &parts.host {
        None => Err(owned("COS endpoint host is invalid")),
        Some(h) => {
            let mut url = concat3(parts.scheme.as_str(), "://", h.as_str());
            match parts.port {
                Some(p) => {
                    append(&mut url, ":");
                    crate::text::push_decimal(&mut url, p as u64);
                },
                None => {},
            }
            append(&mut url, encoded_key);
            Ok((url, h.clone()))
        },
    }
}

// ───────────────────────── percent-encoding ─────────────────────────

/// The bytes that object keys percent-encode: controls, space, `"`, `#`,
/// `%`, `<`, `>`, `?`, `` ` ``, `{`, `}`, and every non-ASCII byte.
pub open spec fn encoded_byte(b: u8) -> bool {
    b >= 0x80 || b < 0x20 || b == 0x7F || b == 0x20 || b == 0x22 || b == 0x23 || b == 0x25
        || b == 0x3C || b == 0x3E || b == 0x3F || b == 0x60 || b == 0x7B || b == 0x7D
}

pub open spec fn hex_upper(d: nat) -> char {
    if d < 10 {
        ((d + 48) as u32) as char
    } else {
        ((d + 55) as u32) as char
    }
}

/// `%XX` with upper-case hex digits.
pub open spec fn percent_byte(b: u8) -> Seq<char> {
    seq!['%', hex_upper((b / 16) as nat), hex_upper((b % 16) as nat)]
}

pub open spec fn percent_encoded(bytes: Seq<u8>) -> Seq<char>
    decreases bytes.len(),
{
    if bytes.len() == 0 {
        Seq::empty()
    } else {
        percent_encoded(bytes.drop_last()) + if encoded_byte(bytes.last()) {
            percent_byte(bytes.last())
        } else {
            seq![bytes.last() as char]
        }
    }
}

/// `percent_encoding::percent_encode_byte`: the `%XX` form of a byte, with
/// upper-case hex digits.
#[verifier::external_body]
fn percent_encode_byte(b: u8) -> (r: &'static str)
    ensures
        r@ == percent_byte(b),
{
    percent_encoding::percent_encode_byte(b)
}

/// A COS object path: `/` and the key without leading `/`s, percent-encoded
/// byte by byte (`/` is never encoded, so this is the same as encoding each
/// `/`-separated part).
pub open spec fn cos_object_path(key: Seq<char>) -> Seq<char> {
    let n = trim_start_matches(key, "/"@);
    if n.len() == 0 {
        "/"@
    } else {
        "/"@ + percent_encoded(crate::text::utf8_bytes(n))
    }
}

pub fn encode_cos_object_key(object_key: &str) -> (r: String)
    ensures
        r@ == cos_object_path(object_key@),
{
    let n = str_trim_start_matches(object_key, "/");
    if n.unicode_len() == 0 {
        return owned("/");
    }
    let bytes = n.as_str().as_bytes();
    let mut out = owned("/");
    let mut i: usize = 0;
    let ghost bs = bytes@;
    assert(bs.take(0) =~= Seq::<u8>::empty());
    while i < bytes.len()
        invariant
            i <= bytes@.len(),
            bs == bytes@,
            out@ == "/"@ + percent_encoded(bs.take(i as int)),
        decreases bytes@.len() - i,
    {
        let b = bytes[i];
        let ghost before = out@;
        if b >= 0x80 || b < 0x20 || b == 0x7F || b == 0x20 || b == 0x22 || b == 0x23 || b == 0x25
            || b == 0x3C || b == 0x3E || b == 0x3F || b == 0x60 || b == 0x7B || b == 0x7D {
            let e = percent_encode_byte(b);
            append(&mut out, e);
        } else {
            push_char(&mut out, (b as u8) as char);
        }
        assert(bs.take(i + 1).drop_last() =~= bs.take(i as int));
        i = i + 1;
        assert(out@ =~= "/"@ + percent_encoded(bs.take(i as int)));
    }
    assert(bs.take(bytes@.len() as int) =~= bs);
    out
}

// ───────────────────────── hashing ─────────────────────────

/// The SHA-1 digest of some bytes (named, not spelled out).
pub uninterp spec fn sha1_digest(data: Seq<u8>) -> Seq<u8>;

/// The HMAC-SHA1 tag of `data` under `key` (named, not spelled out).
pub uninterp spec fn hmac_sha1_tag(key: Seq<u8>, data: Seq<u8>) -> Seq<u8>;

/// `sha1::Sha1::digest`: the 20-byte SHA-1 digest of `data`.
#[verifier::external_body]
fn sha1_bytes(data: &[u8]) -> (r: Vec<u8>)
    ensures
        r@ == sha1_digest(data@),
        r@.len() == 20,
{
    sha1::Sha1::digest(data).to_vec()
}

/// `Hmac::<Sha1>::new_from_slice`, `update`, `finalize`: the 20-byte tag.
/// HMAC accepts keys of every length, so the key is never refused.
#[verifier::external_body]
fn hmac_sha1_raw(key: &[u8], data: &[u8]) -> (r: Result<Vec<u8>, String>)
    ensures
        r is Ok,
        r matches Ok(t) ==> (t@ == hmac_sha1_tag(key@, data@) && t@.len() == 20),
{
    match hmac::Hmac::<sha1::Sha1>::new_from_slice(key) {
        Ok(mut mac) => {
            mac.update(data);
            Ok(mac.finalize().into_bytes().to_vec())
        },
        Err(e) => Err(format!("Create HMAC-SHA1 key: {}", e)),
    }
}

pub open spec fn hex_lower(d: nat) -> char {
    if d < 10 {
        ((d + 48) as u32) as char
    } else {
        ((d + 87) as u32) as char
    }
}

/// Lower-case hex, two digits per byte.
pub open spec fn hex_text(bytes: Seq<u8>) -> Seq<char>
    decreases bytes.len(),
{
    if bytes.len() == 0 {
        Seq::empty()
    } else {
        hex_text(bytes.drop_last()) + seq![hex_lower((bytes.last() / 16) as nat), hex_lower((bytes.last() % 16) as nat)]
    }
}

fn hex_digit(d: u8) -> (c: char)
    requires
        d < 16,
    ensures
        c == hex_lower(d as nat),
{
    if d < 10 {
        ((d + 48) as u8) as char
    } else {
        ((d + 87) as u8) as char
    }
}

pub fn to_hex(bytes: &[u8]) -> (r: String)
    ensures
        r@ == hex_text(bytes@),
{
    let mut out = String::new();
    let mut i: usize = 0;
    assert(bytes@.take(0) =~= Seq::<u8>::empty());
    while i < bytes.len()
        invariant
            i <= bytes@.len(),
            out@ == hex_text(bytes@.take(i as int)),
        decreases bytes@.len() - i,
    {
        let b = bytes[i];
        push_char(&mut out, hex_digit(b / 16));
        push_char(&mut out, hex_digit(b % 16));
        assert(bytes@.take(i + 1).drop_last() =~= bytes@.take(i as int));
        i = i + 1;
        assert(out@ =~= hex_text(bytes@.take(i as int)));
    }
    assert(bytes@.take(bytes@.len() as int) =~= bytes@);
    out
}

pub fn sha1_hex(data: &[u8]) -> (r: String)
    ensures
        r@ == hex_text(sha1_digest(data@)),
{
    let d = sha1_bytes(data);
    to_hex(d.as_slice())
}

pub fn hmac_sha1(key: &[u8], data: &[u8]) -> (r: Result<Vec<u8>, String>)
    ensures
        r matches Ok(t) && t@ == hmac_sha1_tag(key@, data@),
{
    hmac_sha1_raw(key, data)
}

pub fn hmac_sha1_hex(key: &[u8], data: &[u8]) -> (r: Result<String, String>)
    ensures
        r matches Ok(t) && t@ == hex_text(hmac_sha1_tag(key@, data@)),
{
    match hmac_sha1(key, data) {
        Ok(b) => Ok(to_hex(b.as_slice())),
        Err(e) => Err(e),
    }
}

/// The `Authorization` header of a COS request signed at `start` and valid
/// for an hour, following COS's signature version with `sha1`: the key time
/// `start;start+3600` is signed with the secret, and that key signs the
/// digest of the canonical request (method, path, `host`).
pub open spec fn cos_authorization(
    access_key_id: Seq<char>,
    secret: Seq<char>,
    method: Seq<char>,
    host: Seq<char>,
    path: Seq<char>,
    start: int,
) -> Seq<char> {
    let key_time = signed_decimal(start) + ";"@ + signed_decimal(start + 3600);
    let http_string = ascii_lower_seq(method) + "\n"@ + path + "\n\nhost="@ + ascii_lower_seq(host) + "\n"@;
    let string_to_sign = "sha1\n"@ + key_time + "\n"@ + hex_text(sha1_digest(crate::text::utf8_bytes(http_string))) + "\n"@;
    let sign_key = hmac_sha1_tag(crate::text::utf8_bytes(secret), crate::text::utf8_bytes(key_time));
    let signature = hex_text(hmac_sha1_tag(sign_key, crate::text::utf8_bytes(string_to_sign)));
    "q-sign-algorithm=sha1&q-ak="@ + trim(access_key_id) + "&q-sign-time="@ + key_time + "&q-key-time="@ + key_time
        + "&q-header-list=host&q-url-param-list=&q-signature="@ + signature
}

pub fn tencent_cos_authorization(
    config: &OssBackupConfig,
    method: &str,
    host: &str,
    encoded_path: &str,
    start: i64,
) -> (r: Result<String, String>)
    requires
        start <= i64::MAX - 3600,
    ensures
        r matches Ok(a) && a@ == cos_authorization(
            config.access_key_id@,
            config.access_key_secret@,
            method@,
            host@,
            encoded_path@,
            start as int,
        ),
{
    let end = start + 3600;
    let mut key_time = i64_text(start);
    append(&mut key_time, ";");
    let e = i64_text(end);
    append(&mut key_time, e.as_str());
    let ml = string_of(&ascii_lowercase(&chars_of(method)));
    let hl = string_of(&ascii_lowercase(&chars_of(host)));
    let mut http_string = concat3(ml.as_str(), "\n", encoded_path);
    append(&mut http_string, "\n\nhost=");
    append(&mut http_string, hl.as_str());
    append(&mut http_string, "\n");
    let digest = sha1_hex(http_string.as_str().as_bytes());
    let mut string_to_sign = concat3("sha1\n", key_time.as_str(), "\n");
    append(&mut string_to_sign, digest.as_str());
    append(&mut string_to_sign, "\n");
    let sign_key = match hmac_sha1(config.access_key_secret.as_str().as_bytes(), key_time.as_str().as_bytes()) {
        Ok(k) => k,
        Err(e) => {
            return Err(e);
        },
    };
    let signature = match hmac_sha1_hex(sign_key.as_slice(), string_to_sign.as_str().as_bytes()) {
        Ok(s) => s,
        Err(e) => {
            return Err(e);
        },
    };
    let id = trimmed(config.access_key_id.as_str());
    let mut r = concat2("q-sign-algorithm=sha1&q-ak=", id.as_str());
    append(&mut r, "&q-sign-time=");
    append(&mut r, key_time.as_str());
    append(&mut r, "&q-key-time=");
    append(&mut r, key_time.as_str());
    append(&mut r, "&q-header-list=host&q-url-param-list=&q-signature=");
    append(&mut r, signature.as_str());
    Ok(r)
}

// ───────────────────────── schedule ─────────────────────────

/// Seconds between two backup cycles.
pub fn backup_interval_secs(interval_minutes: u64) -> (r: u64)
    requires
        interval_minutes * 60 <= u64::MAX,
    ensures
        r == interval_minutes * 60,
{
    interval_minutes * 60
}

/// The hour of day at which the daily archive runs: the configured hour,
/// at most 23.
pub fn archive_hour(hour: u8) -> (r: u32)
    ensures
        r == (if hour > 23 { 23 } else { hour as int }),
{
    if hour > 23 {
        23
    } else {
        hour as u32
    }
}

/// The wait before the next daily archive, in milliseconds: the archive
/// hour of today when it is still ahead of `now`, else the archive hour of
/// tomorrow; a minute where that moment is not ahead either. The three
/// instants are milliseconds since the Unix epoch.
pub open spec fn archive_wait_ms(now: int, today_at: int, tomorrow_at: int) -> int {
    let next = if today_at <= now { tomorrow_at } else { today_at };
    if next - now < 0 { 60_000 } else { next - now }
}

/// How long the daily archive task sleeps, given the current instant and the
/// instants of the archive hour today and tomorrow (which depend on the
/// machine's time zone and are looked up by the caller).
pub fn next_archive_wait_ms(now_ms: i64, today_at_ms: i64, tomorrow_at_ms: i64) -> (r: u64)
    ensures
        r == archive_wait_ms(now_ms as int, today_at_ms as int, tomorrow_at_ms as int),
{
    let next: i64 = if today_at_ms <= now_ms { tomorrow_at_ms } else { today_at_ms };
    let diff: i128 = next as i128 - now_ms as i128;
    if diff < 0 {
        60_000
    } else {
        diff as u64
    }
}

/// Whether a cycle removes the backups older than the retention period.
pub fn prunes_by_age(config: &BackupConfig) -> (r: bool)
    ensures
        r == (config.local_retention_days > 0),
{
    config.local_retention_days > 0
}

/// Whether a cycle trims each server to its newest backups; never while the
/// daily archive collects them.
pub fn prunes_by_count(config: &BackupConfig) -> (r: bool)
    ensures
        r == (config.max_backups_per_server > 0 && !config.archive_daily_enabled),
{
    config.max_backups_per_server > 0 && !config.archive_daily_enabled
}

/// The instant (in seconds) before which a backup has expired: `days` days
/// before `now`.
pub fn retention_cutoff(now: i64, days: u64) -> (r: i64)
    requires
        days <= 106_751_991_167,
        now - days * 86400 >= i64::MIN,
    ensures
        r == now - days * 86400,
{
    now - (days as i64) * 86400
}

/// How many of a server's backups go when it has `count` and keeps `max`.
pub fn excess_backups(count: usize, max: usize) -> (r: usize)
    ensures
        r == (if count <= max { 0 } else { count - max }),
{
    if count <= max {
        0
    } else {
        count - max
    }
}

// ───────────────────────── backup targets ─────────────────────────

/// A server as the backup cycle reads it: its id, name, world (when one is
/// set) and stored status.
#[derive(Debug, Clone)]
pub struct ServerRow {
    pub id: String,
    pub name: String,
    pub world_name: Option<String>,
    pub status: String,
}

/// A server the backup cycle backs up: its id, name and world.
#[derive(Debug, Clone)]
pub struct BackupTarget {
    pub server_id: String,
    pub server_name: String,
    pub world_name: String,
}

/// A server is backed up when it is running and has a world set.
pub open spec fn is_backup_target(row: ServerRow) -> bool {
    &&& row.world_name matches Some(w) && w@ != ""@
    &&& status_from_name(row.status@) == ServerStatus::Running
}

/// The `(id, name, world)` of the servers a cycle backs up, in order.
pub open spec fn backup_targets_of(rows: Seq<ServerRow>) -> Seq<(Seq<char>, Seq<char>, Seq<char>)>
    decreases rows.len(),
{
    if rows.len() == 0 {
        Seq::empty()
    } else {
        let prev = backup_targets_of(rows.drop_last());
        let last = rows.last();
        if is_backup_target(last) {
            prev.push((last.id@, last.name@, last.world_name->0@))
        } else {
            prev
        }
    }
}

pub open spec fn targets_view(v: Seq<BackupTarget>) -> Seq<(Seq<char>, Seq<char>, Seq<char>)> {
    v.map_values(|t: BackupTarget| (t.server_id@, t.server_name@, t.world_name@))
}

/// The servers a backup cycle backs up: every running server with a world
/// set, in the order given.
pub fn backup_targets(rows: &Vec<ServerRow>) -> (r: Vec<BackupTarget>)
    ensures
        targets_view(r@) == backup_targets_of(rows@),
{
    let mut out: Vec<BackupTarget> = Vec::new();
    let mut i: usize = 0;
    while i < rows.len()
        invariant
            i <= rows@.len(),
            targets_view(out@) == backup_targets_of(rows@.take(i as int)),
        decreases rows@.len() - i,
    {
        let row = &rows[i];
        assert(rows@.take(i + 1).drop_last() =~= rows@.take(i as int));
        assert(rows@.take(i + 1).last() == rows@[i as int]);
        let ghost before = targets_view(out@);
        let running = match ServerStatus::from_str(row.status.as_str()) {
            ServerStatus::Running => true,
            _ => false,
        };
        match &row.world_name {
            Some(w) => {
                if running && !str_eq(w.as_str(), "") {
                    out.push(
                        BackupTarget {
                            server_id: owned(row.id.as_str()),
                            server_name: owned(row.name.as_str()),
                            world_name: owned(w.as_str()),
                        },
                    );
                    assert(targets_view(out@) =~= before.push((row.id@, row.name@, w@)));
                }
            },
            None => {},
        }
        i = i + 1;
    }
    assert(rows@.take(rows@.len() as int) =~= rows@);
    out
}

// ───────────────────────── recorded times ─────────────────────────

/// The Unix seconds chrono's `DateTime::parse_from_rfc3339` reads from a
/// text; none when it does not parse.
pub uninterp spec fn rfc3339_secs(raw: Seq<char>) -> Option<i64>;

/// The seconds of the wall-clock time chrono's `NaiveDateTime::parse_from_str`
/// reads from a text with `format`, that time taken as UTC; none when it
/// does not parse.
pub uninterp spec fn naive_datetime_secs(raw: Seq<char>, format: Seq<char>) -> Option<i64>;

/// Calls `chrono::DateTime::parse_from_rfc3339`. Trusted: the result is
/// `rfc3339_secs` of the text.
#[verifier::external_body]
fn parse_rfc3339_secs(raw: &str) -> (r: Option<i64>)
    ensures
        r == rfc3339_secs(raw@),
{
    chrono::DateTime::parse_from_rfc3339(raw).ok().map(|t| t.timestamp())
}

/// Calls `chrono::NaiveDateTime::parse_from_str`. Trusted: the result is
/// `naive_datetime_secs` of the text and the format.
#[verifier::external_body]
fn parse_naive_secs(raw: &str, format: &str) -> (r: Option<i64>)
    ensures
        r == naive_datetime_secs(raw@, format@),
{
    chrono::NaiveDateTime::parse_from_str(raw, format).ok().map(|t| t.and_utc().timestamp())
}

/// Calls `chrono::Local.from_local_datetime(..).single()` on the wall-clock
/// time `wall` (seconds, read as UTC) and gives its Unix seconds. Nothing is
/// stated of it: the answer depends on the machine's time zone (and is none
/// for a local time that is skipped or repeated).
#[verifier::external_body]
fn local_wall_clock_secs(wall: i64) -> (r: Option<i64>)
{
    let naive = chrono::DateTime::from_timestamp(wall, 0)?.naive_utc();
    chrono::Local.from_local_datetime(&naive).single().map(|t| t.timestamp())
}

/// The number of the day `year-month-day` of the proleptic Gregorian
/// calendar (the calendar chrono's dates are in), counted from 1970-01-01 as
/// day 0.
pub open spec fn days_from_civil(year: int, month: int, day: int) -> int {
    let y = if month <= 2 { year - 1 } else { year };
    let era = y / 400;
    let yoe = y - era * 400;
    let doy = (153 * ((month + 9) % 12) + 2) / 5 + day - 1;
    era * 146097 + yoe * 365 + yoe / 4 - yoe / 100 + doy - 719468
}

/// The Unix seconds whose local date chrono can give for any time zone:
/// those of chrono's dates (the years -262143 to 262142), a day in from
/// either end, so that the local time (at most a day off UTC) is a date too.
pub open spec fn local_date_in_range(secs: int) -> bool {
    -8_334_601_228_800 + 86_400 <= secs <= 8_210_266_876_799 - 86_400
}

/// A local date of the instant `secs`: a date of the calendar whose day is
/// the UTC day of `secs`, the day before or the day after (a time zone is
/// less than a day off UTC).
pub open spec fn is_local_date_of(year: int, month: int, day: int, secs: int) -> bool {
    &&& 1 <= month <= 12
    &&& 1 <= day <= 31
    &&& secs / 86400 - 1 <= days_from_civil(year, month, day) <= secs / 86400 + 1
}

/// Calls `chrono::DateTime::from_timestamp` and `with_timezone(&Local)` and
/// gives the local calendar date (year, month, day) of Unix seconds `secs`.
/// Trusted: inside `local_date_in_range` it gives a date (`from_timestamp`
/// succeeds for the seconds of chrono's dates, and the local time then stays
/// a date), month 1 to 12 and day 1 to 31, within a day of the UTC date (a
/// `FixedOffset` is strictly less than 86400 seconds). Which of the three
/// days it is depends on the machine's time zone and is not stated. Outside
/// that range chrono may panic, so such seconds are not admitted.
#[verifier::external_body]
fn local_date_of(secs: i64) -> (r: Option<(i32, u32, u32)>)
    requires
        local_date_in_range(secs as int),
    ensures
        r is Some,
        r matches Some((y, m, d)) ==> is_local_date_of(y as int, m as int, d as int, secs as int),
{
    let d = chrono::DateTime::from_timestamp(secs, 0)?.with_timezone(&chrono::Local).date_naive();
    Some((d.year(), d.month(), d.day()))
}

/// The format of a locally written creation time: `YYYY-MM-DD HH:MM:SS`.
pub open spec fn local_time_format() -> Seq<char> {
    "%Y-%m-%d %H:%M:%S"@
}

/// The Unix seconds of a recorded creation time: RFC 3339 when it reads as
/// such, else a local `YYYY-MM-DD HH:MM:SS` time in the machine's time zone;
/// none when it is neither.
pub fn parse_save_created_at(raw: &str) -> (r: Option<i64>)
    ensures
        rfc3339_secs(raw@) is Some ==> r == rfc3339_secs(raw@),
        rfc3339_secs(raw@) is None && naive_datetime_secs(raw@, local_time_format()) is None ==> r is None,
{
    match parse_rfc3339_secs(raw) {
        Some(t) => Some(t),
        None => match parse_naive_secs(raw, "%Y-%m-%d %H:%M:%S") {
            Some(wall) => local_wall_clock_secs(wall),
            None => None,
        },
    }
}

/// The key of a date: `year * 10000 + month * 100 + day`, which reads as
/// `YYYYMMDD` for the years 0 to 9999.
pub open spec fn key_of(year: int, month: int, day: int) -> int {
    year * 10000 + month * 100 + day
}

/// The key of a date (see `key_of`); none when the month or the day is not
/// below 100.
pub fn day_key(year: i32, month: u32, day: u32) -> (r: Option<i64>)
    ensures
        r is Some <==> month < 100 && day < 100,
        r matches Some(k) ==> k == key_of(year as int, month as int, day as int),
{
    if month >= 100 || day >= 100 {
        return None;
    }
    Some(year as i64 * 10000 + month as i64 * 100 + day as i64)
}

/// Dates with month and day below 100 have one key each.
pub proof fn law_day_key_distinct(y1: int, m1: int, d1: int, y2: int, m2: int, d2: int)
    requires
        0 <= m1 < 100,
        0 <= d1 < 100,
        0 <= m2 < 100,
        0 <= d2 < 100,
        key_of(y1, m1, d1) == key_of(y2, m2, d2),
    ensures
        y1 == y2 && m1 == m2 && d1 == d2,
{
    let c1 = m1 * 100 + d1;
    let c2 = m2 * 100 + d2;
    assert(0 <= c1 < 10000 && 0 <= c2 < 10000) by (nonlinear_arith)
        requires
            0 <= m1 < 100,
            0 <= d1 < 100,
            0 <= m2 < 100,
            0 <= d2 < 100,
            c1 == m1 * 100 + d1,
            c2 == m2 * 100 + d2,
    ;
    assert(y1 == y2) by (nonlinear_arith)
        requires
            y1 * 10000 + c1 == y2 * 10000 + c2,
            0 <= c1 < 10000,
            0 <= c2 < 10000,
    ;
    assert(m1 == m2) by (nonlinear_arith)
        requires
            m1 * 100 + d1 == m2 * 100 + d2,
            0 <= d1 < 100,
            0 <= d2 < 100,
    ;
}

/// A key of a date that is a local date of the instant `secs`.
pub open spec fn is_local_day_key(k: int, secs: int) -> bool {
    exists|y: int, m: int, d: int| #[trigger] key_of(y, m, d) == k && is_local_date_of(y, m, d, secs)
}

/// The local day (see `key_of`) a backup was recorded on, when its creation
/// time reads (see `parse_save_created_at`). A time in RFC 3339 always gives
/// a day: the key of one of the local dates of that instant (which one
/// depends on the machine's time zone). A time in the local form gives a day
/// when the machine's time zone has that local time exactly once; it too is
/// a key of a calendar date.
pub fn created_day(raw: &str) -> (r: Option<i64>)
    ensures
        rfc3339_secs(raw@) is None && naive_datetime_secs(raw@, local_time_format()) is None ==> r is None,
        rfc3339_secs(raw@) matches Some(s) && local_date_in_range(s as int) ==> r is Some,
        rfc3339_secs(raw@) matches Some(s) ==> (r matches Some(k) ==> is_local_day_key(k as int, s as int)),
        r matches Some(k) ==> exists|y: int, m: int, d: int|
            #[trigger] key_of(y, m, d) == k && 1 <= m <= 12 && 1 <= d <= 31,
{
    match parse_save_created_at(raw) {
        Some(secs) => {
            if secs < -8_334_601_142_400 || secs > 8_210_266_790_399 {
                return None;
            }
            match local_date_of(secs) {
                Some((y, m, d)) => {
                    let r = day_key(y, m, d);
                    proof {
                        assert(key_of(y as int, m as int, d as int) == r->0);
                    }
                    r
                },
                None => None,
            }
        },
        None => None,
    }
}

// ───────────────────────── expiry ─────────────────────────

/// A recorded backup of a server, with its creation time in seconds when
/// the recorded time could be read.
#[derive(Debug, Clone)]
pub struct SaveRow {
    pub id: String,
    pub file_path: String,
    pub created_at: Option<i64>,
}

pub open spec fn pairs_view(v: Seq<(String, String)>) -> Seq<(Seq<char>, Seq<char>)> {
    v.map_values(|p: (String, String)| (p.0@, p.1@))
}

/// The `(id, file)` of each row created before `cutoff`, in order; a row
/// whose time cannot be read never expires.
pub open spec fn expired_rows(rows: Seq<SaveRow>, cutoff: int) -> Seq<(Seq<char>, Seq<char>)>
    decreases rows.len(),
{
    if rows.len() == 0 {
        Seq::empty()
    } else {
        let prev = expired_rows(rows.drop_last(), cutoff);
        let last = rows.last();
        if last.created_at matches Some(t) && t < cutoff {
            prev.push((last.id@, last.file_path@))
        } else {
            prev
        }
    }
}

/// The backups to delete by age.
pub fn expired_saves(rows: &Vec<SaveRow>, cutoff: i64) -> (r: Vec<(String, String)>)
    ensures
        pairs_view(r@) == expired_rows(rows@, cutoff as int),
{
    let mut out: Vec<(String, String)> = Vec::new();
    let mut i: usize = 0;
    while i < rows.len()
        invariant
            i <= rows@.len(),
            pairs_view(out@) == expired_rows(rows@.take(i as int), cutoff as int),
        decreases rows@.len() - i,
    {
        let row = &rows[i];
        assert(rows@.take(i + 1).drop_last() =~= rows@.take(i as int));
        let ghost before = out@;
        match row.created_at {
            Some(t) => {
                if t < cutoff {
                    out.push((row.id.clone(), row.file_path.clone()));
                    assert(pairs_view(out@) =~= pairs_view(before).push((row.id@, row.file_path@)));
                }
            },
            None => {},
        }
        i = i + 1;
    }
    assert(rows@.take(rows@.len() as int) =~= rows@);
    out
}

// ───────────────────────── daily archive ─────────────────────────

/// A recorded backup that the daily archive may take: `created_day` is the
/// local date it was made on (as `YYYYMMDD`) when it could be read, and
/// `file_exists` whether its file is still there.
#[derive(Debug, Clone)]
pub struct BackupRow {
    pub id: String,
    pub name: String,
    pub file_path: String,
    pub source_server_id: String,
    pub created_day: Option<i64>,
    pub file_exists: bool,
}

/// A backup that goes into an archive.
#[derive(Debug, Clone)]
pub struct ArchiveItem {
    pub id: String,
    pub name: String,
    pub file_path: String,
}

/// The backups of one server that go into one archive.
#[derive(Debug, Clone)]
pub struct ArchiveGroup {
    pub server_id: String,
    pub items: Vec<ArchiveItem>,
}

/// A row goes into the archive of `day`: a world backup whose file exists
/// and that was made that day.
pub open spec fn archived_on(row: BackupRow, day: i64) -> bool {
    &&& is_save_name(row.name@)
    &&& row.file_exists
    &&& row.created_day == Some(day)
}

pub open spec fn item_view(it: ArchiveItem) -> (Seq<char>, Seq<char>, Seq<char>) {
    (it.id@, it.name@, it.file_path@)
}

pub open spec fn items_view(items: Seq<ArchiveItem>) -> Seq<(Seq<char>, Seq<char>, Seq<char>)> {
    items.map_values(|it: ArchiveItem| item_view(it))
}

/// The servers that have backups for the archive, in the order of their
/// first backup.
pub open spec fn archive_servers(rows: Seq<BackupRow>, day: i64) -> Seq<Seq<char>>
    decreases rows.len(),
{
    if rows.len() == 0 {
        Seq::empty()
    } else {
        let prev = archive_servers(rows.drop_last(), day);
        let last = rows.last();
        if archived_on(last, day) && !prev.contains(last.source_server_id@) {
            prev.push(last.source_server_id@)
        } else {
            prev
        }
    }
}

/// The backups of `server` for the archive, in order.
pub open spec fn archive_items(rows: Seq<BackupRow>, day: i64, server: Seq<char>) -> Seq<(Seq<char>, Seq<char>, Seq<char>)>
    decreases rows.len(),
{
    if rows.len() == 0 {
        Seq::empty()
    } else {
        let prev = archive_items(rows.drop_last(), day, server);
        let last = rows.last();
        if archived_on(last, day) && last.source_server_id@ == server {
            prev.push((last.id@, last.name@, last.file_path@))
        } else {
            prev
        }
    }
}

fn servers_for_archive(rows: &Vec<BackupRow>, day: i64) -> (r: Vec<String>)
    ensures
        strings_view(r@) == archive_servers(rows@, day),
{
    let mut out: Vec<String> = Vec::new();
    let mut i: usize = 0;
    while i < rows.len()
        invariant
            i <= rows@.len(),
            strings_view(out@) == archive_servers(rows@.take(i as int), day),
        decreases rows@.len() - i,
    {
        let row = &rows[i];
        assert(rows@.take(i + 1).drop_last() =~= rows@.take(i as int));
        let ghost before = strings_view(out@);
        if is_world_backup_name(row.name.as_str()) && row.file_exists && row.created_day == Some(day) {
            let mut seen = false;
            let mut k: usize = 0;
            while k < out.len()
                invariant
                    k <= out@.len(),
                    before == strings_view(out@),
                    seen <==> exists|m: int| 0 <= m < k && before[m] == row.source_server_id@,
                decreases out@.len() - k,
            {
                assert(before[k as int] == out@[k as int]@);
                if str_eq(out[k].as_str(), row.source_server_id.as_str()) {
                    seen = true;
                }
                k = k + 1;
            }
            assert(seen <==> before.contains(row.source_server_id@));
            if !seen {
                out.push(row.source_server_id.clone());
                assert(strings_view(out@) =~= before.push(row.source_server_id@));
            }
        }
        i = i + 1;
    }
    assert(rows@.take(rows@.len() as int) =~= rows@);
    out
}

fn items_for_archive(rows: &Vec<BackupRow>, day: i64, server: &str) -> (r: Vec<ArchiveItem>)
    ensures
        items_view(r@) == archive_items(rows@, day, server@),
{
    let mut out: Vec<ArchiveItem> = Vec::new();
    let mut i: usize = 0;
    while i < rows.len()
        invariant
            i <= rows@.len(),
            items_view(out@) == archive_items(rows@.take(i as int), day, server@),
        decreases rows@.len() - i,
    {
        let row = &rows[i];
        assert(rows@.take(i + 1).drop_last() =~= rows@.take(i as int));
        let ghost before = items_view(out@);
        if is_world_backup_name(row.name.as_str()) && row.file_exists && row.created_day == Some(day)
            && str_eq(row.source_server_id.as_str(), server) {
            out.push(ArchiveItem { id: row.id.clone(), name: row.name.clone(), file_path: row.file_path.clone() });
            assert(items_view(out@) =~= before.push(
                (row.id@, row.name@, row.file_path@),
            ));
        }
        i = i + 1;
    }
    assert(rows@.take(rows@.len() as int) =~= rows@);
    out
}

/// The archives to write for `day`: one group per server that has world
/// backups of that day whose files still exist, in the order of the
/// servers' first such backup, each with those backups in order.
pub fn archive_groups(rows: &Vec<BackupRow>, day: i64) -> (r: Vec<ArchiveGroup>)
    ensures
        r@.len() == archive_servers(rows@, day).len(),
        forall|k: int| 0 <= k < r@.len() ==> #[trigger] r@[k].server_id@ == archive_servers(rows@, day)[k],
        forall|k: int|
            0 <= k < r@.len() ==> #[trigger] items_view(r@[k].items@)
                == archive_items(rows@, day, archive_servers(rows@, day)[k]),
{
    let servers = servers_for_archive(rows, day);
    let ghost sv = strings_view(servers@);
    let mut out: Vec<ArchiveGroup> = Vec::new();
    let mut k: usize = 0;
    while k < servers.len()
        invariant
            k <= servers@.len(),
            sv == strings_view(servers@),
            sv == archive_servers(rows@, day),
            out@.len() == k,
            forall|m: int| 0 <= m < k ==> #[trigger] out@[m].server_id@ == sv[m],
            forall|m: int|
                0 <= m < k ==> #[trigger] items_view(out@[m].items@)
                    == archive_items(rows@, day, sv[m]),
        decreases servers@.len() - k,
    {
        let items = items_for_archive(rows, day, servers[k].as_str());
        assert(servers@[k as int]@ == sv[k as int]);
        out.push(ArchiveGroup { server_id: servers[k].clone(), items });
        k = k + 1;
    }
    out
}

/// The file name of a server's archive of one day: `<server>_<YYYYMMDD>_world_backups.zip`.
pub fn world_archive_name(server_id: &str, date_key: &str) -> (r: String)
    ensures
        r@ == server_id@ + "_"@ + date_key@ + "_world_backups.zip"@,
{
    let mut r = concat3(server_id, "_", date_key);
    append(&mut r, "_world_backups.zip");
    r
}

/// The remote object name of an archive: `archives/<name>`.
pub fn archive_object_name(archive_name: &str) -> (r: String)
    ensures
        r@ == "archives/"@ + archive_name@,
{
    concat2("archives/", archive_name)
}

// ───────────────────────── SSC database backups ─────────────────────────

/// The file name of an SSC database backup: `<server>_<stamp>_tshock.sqlite`.
pub fn ssc_backup_name(server_id: &str, stamp: &str) -> (r: String)
    ensures
        r@ == server_id@ + "_"@ + stamp@ + "_tshock.sqlite"@,
{
    let mut r = concat3(server_id, "_", stamp);
    append(&mut r, "_tshock.sqlite");
    r
}

/// An SSC database backup of `server_id`.
pub open spec fn is_ssc_backup_of(name: Seq<char>, server_id: Seq<char>) -> bool {
    starts_with(name, server_id + "_"@) && ends_with(name, "_tshock.sqlite"@)
}

/// Whether `name` is an SSC database backup of `server_id`.
pub fn ssc_backup_of(name: &str, server_id: &str) -> (r: bool)
    ensures
        r == is_ssc_backup_of(name@, server_id@),
{
    let prefix = concat2(server_id, "_");
    str_starts_with(name, prefix.as_str()) && str_ends_with(name, "_tshock.sqlite")
}

/// The SSC database backups of `server_id` among `names`, in order.
pub open spec fn ssc_backups(names: Seq<Seq<char>>, server_id: Seq<char>) -> Seq<Seq<char>>
    decreases names.len(),
{
    if names.len() == 0 {
        Seq::empty()
    } else {
        let prev = ssc_backups(names.drop_last(), server_id);
        if is_ssc_backup_of(names.last(), server_id) {
            prev.push(names.last())
        } else {
            prev
        }
    }
}

/// The SSC backups to delete so that the newest `keep` stay: the oldest
/// (first by name, the name holding the time) of them.
pub open spec fn ssc_prune(names: Seq<Seq<char>>, server_id: Seq<char>, keep: nat) -> Seq<Seq<char>> {
    let b = ssc_backups(names, server_id);
    if b.len() <= keep {
        Seq::empty()
    } else {
        sort_names(b).take(b.len() - keep)
    }
}

fn ssc_backups_of(names: &Vec<String>, server_id: &str) -> (r: Vec<String>)
    ensures
        strings_view(r@) == ssc_backups(strings_view(names@), server_id@),
{
    let mut out: Vec<String> = Vec::new();
    let mut i: usize = 0;
    while i < names.len()
        invariant
            i <= names@.len(),
            strings_view(out@) == ssc_backups(strings_view(names@.take(i as int)), server_id@),
        decreases names@.len() - i,
    {
        let ghost before = strings_view(out@);
        assert(strings_view(names@.take(i + 1)).drop_last() =~= strings_view(names@.take(i as int)));
        assert(strings_view(names@.take(i + 1)).last() == names@[i as int]@);
        if ssc_backup_of(names[i].as_str(), server_id) {
            out.push(names[i].clone());
            assert(strings_view(out@) =~= before.push(names@[i as int]@));
        }
        i = i + 1;
    }
    assert(names@.take(names@.len() as int) =~= names@);
    out
}

/// The SSC database backups of `server_id` to delete so that only its
/// newest `keep` remain (none when it has no more than `keep`).
pub fn ssc_backups_to_remove(names: &Vec<String>, server_id: &str, keep: usize) -> (r: Vec<String>)
    ensures
        strings_view(r@) == ssc_prune(strings_view(names@), server_id@, keep as nat),
{
    let backups = ssc_backups_of(names, server_id);
    if backups.len() <= keep {
        return Vec::new();
    }
    let sorted = sort_by_name(&backups);
    proof {
        lemma_sort_names(strings_view(backups@));
    }
    let n = backups.len() - keep;
    let mut out: Vec<String> = Vec::new();
    let mut i: usize = 0;
    while i < n
        invariant
            i <= n,
            n <= sorted@.len(),
            strings_view(out@) == strings_view(sorted@).take(i as int),
        decreases n - i,
    {
        let ghost before = strings_view(out@);
        out.push(sorted[i].clone());
        assert(strings_view(out@) =~= before.push(sorted@[i as int]@));
        assert(strings_view(out@) =~= strings_view(sorted@).take(i + 1));
        i = i + 1;
    }
    out
}

/// Pruning SSC backups leaves exactly the newest `keep` of them: as many are
/// removed as there are beyond `keep`, each removed one sorts before or
/// equal to each one kept, and removed and kept together are all of them.
pub proof fn law_ssc_prune_keeps_newest(names: Seq<Seq<char>>, server_id: Seq<char>, keep: nat)
    ensures
        ({
            let b = ssc_backups(names, server_id);
            let removed = ssc_prune(names, server_id, keep);
            let sorted = sort_names(b);
            let kept = sorted.skip(removed.len() as int);
            &&& removed.len() == (if b.len() <= keep { 0 } else { b.len() - keep })
            &&& (removed + kept).to_multiset() =~= b.to_multiset()
            &&& kept.len() == (if b.len() <= keep { b.len() } else { keep })
            &&& forall|i: int, j: int|
                0 <= i < removed.len() && 0 <= j < kept.len() ==> name_le(#[trigger] removed[i], #[trigger] kept[j])
        }),
{
    let b = ssc_backups(names, server_id);
    lemma_sort_names(b);
    let removed = ssc_prune(names, server_id, keep);
    let sorted = sort_names(b);
    let kept = sorted.skip(removed.len() as int);
    if b.len() <= keep {
        assert(removed + kept =~= sorted);
    } else {
        assert(removed + kept =~= sorted);
        assert forall|i: int, j: int|
            0 <= i < removed.len() && 0 <= j < kept.len() implies name_le(#[trigger] removed[i], #[trigger] kept[j]) by {
            assert(removed[i] == sorted[i]);
            assert(kept[j] == sorted[removed.len() + j]);
        }
    }
}

/// A file in the SSC backup directory, with its modification time in
/// seconds when it could be read.
#[derive(Debug, Clone)]
pub struct SscFile {
    pub name: String,
    pub modified: Option<i64>,
}

/// The SSC backups of `server_id` modified before `cutoff`, in order; a file
/// whose time cannot be read is kept.
pub open spec fn expired_ssc(files: Seq<SscFile>, server_id: Seq<char>, cutoff: int) -> Seq<Seq<char>>
    decreases files.len(),
{
    if files.len() == 0 {
        Seq::empty()
    } else {
        let prev = expired_ssc(files.drop_last(), server_id, cutoff);
        let f = files.last();
        if is_ssc_backup_of(f.name@, server_id) && (f.modified matches Some(t) && t < cutoff) {
            prev.push(f.name@)
        } else {
            prev
        }
    }
}

/// The SSC backups to delete by age.
pub fn expired_ssc_backups(files: &Vec<SscFile>, server_id: &str, cutoff: i64) -> (r: Vec<String>)
    ensures
        strings_view(r@) == expired_ssc(files@, server_id@, cutoff as int),
{
    let mut out: Vec<String> = Vec::new();
    let mut i: usize = 0;
    while i < files.len()
        invariant
            i <= files@.len(),
            strings_view(out@) == expired_ssc(files@.take(i as int), server_id@, cutoff as int),
        decreases files@.len() - i,
    {
        let f = &files[i];
        assert(files@.take(i + 1).drop_last() =~= files@.take(i as int));
        let ghost before = strings_view(out@);
        if ssc_backup_of(f.name.as_str(), server_id) {
            match f.modified {
                Some(t) => {
                    if t < cutoff {
                        out.push(f.name.clone());
                        assert(strings_view(out@) =~= before.push(f.name@));
                    }
                },
                None => {},
            }
        }
        i = i + 1;
    }
    assert(files@.take(files@.len() as int) =~= files@);
    out
}

/// The write-ahead log and shared-memory files that go with an SQLite
/// database file `<path>` ending in `.sqlite`: `<path>-wal` and `<path>-shm`.
pub fn sqlite_companions(path: &str) -> (r: (String, String))
    requires
        ends_with(path@, ".sqlite"@),
    ensures
        r.0@ == path@ + "-wal"@,
        r.1@ == path@ + "-shm"@,
{
    (concat2(path, "-wal"), concat2(path, "-shm"))
}

/// A server's TShock database: `<data_dir>/servers/<id>/tshock/tshock.sqlite`.
pub fn tshock_database_path(data_dir: &str, server_id: &str) -> (r: String)
    ensures
        r@ == path_join(path_join(path_join(path_join(data_dir@, "servers"@), server_id@), "tshock"@), "tshock.sqlite"@),
{
    let a = join(data_dir, "servers");
    let b = join(a.as_str(), server_id);
    let c = join(b.as_str(), "tshock");
    join(c.as_str(), "tshock.sqlite")
}

/// Where SSC database backups go: `<data_dir>/saves/ssc_backups`.
pub fn ssc_backup_dir(data_dir: &str) -> (r: String)
    ensures
        r@ == path_join(path_join(data_dir@, "saves"@), "ssc_backups"@),
{
    let a = join(data_dir, "saves");
    join(a.as_str(), "ssc_backups")
}

/// Where daily archives go: `<data_dir>/saves/archives`.
pub fn archive_dir(data_dir: &str) -> (r: String)
    ensures
        r@ == path_join(path_join(data_dir@, "saves"@), "archives"@),
{
    let a = join(data_dir, "saves");
    join(a.as_str(), "archives")
}

} // verus!
