//! The back end's configuration and its defaults.
use vstd::prelude::*;

use crate::text::owned;

verus! {

/// The whole configuration file.
#[derive(Debug, Clone)]
pub struct Config {
    pub server: ServerConfig,
    pub auth: AuthConfig,
    pub tshock: TShockConfig,
    pub backup: BackupConfig,
}

/// `[server]`: where the HTTP API listens and where data and logs live.
#[derive(Debug, Clone)]
pub struct ServerConfig {
    pub host: String,
    pub port: u16,
    pub data_dir: String,
    pub log_dir: String,
}

/// `[auth]`: token signing and registration.
#[derive(Debug, Clone)]
pub struct AuthConfig {
    pub jwt_secret: String,
    pub jwt_expire_hours: u64,
    pub allow_register: bool,
}

/// `[tshock]`: runtimes, download mirror and the default port range.
#[derive(Debug, Clone)]
pub struct TShockConfig {
    pub dotnet_path: String,
    pub mono_path: String,
    pub github_mirror: String,
    pub default_port_range_start: u16,
    pub default_port_range_end: u16,
}

/// `[backup]`: scheduled backups, daily archives and retention.
#[derive(Debug, Clone)]
pub struct BackupConfig {
    pub enabled: bool,
    pub interval_minutes: u64,
    pub max_backups_per_server: usize,
    pub local_retention_days: u64,
    pub backup_ssc: bool,
    pub archive_daily_enabled: bool,
    pub archive_hour: u8,
    pub archive_after_days: u64,
    pub oss: OssBackupConfig,
}

/// `[backup.oss]`: the remote copy of backups (NAS directory or Tencent COS).
#[derive(Debug, Clone)]
pub struct OssBackupConfig {
    pub enabled: bool,
    pub provider: String,
    pub endpoint: String,
    pub bucket: String,
    pub region: String,
    pub access_key_id: String,
    pub access_key_secret: String,
    pub local_path: String,
    pub prefix: String,
}

impl OssBackupConfig {
    /// A field-by-field copy.
    pub fn duplicate(&self) -> (r: Self)
        ensures
            r == *self,
    {
        OssBackupConfig {
            enabled: self.enabled,
            provider: self.provider.clone(),
            endpoint: self.endpoint.clone(),
            bucket: self.bucket.clone(),
            region: self.region.clone(),
            access_key_id: self.access_key_id.clone(),
            access_key_secret: self.access_key_secret.clone(),
            local_path: self.local_path.clone(),
            prefix: self.prefix.clone(),
        }
    }
}

pub fn default_backup_enabled() -> (r: bool)
    ensures
        r,
{
    true
}

pub fn default_backup_interval_minutes() -> (r: u64)
    ensures
        r == 60,
{
    60
}

pub fn default_max_backups_per_server() -> (r: usize)
    ensures
        r == 0,
{
    0
}

pub fn default_local_retention_days() -> (r: u64)
    ensures
        r == 30,
{
    30
}

pub fn default_backup_ssc() -> (r: bool)
    ensures
        r,
{
    true
}

pub fn default_archive_daily_enabled() -> (r: bool)
    ensures
        r,
{
    true
}

pub fn default_archive_hour() -> (r: u8)
    ensures
        r == 1,
{
    1
}

pub fn default_archive_after_days() -> (r: u64)
    ensures
        r == 2,
{
    2
}

pub fn default_oss_provider() -> (r: String)
    ensures
        r@ == "nas"@,
{
    owned("nas")
}

pub fn default_oss_prefix() -> (r: String)
    ensures
        r@ == "terraria-panel/saves"@,
{
    owned("terraria-panel/saves")
}

/// The default remote-backup settings: disabled, NAS provider, default prefix,
/// everything else empty.
pub open spec fn is_default_oss(c: OssBackupConfig) -> bool {
    &&& !c.enabled
    &&& c.provider@ == "nas"@
    &&& c.endpoint@.len() == 0
    &&& c.bucket@.len() == 0
    &&& c.region@.len() == 0
    &&& c.access_key_id@.len() == 0
    &&& c.access_key_secret@.len() == 0
    &&& c.local_path@.len() == 0
    &&& c.prefix@ == "terraria-panel/saves"@
}

impl Default for OssBackupConfig {
    fn default() -> (r: Self)
        ensures
            is_default_oss(r),
    {
        OssBackupConfig {
            enabled: false,
            provider: default_oss_provider(),
            endpoint: String::new(),
            bucket: String::new(),
            region: String::new(),
            access_key_id: String::new(),
            access_key_secret: String::new(),
            local_path: String::new(),
            prefix: default_oss_prefix(),
        }
    }
}

/// The built-in configuration.
pub open spec fn is_default_config(c: Config) -> bool {
    &&& c.server.host@ == "0.0.0.0"@
    &&& c.server.port == 3000
    &&& c.server.data_dir@ == "./data"@
    &&& c.server.log_dir@ == "./logs"@
    &&& c.auth.jwt_secret@ == "dev-secret-change-me-in-production"@
    &&& c.auth.jwt_expire_hours == 24
    &&& !c.auth.allow_register
    &&& c.tshock.dotnet_path@ == "/usr/bin/dotnet"@
    &&& c.tshock.mono_path@ == "/usr/bin/mono"@
    &&& c.tshock.github_mirror@.len() == 0
    &&& c.tshock.default_port_range_start == 7777
    &&& c.tshock.default_port_range_end == 7800
    &&& c.backup.enabled
    &&& c.backup.interval_minutes == 60
    &&& c.backup.max_backups_per_server == 0
    &&& c.backup.local_retention_days == 30
    &&& c.backup.backup_ssc
    &&& c.backup.archive_daily_enabled
    &&& c.backup.archive_hour == 1
    &&& c.backup.archive_after_days == 2
    &&& is_default_oss(c.backup.oss)
}

impl Default for Config {
    fn default() -> (r: Self)
        ensures
            is_default_config(r),
    {
        Config {
            server: ServerConfig {
                host: owned("0.0.0.0"),
                port: 3000,
                data_dir: owned("./data"),
                log_dir: owned("./logs"),
            },
            auth: AuthConfig {
                jwt_secret: owned("dev-secret-change-me-in-production"),
                jwt_expire_hours: 24,
                allow_register: false,
            },
            tshock: TShockConfig {
                dotnet_path: owned("/usr/bin/dotnet"),
                mono_path: owned("/usr/bin/mono"),
                github_mirror: String::new(),
                default_port_range_start: 7777,
                default_port_range_end: 7800,
            },
            backup: BackupConfig {
                enabled: default_backup_enabled(),
                interval_minutes: default_backup_interval_minutes(),
                max_backups_per_server: default_max_backups_per_server(),
                local_retention_days: default_local_retention_days(),
                backup_ssc: default_backup_ssc(),
                archive_daily_enabled: default_archive_daily_enabled(),
                archive_hour: default_archive_hour(),
                archive_after_days: default_archive_after_days(),
                oss: OssBackupConfig::default(),
            },
        }
    }
}

} // verus!
