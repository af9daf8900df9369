//! The backup policy in force for a server: the global policy with the
//! server's own overrides applied.
use vstd::prelude::*;

use crate::config::{BackupConfig, OssBackupConfig};
use crate::paths::{join, path_join};

verus! {

/// The panel-wide backup policy.
#[derive(Debug, Clone)]
pub struct GlobalBackupPolicy {
    pub enabled: bool,
    pub interval_minutes: u64,
    pub max_backups_per_server: usize,
    pub local_retention_days: u64,
    pub backup_ssc: bool,
    pub archive_daily_enabled: bool,
    pub archive_hour: u8,
    pub archive_after_days: u64,
    pub oss: OssBackupConfig,
}

/// The policy that applies to one server.
#[derive(Debug, Clone)]
pub struct EffectiveBackupPolicy {
    pub enabled: bool,
    pub interval_minutes: u64,
    pub max_backups_per_server: usize,
    pub local_retention_days: u64,
    pub backup_ssc: bool,
    pub archive_daily_enabled: bool,
    pub archive_hour: u8,
    pub archive_after_days: u64,
    pub oss: OssBackupConfig,
}

/// A server's own settings; each one that is set replaces the global one.
#[derive(Debug, Clone, Default)]
pub struct BackupPolicyOverride {
    pub enabled: Option<bool>,
    pub interval_minutes: Option<u64>,
    pub max_backups_per_server: Option<usize>,
    pub local_retention_days: Option<u64>,
    pub backup_ssc: Option<bool>,
}

pub open spec fn or_else<T>(o: Option<T>, d: T) -> T {
    match o {
        Some(v) => v,
        None => d,
    }
}

impl GlobalBackupPolicy {
    /// The global policy that the `[backup]` section of the configuration
    /// file describes.
    pub fn from_backup_config(value: &BackupConfig) -> (r: Self)
        ensures
            r.enabled == value.enabled,
            r.interval_minutes == value.interval_minutes,
            r.max_backups_per_server == value.max_backups_per_server,
            r.local_retention_days == value.local_retention_days,
            r.backup_ssc == value.backup_ssc,
            r.archive_daily_enabled == value.archive_daily_enabled,
            r.archive_hour == value.archive_hour,
            r.archive_after_days == value.archive_after_days,
            r.oss == value.oss,
    {
        GlobalBackupPolicy {
            enabled: value.enabled,
            interval_minutes: value.interval_minutes,
            max_backups_per_server: value.max_backups_per_server,
            local_retention_days: value.local_retention_days,
            backup_ssc: value.backup_ssc,
            archive_daily_enabled: value.archive_daily_enabled,
            archive_hour: value.archive_hour,
            archive_after_days: value.archive_after_days,
            oss: value.oss.duplicate(),
        }
    }
}

/// Where the global policy is stored under the data directory.
pub fn global_policy_path(data_dir: &str) -> (r: String)
    ensures
        r@ == path_join(data_dir@, "settings/backup-policy.json"@),
{
    join(data_dir, "settings/backup-policy.json")
}

/// Where a server's panel configuration (holding its override) is stored.
pub fn server_panel_config_path(data_dir: &str, server_id: &str) -> (r: String)
    ensures
        r@ == path_join(path_join(path_join(data_dir@, "servers"@), server_id@),
            "tshock/panel-config.json"@),
{
    let a = join(data_dir, "servers");
    let b = join(a.as_str(), server_id);
    join(b.as_str(), "tshock/panel-config.json")
}

/// The effective policy: the five per-server settings come from the override
/// where it sets them and from the global policy otherwise; archiving and
/// the remote copy are always global.
pub open spec fn effective_policy_matches(
    r: EffectiveBackupPolicy,
    global: GlobalBackupPolicy,
    o: BackupPolicyOverride,
) -> bool {
    &&& r.enabled == or_else(o.enabled, global.enabled)
    &&& r.interval_minutes == or_else(o.interval_minutes, global.interval_minutes)
    &&& r.max_backups_per_server == or_else(o.max_backups_per_server, global.max_backups_per_server)
    &&& r.local_retention_days == or_else(o.local_retention_days, global.local_retention_days)
    &&& r.backup_ssc == or_else(o.backup_ssc, global.backup_ssc)
    &&& r.archive_daily_enabled == global.archive_daily_enabled
    &&& r.archive_hour == global.archive_hour
    &&& r.archive_after_days == global.archive_after_days
    &&& r.oss == global.oss
}

/// The override that sets nothing.
pub open spec fn empty_override() -> BackupPolicyOverride {
    BackupPolicyOverride {
        enabled: None,
        interval_minutes: None,
        max_backups_per_server: None,
        local_retention_days: None,
        backup_ssc: None,
    }
}

pub open spec fn override_or_empty(o: Option<&BackupPolicyOverride>) -> BackupPolicyOverride {
    match o {
        Some(v) => *v,
        None => empty_override(),
    }
}

pub fn resolve_effective_backup_policy(
    global: &GlobalBackupPolicy,
    override_policy: Option<&BackupPolicyOverride>,
) -> (r: EffectiveBackupPolicy)
    ensures
        effective_policy_matches(r, *global, override_or_empty(override_policy)),
{
    let o = match override_policy {
        Some(v) => BackupPolicyOverride {
            enabled: v.enabled,
            interval_minutes: v.interval_minutes,
            max_backups_per_server: v.max_backups_per_server,
            local_retention_days: v.local_retention_days,
            backup_ssc: v.backup_ssc,
        },
        None => BackupPolicyOverride {
            enabled: None,
            interval_minutes: None,
            max_backups_per_server: None,
            local_retention_days: None,
            backup_ssc: None,
        },
    };
    EffectiveBackupPolicy {
        enabled: match o.enabled {
            Some(v) => v,
            None => global.enabled,
        },
        interval_minutes: match o.interval_minutes {
            Some(v) => v,
            None => global.interval_minutes,
        },
        max_backups_per_server: match o.max_backups_per_server {
            Some(v) => v,
            None => global.max_backups_per_server,
        },
        local_retention_days: match o.local_retention_days {
            Some(v) => v,
            None => global.local_retention_days,
        },
        backup_ssc: match o.backup_ssc {
            Some(v) => v,
            None => global.backup_ssc,
        },
        archive_daily_enabled: global.archive_daily_enabled,
        archive_hour: global.archive_hour,
        archive_after_days: global.archive_after_days,
        oss: global.oss.duplicate(),
    }
}

/// With no override, or an override that sets nothing, a server follows the
/// global policy in every setting.
pub proof fn law_no_override_is_global(
    r: EffectiveBackupPolicy,
    global: GlobalBackupPolicy,
)
    requires
        effective_policy_matches(r, global, empty_override()),
    ensures
        r.enabled == global.enabled,
        r.interval_minutes == global.interval_minutes,
        r.max_backups_per_server == global.max_backups_per_server,
        r.local_retention_days == global.local_retention_days,
        r.backup_ssc == global.backup_ssc,
        r.archive_daily_enabled == global.archive_daily_enabled,
        r.archive_hour == global.archive_hour,
        r.archive_after_days == global.archive_after_days,
        r.oss == global.oss,
{
}

/// A setting that the override sets is the one in force, whatever the global
/// policy says; archiving and the remote copy can never be overridden.
pub proof fn law_override_wins(
    r: EffectiveBackupPolicy,
    global: GlobalBackupPolicy,
    o: BackupPolicyOverride,
)
    requires
        effective_policy_matches(r, global, o),
    ensures
        o.enabled matches Some(v) ==> r.enabled == v,
        o.interval_minutes matches Some(v) ==> r.interval_minutes == v,
        o.max_backups_per_server matches Some(v) ==> r.max_backups_per_server == v,
        o.local_retention_days matches Some(v) ==> r.local_retention_days == v,
        o.backup_ssc matches Some(v) ==> r.backup_ssc == v,
        r.archive_daily_enabled == global.archive_daily_enabled,
        r.archive_hour == global.archive_hour,
        r.archive_after_days == global.archive_after_days,
        r.oss == global.oss,
{
}

} // verus!
