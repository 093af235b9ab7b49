//! Where the configuration comes from, and the decisions of migrating it
//! from the legacy directory.
use vstd::prelude::*;
use vstd::string::*;
use std::path::PathBuf;

use crate::text::{append_chars, str_chars};

verus! {

/// Represents the source used to load configuration data.
#[derive(Debug)]
pub enum ConfigSource {
    /// Configuration file loaded from the current Wayscriber path.
    Primary,
    /// Configuration file loaded from the legacy hyprmarker path.
    Legacy(PathBuf),
    /// Defaults were used because no configuration file was found.
    Default,
}

/// The source a load uses: the primary file when it exists, else the legacy
/// file at `legacy_path` when that exists, else the defaults.
pub fn select_config_source(primary_exists: bool, legacy_exists: bool, legacy_path: PathBuf) -> (r: ConfigSource)
    ensures
        primary_exists ==> r is Primary,
        !primary_exists && legacy_exists ==> r == ConfigSource::Legacy(legacy_path),
        !primary_exists && !legacy_exists ==> r is Default,
{
    if primary_exists {
        ConfigSource::Primary
    } else if legacy_exists {
        ConfigSource::Legacy(legacy_path)
    } else {
        ConfigSource::Default
    }
}

/// Describes the actions taken (or planned) while migrating configuration files.
#[derive(Debug, PartialEq, Eq)]
pub enum MigrationActions {
    /// No legacy configuration directory was found; nothing to do.
    NoLegacyConfig,
    /// Dry-run summary with metadata about what would happen.
    DryRun { target_exists: bool, files_to_copy: usize },
    /// Migration completed successfully.
    Migrated { target_existed: bool, files_copied: usize, backup_path: Option<PathBuf> },
}

/// Report returned after attempting to migrate configuration files.
#[derive(Debug)]
pub struct MigrationReport {
    pub legacy_dir: PathBuf,
    pub target_dir: PathBuf,
    pub actions: MigrationActions,
}

/// The course of a migration, decided from what exists on disk.
#[derive(Debug, Clone, Copy, PartialEq, Eq, Structural)]
pub enum MigrationPlan {
    /// There is no legacy directory: report that and stop.
    NothingToMigrate,
    /// Only count the files that would be copied.
    CountOnly,
    /// Copy the files; when `backup_first`, the existing target directory is
    /// first moved aside.
    Copy { backup_first: bool },
}

/// The course of a migration: nothing without a legacy directory, a count on
/// a dry run, else a copy that first moves an existing target aside.
pub fn plan_migration(legacy_exists: bool, target_exists: bool, dry_run: bool) -> (p: MigrationPlan)
    ensures
        !legacy_exists ==> p == MigrationPlan::NothingToMigrate,
        legacy_exists && dry_run ==> p == MigrationPlan::CountOnly,
        legacy_exists && !dry_run ==> p == (MigrationPlan::Copy { backup_first: target_exists }),
{
    if !legacy_exists {
        MigrationPlan::NothingToMigrate
    } else if dry_run {
        MigrationPlan::CountOnly
    } else {
        MigrationPlan::Copy { backup_first: target_exists }
    }
}

/// The name of the directory an existing configuration is moved to: "wayscriber.backup." and the timestamp.
pub open spec fn migration_backup_name_spec(timestamp: Seq<char>) -> Seq<char> {
    "wayscriber.backup."@ + timestamp
}

/// The name of the directory an existing configuration is moved to before a migration.
pub fn migration_backup_name(timestamp: &str) -> (r: String)
    ensures
        r@ == migration_backup_name_spec(timestamp@),
{
    let mut name = String::from_str("wayscriber.backup.");
    let ts = str_chars(timestamp);
    append_chars(&mut name, &ts);
    name
}

/// The name of the copy made of a configuration file before it is
/// overwritten: the file's name (or "config.toml"), the timestamp and ".bak",
/// joined by dots.
pub open spec fn config_backup_name_spec(file_name: Option<Seq<char>>, timestamp: Seq<char>) -> Seq<char> {
    let base = match file_name {
        Some(n) => n,
        None => "config.toml"@,
    };
    base + "."@ + timestamp + ".bak"@
}

/// The name of the copy made of a configuration file before it is overwritten.
pub fn config_backup_name(file_name: Option<&str>, timestamp: &str) -> (r: String)
    ensures
        r@ == config_backup_name_spec(
            match file_name {
                Some(n) => Some(n@),
                None => None,
            },
            timestamp@,
        ),
{
    let mut name = match file_name {
        Some(n) => String::from_str(n),
        None => String::from_str("config.toml"),
    };
    let dot = str_chars(".");
    append_chars(&mut name, &dot);
    let ts = str_chars(timestamp);
    append_chars(&mut name, &ts);
    let ext = str_chars(".bak");
    append_chars(&mut name, &ext);
    name
}

/// Law: a backup name keeps its timestamp whole, so two different
/// timestamps never give the same name; a configuration file's backup name
/// starts with the file's name and a dot and ends in ".bak".
pub proof fn law_backup_names_keep_timestamps(file_name: Option<Seq<char>>, t1: Seq<char>, t2: Seq<char>)
    ensures
        config_backup_name_spec(file_name, t1) == config_backup_name_spec(file_name, t2) ==> t1 == t2,
        migration_backup_name_spec(t1) == migration_backup_name_spec(t2) ==> t1 == t2,
        ({
            let base = match file_name {
                Some(n) => n,
                None => "config.toml"@,
            };
            let n1 = config_backup_name_spec(file_name, t1);
            &&& n1.subrange(0, base.len() + 1 as int) == base + "."@
            &&& n1.subrange(n1.len() - 4 as int, n1.len() as int) == ".bak"@
        }),
{
    reveal_strlit(".");
    reveal_strlit(".bak");
    reveal_strlit("wayscriber.backup.");
    let base = match file_name {
        Some(n) => n,
        None => "config.toml"@,
    };
    let p = base + "."@;
    let n1 = config_backup_name_spec(file_name, t1);
    let n2 = config_backup_name_spec(file_name, t2);
    assert(n1 == p + t1 + ".bak"@);
    assert(n1.subrange(0, base.len() + 1 as int) =~= p);
    assert(n1.subrange(n1.len() - 4 as int, n1.len() as int) =~= ".bak"@);
    assert(n1.subrange(p.len() as int, (p.len() + t1.len()) as int) =~= t1);
    if n1 == n2 {
        assert(t1.len() == t2.len());
        assert(n2.subrange(p.len() as int, (p.len() + t2.len()) as int) =~= t2);
    }
    let q = "wayscriber.backup."@;
    let m1 = migration_backup_name_spec(t1);
    let m2 = migration_backup_name_spec(t2);
    assert(m1.subrange(q.len() as int, m1.len() as int) =~= t1);
    assert(m2.subrange(q.len() as int, m2.len() as int) =~= t2);
}

} // verus!
