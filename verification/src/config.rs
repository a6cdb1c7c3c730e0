//! Resolved locations of the store's files.
//!
//! A configuration is immutable: one base directory for the domain data
//! files, one for configuration, and one accessor per file. The caller
//! resolves the two platform-dependent base directories and creates
//! them; everything below is a pure path computation.

use vstd::prelude::*;

verus! {

/// Mathematical model of a resolved configuration.
#[verifier::ext_equal]
pub struct StorageConfigSpec {
    pub data_dir: Seq<char>,
    pub config_dir: Seq<char>,
}

/// The resolved absolute base directories of the store.
#[derive(Debug, Clone, PartialEq, Eq)]
pub struct StorageConfig {
    pub data_dir: String,
    pub config_dir: String,
}

impl View for StorageConfig {
    type V = StorageConfigSpec;

    open spec fn view(&self) -> StorageConfigSpec {
        StorageConfigSpec { data_dir: self.data_dir@, config_dir: self.config_dir@ }
    }
}

/// A path under a directory.
pub open spec fn spec_join(dir: Seq<char>, name: Seq<char>) -> Seq<char> {
    dir + "/"@ + name
}

fn join(dir: &String, name: &str) -> (r: String)
    ensures
        r@ == spec_join(dir@, name@),
{
    let mut s = dir.clone();
    s.append("/");
    s.append(name);
    s
}

impl StorageConfig {
    /// A configuration over the two resolved base directories.
    pub fn new(data_dir: String, config_dir: String) -> (r: StorageConfig)
        ensures
            r@ == (StorageConfigSpec { data_dir: data_dir@, config_dir: config_dir@ }),
    {
        StorageConfig { data_dir, config_dir }
    }

    /// An identical copy of this configuration.
    pub fn snapshot(&self) -> (r: StorageConfig)
        ensures
            r@ == self@,
    {
        StorageConfig { data_dir: self.data_dir.clone(), config_dir: self.config_dir.clone() }
    }

    /// The migration marker file, under the configuration directory.
    pub fn migration_file(&self) -> (r: String)
        ensures
            r@ == spec_join(self@.config_dir, "migrations.json"@),
    {
        join(&self.config_dir, "migrations.json")
    }

    /// The projects data file.
    pub fn projects_file(&self) -> (r: String)
        ensures
            r@ == spec_join(self@.data_dir, "projects.json"@),
    {
        join(&self.data_dir, "projects.json")
    }

    /// The cached statistics file.
    pub fn stats_cache_file(&self) -> (r: String)
        ensures
            r@ == spec_join(self@.data_dir, "stats_cache.json"@),
    {
        join(&self.data_dir, "stats_cache.json")
    }

    /// The credential profiles file.
    pub fn claude_profiles_file(&self) -> (r: String)
        ensures
            r@ == spec_join(self@.data_dir, "claude_profiles.json"@),
    {
        join(&self.data_dir, "claude_profiles.json")
    }

    /// The download tasks file.
    pub fn download_tasks_file(&self) -> (r: String)
        ensures
            r@ == spec_join(self@.data_dir, "download_tasks.json"@),
    {
        join(&self.data_dir, "download_tasks.json")
    }

    /// The forward rules file.
    pub fn forward_rules_file(&self) -> (r: String)
        ensures
            r@ == spec_join(self@.data_dir, "forward_rules.json"@),
    {
        join(&self.data_dir, "forward_rules.json")
    }

    /// The server configurations file.
    pub fn server_configs_file(&self) -> (r: String)
        ensures
            r@ == spec_join(self@.data_dir, "server_configs.json"@),
    {
        join(&self.data_dir, "server_configs.json")
    }

    /// The labels file.
    pub fn labels_file(&self) -> (r: String)
        ensures
            r@ == spec_join(self@.data_dir, "labels.json"@),
    {
        join(&self.data_dir, "labels.json")
    }

    /// The categories file.
    pub fn categories_file(&self) -> (r: String)
        ensures
            r@ == spec_join(self@.data_dir, "categories.json"@),
    {
        join(&self.data_dir, "categories.json")
    }

    /// The editors file.
    pub fn editors_file(&self) -> (r: String)
        ensures
            r@ == spec_join(self@.data_dir, "editors.json"@),
    {
        join(&self.data_dir, "editors.json")
    }

    /// The terminal settings file.
    pub fn terminal_file(&self) -> (r: String)
        ensures
            r@ == spec_join(self@.data_dir, "terminal.json"@),
    {
        join(&self.data_dir, "terminal.json")
    }

    /// The application settings file.
    pub fn app_settings_file(&self) -> (r: String)
        ensures
            r@ == spec_join(self@.data_dir, "app_settings.json"@),
    {
        join(&self.data_dir, "app_settings.json")
    }

    /// The UI state file.
    pub fn ui_state_file(&self) -> (r: String)
        ensures
            r@ == spec_join(self@.data_dir, "ui_state.json"@),
    {
        join(&self.data_dir, "ui_state.json")
    }

    /// The notifications file.
    pub fn notifications_file(&self) -> (r: String)
        ensures
            r@ == spec_join(self@.data_dir, "notifications.json"@),
    {
        join(&self.data_dir, "notifications.json")
    }

    /// The quick configurations file.
    pub fn claude_quick_configs_file(&self) -> (r: String)
        ensures
            r@ == spec_join(self@.data_dir, "claude_quick_configs.json"@),
    {
        join(&self.data_dir, "claude_quick_configs.json")
    }

    /// The installation info cache file.
    pub fn claude_installations_cache_file(&self) -> (r: String)
        ensures
            r@ == spec_join(self@.data_dir, "claude_installations_cache.json"@),
    {
        join(&self.data_dir, "claude_installations_cache.json")
    }
}

} // verus!
