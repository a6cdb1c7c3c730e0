//! Idempotent lazy initialization of the store.
//!
//! The process keeps a single [`StorageState`] cell (behind whatever
//! lock the embedding application chooses). The first initialization
//! resolves a configuration and runs the migrations; every later call
//! returns the cached configuration and outcome and touches nothing.
//! Even if two racing callers both run the migration body, the second
//! run's writes are all no-ops: see
//! [`crate::migration::lemma_run_migrations_once`].

use vstd::prelude::*;
use crate::config::{StorageConfig, StorageConfigSpec};
use crate::migration::{
    run_migrations, spec_default_result, spec_run_migrations, MigrationResult,
    MigrationResultSpec,
};
use crate::store::{DataStore, LegacySnapshot};

verus! {

/// Mathematical model of the initialization state.
#[verifier::ext_equal]
pub struct StorageStateSpec {
    pub config: Option<StorageConfigSpec>,
    pub last_result: Option<MigrationResultSpec>,
}

/// The process-wide initialization state: the cached configuration once
/// initialized, and the outcome of the run that initialized it.
pub struct StorageState {
    pub config: Option<StorageConfig>,
    pub last_result: Option<MigrationResult>,
}

impl View for StorageState {
    type V = StorageStateSpec;

    open spec fn view(&self) -> StorageStateSpec {
        StorageStateSpec {
            config: match self.config {
                Some(c) => Some(c@),
                None => None,
            },
            last_result: match self.last_result {
                Some(r) => Some(r@),
                None => None,
            },
        }
    }
}

impl StorageState {
    /// The uninitialized state.
    pub fn new() -> (r: StorageState)
        ensures
            r@.config is None,
            r@.last_result is None,
    {
        StorageState { config: None, last_result: None }
    }
}

/// Initializes the store at most once. An already-initialized state is
/// returned as cached, and neither the state nor the store is touched.
/// Otherwise the configuration is built from the two resolved base
/// directories, the migrations run on the store, and both the
/// configuration and the outcome are cached.
pub fn init_storage(
    state: &mut StorageState,
    data_dir: String,
    config_dir: String,
    store: &mut DataStore,
    legacy: &LegacySnapshot,
    now: &String,
) -> (r: MigrationResult)
    ensures
        old(state)@.config is Some ==> final(state)@ == old(state)@ && final(store)@ == old(
            store,
        )@ && r@ == (match old(state)@.last_result {
            Some(m) => m,
            None => spec_default_result(),
        }),
        old(state)@.config is None ==> ({
            let (s2, res) = spec_run_migrations(old(store)@, legacy@, now@);
            &&& final(store)@ == s2
            &&& r@ == res
            &&& final(state)@.config == Some(
                StorageConfigSpec { data_dir: data_dir@, config_dir: config_dir@ },
            )
            &&& final(state)@.last_result == Some(res)
        }),
{
    if state.config.is_some() {
        return match &state.last_result {
            Some(m) => m.snapshot(),
            None => MigrationResult::default(),
        };
    }
    let config = StorageConfig::new(data_dir, config_dir);
    let result = run_migrations(store, legacy, now);
    state.last_result = Some(result.snapshot());
    state.config = Some(config);
    result
}

/// The cached configuration, or nothing when the store was never
/// initialized — the caller then resolves the directories and calls
/// [`init_storage`] first.
pub fn get_storage_config(state: &StorageState) -> (r: Option<StorageConfig>)
    ensures
        match r {
            Some(c) => state@.config == Some(c@),
            None => state@.config is None,
        },
{
    match &state.config {
        Some(c) => Some(c.snapshot()),
        None => None,
    }
}

/// The outcome of the run that initialized the store, for diagnostics;
/// nothing when the store was never initialized.
pub fn get_migration_result(state: &StorageState) -> (r: Option<MigrationResult>)
    ensures
        match r {
            Some(m) => state@.last_result == Some(m@),
            None => state@.last_result is None,
        },
{
    match &state.last_result {
        Some(m) => Some(m.snapshot()),
        None => None,
    }
}

} // verus!
