use local_store::config::StorageConfig;
use local_store::facade::{get_migration_result, get_storage_config, init_storage, StorageState};
use local_store::store::{DataStore, FileSlot, LegacySnapshot, LegacySource, MarkerSlot};

fn fresh_store() -> DataStore {
    DataStore {
        marker: MarkerSlot::Absent,
        projects: FileSlot::Absent,
        stats_cache: FileSlot::Absent,
        claude_profiles: FileSlot::Absent,
        download_tasks: FileSlot::Absent,
        forward_rules: FileSlot::Absent,
        server_configs: FileSlot::Absent,
        labels: FileSlot::Absent,
        categories: FileSlot::Absent,
        editors: FileSlot::Absent,
        terminal: FileSlot::Absent,
        app_settings: FileSlot::Absent,
        ui_state: FileSlot::Absent,
        notifications: FileSlot::Absent,
        claude_quick_configs: FileSlot::Absent,
        claude_installations_cache: FileSlot::Absent,
    }
}

#[test]
fn config_resolves_every_path() {
    let c = StorageConfig::new(String::from("/data"), String::from("/conf"));
    assert_eq!(c.migration_file(), String::from("/conf/migrations.json"));
    assert_eq!(c.projects_file(), String::from("/data/projects.json"));
    assert_eq!(c.stats_cache_file(), String::from("/data/stats_cache.json"));
    assert_eq!(c.claude_profiles_file(), String::from("/data/claude_profiles.json"));
    assert_eq!(c.download_tasks_file(), String::from("/data/download_tasks.json"));
    assert_eq!(c.forward_rules_file(), String::from("/data/forward_rules.json"));
    assert_eq!(c.server_configs_file(), String::from("/data/server_configs.json"));
    assert_eq!(c.labels_file(), String::from("/data/labels.json"));
    assert_eq!(c.categories_file(), String::from("/data/categories.json"));
    assert_eq!(c.editors_file(), String::from("/data/editors.json"));
    assert_eq!(c.terminal_file(), String::from("/data/terminal.json"));
    assert_eq!(c.app_settings_file(), String::from("/data/app_settings.json"));
    assert_eq!(c.ui_state_file(), String::from("/data/ui_state.json"));
    assert_eq!(c.notifications_file(), String::from("/data/notifications.json"));
    assert_eq!(c.claude_quick_configs_file(), String::from("/data/claude_quick_configs.json"));
    assert_eq!(
        c.claude_installations_cache_file(),
        String::from("/data/claude_installations_cache.json"),
    );
}

#[test]
fn uninitialized_state_has_no_config_and_no_result() {
    let state = StorageState::new();
    assert!(get_storage_config(&state).is_none());
    assert!(get_migration_result(&state).is_none());
}

#[test]
fn init_storage_initializes_and_caches() {
    let mut state = StorageState::new();
    let mut store = fresh_store();
    let mut legacy = LegacySnapshot::empty();
    legacy.labels = LegacySource::Found(String::from(r#"["l1","l2"]"#));
    let r1 = init_storage(
        &mut state,
        String::from("/data"),
        String::from("/conf"),
        &mut store,
        &legacy,
        &String::from("t1"),
    );
    assert!(r1.success);
    assert_eq!(r1.migrated_items, vec![String::from("labels (2 labels)")]);
    let config = get_storage_config(&state).expect("initialized");
    assert_eq!(config.data_dir, String::from("/data"));
    assert_eq!(config.config_dir, String::from("/conf"));
    assert_eq!(get_migration_result(&state).expect("cached"), r1);
}

#[test]
fn init_storage_is_a_no_op_once_initialized() {
    let mut state = StorageState::new();
    let mut store = fresh_store();
    let legacy = LegacySnapshot::empty();
    let r1 = init_storage(
        &mut state,
        String::from("/data"),
        String::from("/conf"),
        &mut store,
        &legacy,
        &String::from("t1"),
    );
    // A later call with other directories and an untouched store returns
    // the cached outcome and writes nothing.
    let mut other_store = fresh_store();
    let r2 = init_storage(
        &mut state,
        String::from("/elsewhere"),
        String::from("/other"),
        &mut other_store,
        &legacy,
        &String::from("t2"),
    );
    assert_eq!(r1, r2);
    assert!(matches!(other_store.projects, FileSlot::Absent));
    assert!(matches!(other_store.marker, MarkerSlot::Absent));
    let config = get_storage_config(&state).expect("initialized");
    assert_eq!(config.data_dir, String::from("/data"));
}
