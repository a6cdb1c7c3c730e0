use local_store::json::JsonNode;
use local_store::migration::{ensure_all_data_files, run_migrations};
use local_store::store::{DataStore, FileSlot, LegacySnapshot, LegacySource, MarkerSlot};

fn to_value(n: &JsonNode) -> serde_json::Value {
    match n {
        JsonNode::Null => serde_json::Value::Null,
        JsonNode::Bool(b) => serde_json::Value::Bool(*b),
        JsonNode::Num(Some(v)) => serde_json::Value::from(*v),
        JsonNode::Num(None) => serde_json::Value::Null,
        JsonNode::Str(s) => serde_json::Value::String(s.clone()),
        JsonNode::Arr(items) => serde_json::Value::Array(items.iter().map(to_value).collect()),
        JsonNode::Obj(fields) => {
            let mut m = serde_json::Map::new();
            for (k, x) in fields {
                m.insert(k.clone(), to_value(x));
            }
            serde_json::Value::Object(m)
        },
    }
}

fn v(s: &str) -> serde_json::Value {
    serde_json::from_str(s).unwrap()
}

fn fresh_store() -> DataStore {
    DataStore {
        marker: MarkerSlot::Absent,
        projects: FileSlot::Absent,
        stats_cache: FileSlot::Absent,
        claude_profiles: FileSlot::Absent,
        download_tasks: FileSlot::Absent,
        forward_rules: FileSlot::Absent,
        server_configs: FileSlot::Absent,
        labels: FileSlot::Absent,
        categories: FileSlot::Absent,
        editors: FileSlot::Absent,
        terminal: FileSlot::Absent,
        app_settings: FileSlot::Absent,
        ui_state: FileSlot::Absent,
        notifications: FileSlot::Absent,
        claude_quick_configs: FileSlot::Absent,
        claude_installations_cache: FileSlot::Absent,
    }
}

fn created_value(slot: &FileSlot) -> serde_json::Value {
    match slot {
        FileSlot::Created(doc) => to_value(doc),
        FileSlot::OnDisk => panic!("expected a created file, found one already on disk"),
        FileSlot::Absent => panic!("expected a created file, found none"),
    }
}

fn all_domain_values(store: &DataStore) -> Vec<serde_json::Value> {
    vec![
        created_value(&store.projects),
        created_value(&store.stats_cache),
        created_value(&store.claude_profiles),
        created_value(&store.download_tasks),
        created_value(&store.forward_rules),
        created_value(&store.server_configs),
        created_value(&store.labels),
        created_value(&store.categories),
        created_value(&store.editors),
        created_value(&store.terminal),
        created_value(&store.app_settings),
        created_value(&store.ui_state),
        created_value(&store.notifications),
        created_value(&store.claude_quick_configs),
        created_value(&store.claude_installations_cache),
    ]
}

fn now() -> String {
    String::from("2024-05-01T12:00:00Z")
}

#[test]
fn scenario_legacy_projects_are_migrated() {
    let mut store = fresh_store();
    let mut legacy = LegacySnapshot::empty();
    legacy.projects = LegacySource::Found(String::from(r#"[{"id":"p1","name":"Demo"}]"#));
    let result = run_migrations(&mut store, &legacy, &now());
    assert!(result.success);
    assert_eq!(result.migrated_items, vec![String::from("projects data (1 projects)")]);
    assert!(result.errors.is_empty());
    assert_eq!(
        created_value(&store.projects),
        v(
            r#"{"version":1,"last_updated":"2024-05-01T12:00:00Z","data":{"projects":[{"id":"p1","name":"Demo"}]}}"#,
        ),
    );
}

#[test]
fn scenario_fresh_install_seeds_curated_defaults() {
    let mut store = fresh_store();
    let legacy = LegacySnapshot::empty();
    let result = run_migrations(&mut store, &legacy, &now());
    assert!(result.success);
    assert!(result.migrated_items.is_empty());
    assert_eq!(
        created_value(&store.labels),
        v(
            r#"{"version":1,"last_updated":"2024-05-01T12:00:00Z","data":{"labels":["Java","Python","JavaScript","TypeScript","Rust","Go","Vue","React","Spring Boot","小程序"]}}"#,
        ),
    );
    assert_eq!(
        created_value(&store.categories),
        v(
            r#"{"version":1,"last_updated":"2024-05-01T12:00:00Z","data":{"categories":["工作","个人","学习","测试"]}}"#,
        ),
    );
    assert_eq!(
        created_value(&store.claude_profiles),
        v(r#"{"version":1,"last_updated":"2024-05-01T12:00:00Z","data":{"environments":{}}}"#),
    );
    assert_eq!(
        created_value(&store.stats_cache),
        v(r#"{"version":1,"last_updated":"2024-05-01T12:00:00Z","data":{}}"#),
    );
}

#[test]
fn scenario_categories_found_under_tags_file() {
    let mut store = fresh_store();
    let mut legacy = LegacySnapshot::empty();
    legacy.tags = LegacySource::Found(String::from(r#"["alpha","beta"]"#));
    let result = run_migrations(&mut store, &legacy, &now());
    assert!(result.success);
    assert_eq!(result.migrated_items, vec![String::from("categories (2 categories)")]);
    assert_eq!(
        created_value(&store.categories),
        v(
            r#"{"version":1,"last_updated":"2024-05-01T12:00:00Z","data":{"categories":["alpha","beta"]}}"#,
        ),
    );
}

#[test]
fn categories_file_is_probed_before_tags_file() {
    let mut store = fresh_store();
    let mut legacy = LegacySnapshot::empty();
    legacy.categories = LegacySource::Found(String::from(r#"["x"]"#));
    legacy.tags = LegacySource::Found(String::from(r#"["y","z"]"#));
    let result = run_migrations(&mut store, &legacy, &now());
    assert!(result.success);
    assert_eq!(result.migrated_items, vec![String::from("categories (1 categories)")]);
    assert_eq!(
        created_value(&store.categories),
        v(
            r#"{"version":1,"last_updated":"2024-05-01T12:00:00Z","data":{"categories":["x"]}}"#,
        ),
    );
}

#[test]
fn unreadable_categories_file_blocks_the_tags_fallback() {
    let mut store = fresh_store();
    let mut legacy = LegacySnapshot::empty();
    legacy.categories = LegacySource::Unreadable;
    legacy.tags = LegacySource::Found(String::from(r#"["y"]"#));
    let result = run_migrations(&mut store, &legacy, &now());
    assert!(result.success);
    assert_eq!(
        result.warnings,
        vec![String::from("categories migration failed: unreadable legacy file")],
    );
    // The backfill still leaves the curated defaults behind.
    assert_eq!(
        created_value(&store.categories),
        v(
            r#"{"version":1,"last_updated":"2024-05-01T12:00:00Z","data":{"categories":["工作","个人","学习","测试"]}}"#,
        ),
    );
}

#[test]
fn corrupted_projects_source_is_critical() {
    let mut store = fresh_store();
    let mut legacy = LegacySnapshot::empty();
    legacy.projects = LegacySource::Found(String::from("not json at all"));
    let result = run_migrations(&mut store, &legacy, &now());
    assert!(!result.success);
    assert_eq!(result.errors, vec![String::from("projects migration failed: invalid JSON")]);
    // No legacy data was written; the backfill put the empty default there.
    assert_eq!(
        created_value(&store.projects),
        v(r#"{"version":1,"last_updated":"2024-05-01T12:00:00Z","data":{"projects":[]}}"#),
    );
}

#[test]
fn unrecognized_projects_shape_is_critical() {
    let mut store = fresh_store();
    let mut legacy = LegacySnapshot::empty();
    legacy.projects = LegacySource::Found(String::from(r#"{"other":true}"#));
    let result = run_migrations(&mut store, &legacy, &now());
    assert!(!result.success);
    assert_eq!(
        result.errors,
        vec![String::from("projects migration failed: unrecognized legacy format")],
    );
}

#[test]
fn corrupted_stats_cache_is_noncritical() {
    let mut store = fresh_store();
    let mut legacy = LegacySnapshot::empty();
    legacy.stats_cache = LegacySource::Found(String::from("{oops"));
    let result = run_migrations(&mut store, &legacy, &now());
    assert!(result.success);
    assert_eq!(
        result.warnings,
        vec![String::from("stats cache migration failed (will be rebuilt): invalid JSON")],
    );
    assert_eq!(
        created_value(&store.stats_cache),
        v(r#"{"version":1,"last_updated":"2024-05-01T12:00:00Z","data":{}}"#),
    );
}

#[test]
fn stats_cache_content_is_kept_whole() {
    let mut store = fresh_store();
    let mut legacy = LegacySnapshot::empty();
    legacy.stats_cache = LegacySource::Found(String::from(r#"{"total":3,"hits":[1,2]}"#));
    let result = run_migrations(&mut store, &legacy, &now());
    assert!(result.success);
    assert_eq!(result.migrated_items, vec![String::from("stats cache")]);
    assert_eq!(
        created_value(&store.stats_cache),
        v(
            r#"{"version":1,"last_updated":"2024-05-01T12:00:00Z","data":{"total":3,"hits":[1,2]}}"#,
        ),
    );
}

#[test]
fn unreadable_labels_source_is_a_warning() {
    let mut store = fresh_store();
    let mut legacy = LegacySnapshot::empty();
    legacy.labels = LegacySource::Unreadable;
    let result = run_migrations(&mut store, &legacy, &now());
    assert!(result.success);
    assert_eq!(result.warnings, vec![String::from("labels migration failed: unreadable legacy file")]);
}

#[test]
fn legacy_labels_are_migrated_with_count() {
    let mut store = fresh_store();
    let mut legacy = LegacySnapshot::empty();
    legacy.labels = LegacySource::Found(String::from(r#"{"data":{"labels":["a","b","c"]}}"#));
    let result = run_migrations(&mut store, &legacy, &now());
    assert!(result.success);
    assert_eq!(result.migrated_items, vec![String::from("labels (3 labels)")]);
    assert_eq!(
        created_value(&store.labels),
        v(
            r#"{"version":1,"last_updated":"2024-05-01T12:00:00Z","data":{"labels":["a","b","c"]}}"#,
        ),
    );
}

#[test]
fn profiles_are_collected_from_legacy_config_files() {
    let mut store = fresh_store();
    let mut legacy = LegacySnapshot::empty();
    // Profile records are kept whole: every field survives the migration.
    legacy.profile_files = vec![
        (
            String::from("claude_profiles_prod.json"),
            String::from(r#"[{"name":"a","base_url":"https://one.example"},{"name":"b"}]"#),
        ),
        (String::from("claude_profiles_dev.json"), String::from(r#"[{"name":"c","note":7}]"#)),
        (String::from("notes.txt"), String::from("ignored")),
        (String::from("claude_profiles_bad.json"), String::from("{broken")),
        (String::from("claude_profiles_obj.json"), String::from(r#"{"name":"x"}"#)),
    ];
    let result = run_migrations(&mut store, &legacy, &now());
    assert!(result.success);
    assert_eq!(result.migrated_items, vec![String::from("credential profiles (3 profiles)")]);
    assert_eq!(
        created_value(&store.claude_profiles),
        v(
            r#"{"version":1,"last_updated":"2024-05-01T12:00:00Z","data":{"environments":{"prod":{"profiles":[{"name":"a","base_url":"https://one.example"},{"name":"b"}]},"dev":{"profiles":[{"name":"c","note":7}]}}}}"#,
        ),
    );
}

#[test]
fn repeated_environment_names_keep_the_last_profiles() {
    let mut store = fresh_store();
    let mut legacy = LegacySnapshot::empty();
    // Affixes are stripped repeatedly, so both names denote environment `x`.
    legacy.profile_files = vec![
        (String::from("claude_profiles_x.json"), String::from(r#"[{"name":"first"}]"#)),
        (String::from("claude_profiles_x.json.json"), String::from(r#"[{"name":"second"}]"#)),
    ];
    let result = run_migrations(&mut store, &legacy, &now());
    // Both files' profiles are counted, as they are all read in.
    assert_eq!(result.migrated_items, vec![String::from("credential profiles (2 profiles)")]);
    assert_eq!(
        created_value(&store.claude_profiles),
        v(
            r#"{"version":1,"last_updated":"2024-05-01T12:00:00Z","data":{"environments":{"x":{"profiles":[{"name":"second"}]}}}}"#,
        ),
    );
}

#[test]
fn ensure_step_is_idempotent() {
    let mut store = fresh_store();
    store.projects = FileSlot::OnDisk;
    ensure_all_data_files(&mut store, &String::from("t1"));
    assert!(matches!(store.projects, FileSlot::OnDisk));
    let first: Vec<serde_json::Value> = vec![
        created_value(&store.stats_cache),
        created_value(&store.labels),
        created_value(&store.categories),
        created_value(&store.claude_profiles),
        created_value(&store.editors),
    ];
    // A second pass with a different timestamp changes nothing.
    ensure_all_data_files(&mut store, &String::from("t2"));
    assert!(matches!(store.projects, FileSlot::OnDisk));
    let second: Vec<serde_json::Value> = vec![
        created_value(&store.stats_cache),
        created_value(&store.labels),
        created_value(&store.categories),
        created_value(&store.claude_profiles),
        created_value(&store.editors),
    ];
    assert_eq!(first, second);
}

#[test]
fn run_migrations_runs_the_transition_once() {
    let mut store = fresh_store();
    let mut legacy = LegacySnapshot::empty();
    legacy.projects = LegacySource::Found(String::from(r#"[{"id":"p1","name":"Demo"}]"#));
    let r1 = run_migrations(&mut store, &legacy, &String::from("t1"));
    assert_eq!(r1.migrated_items, vec![String::from("projects data (1 projects)")]);
    let first = all_domain_values(&store);
    let marker1 = match &store.marker {
        MarkerSlot::Written(doc) => to_value(doc),
        _ => panic!("expected a written marker"),
    };
    assert_eq!(
        marker1,
        v(
            r#"{"version":1,"last_updated":"t1","data":{"last_migration_version":1,"migrations":[{"id":"v1_initial","completed_at":"t1","success":true}]}}"#,
        ),
    );
    // A second run performs zero writes and reports nothing migrated.
    let r2 = run_migrations(&mut store, &legacy, &String::from("t2"));
    assert!(r2.success);
    assert!(r2.migrated_items.is_empty());
    assert!(r2.errors.is_empty());
    assert!(r2.warnings.is_empty());
    let second = all_domain_values(&store);
    assert_eq!(first, second);
    let marker2 = match &store.marker {
        MarkerSlot::Written(doc) => to_value(doc),
        _ => panic!("expected the marker to stay written"),
    };
    assert_eq!(marker1, marker2);
}

#[test]
fn marker_on_disk_prevents_a_second_transition() {
    let mut store = fresh_store();
    store.marker = MarkerSlot::OnDisk(String::from(
        r#"{"version":1,"last_updated":"t0","data":{"last_migration_version":1,"migrations":[]}}"#,
    ));
    let mut legacy = LegacySnapshot::empty();
    legacy.projects = LegacySource::Found(String::from(r#"[{"id":"p1","name":"Demo"}]"#));
    let result = run_migrations(&mut store, &legacy, &now());
    assert!(result.success);
    assert!(result.migrated_items.is_empty());
    // The legacy data was not migrated; the backfill wrote the default.
    assert_eq!(
        created_value(&store.projects),
        v(r#"{"version":1,"last_updated":"2024-05-01T12:00:00Z","data":{"projects":[]}}"#),
    );
    // The marker file was not rewritten.
    assert!(matches!(store.marker, MarkerSlot::OnDisk(_)));
}

#[test]
fn malformed_marker_reads_as_never_migrated() {
    let mut store = fresh_store();
    store.marker = MarkerSlot::OnDisk(String::from("garbage"));
    let mut legacy = LegacySnapshot::empty();
    legacy.labels = LegacySource::Found(String::from(r#"["l1"]"#));
    let result = run_migrations(&mut store, &legacy, &now());
    assert_eq!(result.migrated_items, vec![String::from("labels (1 labels)")]);
    assert!(matches!(store.marker, MarkerSlot::Written(_)));
}

#[test]
fn unreadable_stats_cache_is_a_warning_with_default_file() {
    let mut store = fresh_store();
    let mut legacy = LegacySnapshot::empty();
    legacy.stats_cache = LegacySource::Unreadable;
    let result = run_migrations(&mut store, &legacy, &now());
    assert!(result.success);
    assert_eq!(
        result.warnings,
        vec![String::from(
            "stats cache migration failed (will be rebuilt): unreadable legacy file",
        )],
    );
    assert_eq!(
        created_value(&store.stats_cache),
        v(r#"{"version":1,"last_updated":"2024-05-01T12:00:00Z","data":{}}"#),
    );
}

#[test]
fn existing_destination_is_never_overwritten() {
    let mut store = fresh_store();
    store.projects = FileSlot::OnDisk;
    let mut legacy = LegacySnapshot::empty();
    legacy.projects = LegacySource::Found(String::from(r#"[{"id":"p1","name":"Demo"}]"#));
    let result = run_migrations(&mut store, &legacy, &now());
    assert!(result.success);
    assert!(result.migrated_items.is_empty());
    // The file on disk stays exactly as it is.
    assert!(matches!(store.projects, FileSlot::OnDisk));
    // The marker still records that the transition ran.
    assert!(matches!(store.marker, MarkerSlot::Written(_)));
}
