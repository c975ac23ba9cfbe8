use jira_db::config::{
    database_key_of, project_database_keys, DatabaseConfig, JiraConfig, ProjectConfig, Settings,
    SyncCheckpoint,
};
use jira_db::report::{fill_report_template, get_css, replace_all};
use jira_db::service::{
    mark_synced, projects_to_sync, record_sync_outcome, set_checkpoint, ServiceError,
};
use jira_db::time::UtcTime;

fn settings_with(projects: Vec<ProjectConfig>, database_dir: &str) -> Settings {
    Settings {
        jira: JiraConfig { endpoint: "e".into(), username: "u".into(), api_key: "k".into() },
        projects,
        database: DatabaseConfig { path: None, database_dir: database_dir.into() },
        embeddings: None,
        log: None,
        debug_mode: false,
    }
}

fn project(key: &str, enabled: bool) -> ProjectConfig {
    ProjectConfig {
        id: format!("id-{}", key),
        key: key.into(),
        name: key.into(),
        sync_enabled: enabled,
        last_synced: None,
        sync_checkpoint: None,
        snapshot_checkpoint: None,
    }
}

fn checkpoint(key: &str, done: usize) -> SyncCheckpoint {
    SyncCheckpoint {
        last_issue_updated_at: UtcTime { secs: 1_700_000_000, nanos: 0 },
        last_issue_key: key.into(),
        items_processed: done,
        total_items: 100,
    }
}

#[test]
fn sync_targets_are_the_enabled_or_the_named_projects() {
    let s = settings_with(vec![project("A", true), project("B", false), project("C", true)], "./data");
    let all = projects_to_sync(&s, None).unwrap();
    let keys: Vec<&str> = all.iter().map(|t| t.key.as_str()).collect();
    assert_eq!(keys, vec!["A", "C"]);
    assert_eq!(all[1].id, "id-C");

    let named = projects_to_sync(&s, Some("B")).unwrap();
    assert_eq!(named.len(), 1);
    assert_eq!(named[0].key, "B");

    match projects_to_sync(&s, Some("Z")) {
        Err(ServiceError::InvalidRequest(m)) => assert_eq!(m, "No projects to sync"),
        other => panic!("unexpected {:?}", other),
    }
    let none_enabled = settings_with(vec![project("A", false)], "./data");
    assert!(projects_to_sync(&none_enabled, None).is_err());
}

#[test]
fn checkpoints_follow_the_sync_outcome() {
    let mut s = settings_with(vec![project("A", true), project("B", true)], "./data");
    set_checkpoint(&mut s, "B", Some(checkpoint("B-7", 7)));
    assert_eq!(s.projects[1].sync_checkpoint.as_ref().unwrap().items_processed, 7);
    assert!(s.projects[0].sync_checkpoint.is_none());

    // A failure without a new checkpoint keeps the old one.
    record_sync_outcome(&mut s, "B", false, None);
    assert_eq!(s.projects[1].sync_checkpoint.as_ref().unwrap().last_issue_key, "B-7");

    // A failure with a checkpoint records it.
    record_sync_outcome(&mut s, "B", false, Some(checkpoint("B-9", 9)));
    assert_eq!(s.projects[1].sync_checkpoint.as_ref().unwrap().items_processed, 9);

    // A success clears it.
    record_sync_outcome(&mut s, "B", true, Some(checkpoint("B-10", 10)));
    assert!(s.projects[1].sync_checkpoint.is_none());

    // An unknown key changes nothing.
    set_checkpoint(&mut s, "Z", Some(checkpoint("Z-1", 1)));
    assert!(s.projects.iter().all(|p| p.sync_checkpoint.is_none()));

    let targets = projects_to_sync(&s, Some("A")).unwrap();
    assert!(targets[0].checkpoint.is_none());
}

#[test]
fn database_files_name_their_projects() {
    assert_eq!(database_key_of("PROJ.duckdb"), Some("PROJ".to_string()));
    assert_eq!(database_key_of("my.proj.duckdb"), Some("my.proj".to_string()));
    assert_eq!(database_key_of(".duckdb"), None);
    assert_eq!(database_key_of("PROJ.duckdb.wal"), None);
    assert_eq!(database_key_of("notes.txt"), None);
    assert_eq!(database_key_of("README"), None);
    let names = vec![
        "A.duckdb".to_string(),
        "A.duckdb.wal".to_string(),
        "settings.json".to_string(),
        "B.duckdb".to_string(),
    ];
    assert_eq!(project_database_keys(&names), vec!["A".to_string(), "B".to_string()]);
}

#[test]
fn relative_database_dirs_resolve_against_the_settings_file() {
    let relative = settings_with(vec![], "data");
    assert_eq!(
        relative.resolved_database_dir("/home/u/.config/jira-db/settings.json"),
        Some("/home/u/.config/jira-db/data".to_string())
    );
    let absolute = settings_with(vec![], "/var/lib/jira");
    assert_eq!(absolute.resolved_database_dir("/home/u/settings.json"), None);
    assert_eq!(relative.resolved_database_dir("/"), None);
}

#[test]
fn report_pages_fill_every_placeholder() {
    assert_eq!(replace_all("a{x}b{x}", "{x}", "-"), "a-b-");
    assert_eq!(replace_all("aaa", "aa", "b"), "ba");
    assert_eq!(replace_all("abc", "zz", "y"), "abc");

    let page = fill_report_template("2024-06-01", "2024-06-01 10:00:00", 42, "{\"k\":1}", "run();");
    assert!(page.contains("2024-06-01"));
    assert!(page.contains("42"));
    assert!(page.contains("{\"k\":1}"));
    assert!(page.contains("run();"));
    assert!(page.contains(get_css()));
    for placeholder in ["{date}", "{generated_at}", "{total_issues}", "{css}", "{json_data}", "{js}"] {
        assert!(!page.contains(placeholder), "{} left in the page", placeholder);
    }
}

#[test]
fn synced_projects_get_their_time() {
    let mut s = settings_with(vec![project("A", true), project("B", true), project("A", true)], "./data");
    let now = UtcTime { secs: 1_717_000_000, nanos: 5 };
    mark_synced(&mut s, &vec!["A".to_string(), "Z".to_string()], now);
    assert_eq!(s.projects[0].last_synced, Some(now));
    assert_eq!(s.projects[1].last_synced, None);
    // Only the first project with a key is marked.
    assert_eq!(s.projects[2].last_synced, None);
    assert_eq!(s.projects.len(), 3);
}

#[test]
fn next_sync_starts_where_the_last_one_left_off() {
    let mut s = settings_with(vec![project("A", true), project("B", true)], "./data");
    record_sync_outcome(&mut s, "B", false, Some(checkpoint("B-40", 40)));
    let targets = projects_to_sync(&s, Some("B")).unwrap();
    assert_eq!(targets.len(), 1);
    assert_eq!(targets[0].checkpoint.as_ref().unwrap().last_issue_key, "B-40");

    // A successful sync leaves the project in the normal state.
    let now = UtcTime { secs: 1_718_000_000, nanos: 0 };
    record_sync_outcome(&mut s, "B", true, None);
    mark_synced(&mut s, &vec!["B".to_string()], now);
    assert_eq!(s.projects[1].last_synced, Some(now));
    assert!(s.projects[1].sync_checkpoint.is_none());
    assert!(projects_to_sync(&s, Some("B")).unwrap()[0].checkpoint.is_none());
    assert_eq!(s.projects[0].last_synced, None);
}

#[test]
fn a_projects_database_file_lists_it_again() {
    let s = settings_with(vec![], "/data/jira");
    let path = s.get_database_path_for_project("PROJ");
    assert_eq!(path, "/data/jira/PROJ.duckdb");
    let file = path.rsplit('/').next().unwrap().to_string();
    assert_eq!(database_key_of(&file), Some("PROJ".to_string()));
    assert_eq!(project_database_keys(&vec![file]), vec!["PROJ".to_string()]);
}
