use jira_db::config::{DatabaseConfig, JiraConfig, ProjectConfig, Settings};
use jira_db::embeddings::EmbeddingProviderType;
use jira_db::report::{get_css, get_html_template};
use jira_db::service::{
    ensure_db_file_path, list_projects, merge_fetched_projects, parse_provider, set_project_sync,
    FetchedProject, ServiceError,
};

fn settings_with(projects: Vec<ProjectConfig>) -> Settings {
    Settings {
        jira: JiraConfig { endpoint: "e".into(), username: "u".into(), api_key: "k".into() },
        projects,
        database: DatabaseConfig { path: None, database_dir: "./data".into() },
        embeddings: None,
        log: None,
        debug_mode: false,
    }
}

fn project(key: &str, enabled: bool) -> ProjectConfig {
    ProjectConfig {
        id: format!("id-{}", key),
        key: key.into(),
        name: key.into(),
        sync_enabled: enabled,
        last_synced: None,
        sync_checkpoint: None,
        snapshot_checkpoint: None,
    }
}

#[test]
fn enable_and_disable_projects() {
    let mut s = settings_with(vec![project("A", false), project("B", false)]);
    let p = set_project_sync(&mut s, "B", true).unwrap();
    assert!(p.enabled);
    assert_eq!(p.key, "B");
    assert!(s.projects[1].sync_enabled);
    assert!(!s.projects[0].sync_enabled);
    let p = set_project_sync(&mut s, "B", false).unwrap();
    assert!(!p.enabled);
    match set_project_sync(&mut s, "Z", true) {
        Err(ServiceError::NotFound(m)) => assert_eq!(m, "Project not found"),
        _ => panic!("expected not found"),
    }
    let listed = list_projects(&s);
    assert_eq!(listed.len(), 2);
    assert_eq!(listed[0].key, "A");
    assert!(listed[0].description.is_none());
}

#[test]
fn fetched_projects_are_merged() {
    let mut s = settings_with(vec![project("A", true)]);
    let fetched = vec![
        FetchedProject { id: "1".into(), key: "A".into(), name: "Other".into() },
        FetchedProject { id: "2".into(), key: "B".into(), name: "Bee".into() },
        FetchedProject { id: "3".into(), key: "B".into(), name: "Again".into() },
    ];
    assert_eq!(merge_fetched_projects(&mut s, &fetched), 3);
    assert_eq!(s.projects.len(), 2);
    assert_eq!(s.projects[0].name, "A");
    assert!(s.projects[0].sync_enabled);
    assert_eq!(s.projects[1].name, "Bee");
    assert!(!s.projects[1].sync_enabled);
}

#[test]
fn providers_and_paths() {
    assert_eq!(parse_provider("Cohere").unwrap(), EmbeddingProviderType::Cohere);
    match parse_provider("x") {
        Err(ServiceError::InvalidRequest(m)) => {
            assert_eq!(m, "Unknown embedding provider: x. Supported: openai, ollama, cohere")
        }
        _ => panic!("expected an invalid request"),
    }
    assert_eq!(ensure_db_file_path("/var/db", true), "/var/db/jira.duckdb");
    assert_eq!(ensure_db_file_path("./data/", false), "./data/jira.duckdb");
    assert_eq!(ensure_db_file_path(".", false), "./jira.duckdb");
    assert_eq!(ensure_db_file_path("data/my.db", false), "data/my.db");
    assert_eq!(ensure_db_file_path("data", false), "data");
}

#[test]
fn report_assets() {
    assert!(get_css().contains(":root"));
    let t = get_html_template();
    assert!(t.starts_with("<!DOCTYPE html>"));
    assert!(t.contains("{css}") && t.contains("{json_data}") && t.contains("{js}"));
}

#[test]
fn database_file_paths_for_dirs_and_files() {
    assert_eq!(ensure_db_file_path(".", true), "./jira.duckdb");
    assert_eq!(ensure_db_file_path("/nonexistent/data/", false), "/nonexistent/data/jira.duckdb");
    assert_eq!(ensure_db_file_path("/nonexistent/x.duckdb", false), "/nonexistent/x.duckdb");
    assert_eq!(ensure_db_file_path("..", false), "../jira.duckdb");
    assert_eq!(ensure_db_file_path("/nonexistent/data.d/", false), "/nonexistent/data.d/");
    assert_eq!(ensure_db_file_path("/nonexistent/db", false), "/nonexistent/db");
    assert_eq!(jira_db::config::database_path_in("/data/", "P"), "/data/P.duckdb");
    assert_eq!(jira_db::config::database_path_in("", "P"), "P.duckdb");
}
