use std::path::PathBuf;

use jira_db::config::{
    DatabaseConfig, JiraConfig, LogConfig, ProjectConfig, Settings,
};

fn test_settings() -> Settings {
    Settings {
        jira: JiraConfig {
            endpoint: "https://test.atlassian.net".into(),
            username: "test@example.com".into(),
            api_key: "test-key".into(),
        },
        projects: vec![],
        database: DatabaseConfig { path: None, database_dir: "./data".to_string() },
        embeddings: None,
        log: None,
        debug_mode: false,
    }
}

fn project(key: &str, enabled: bool) -> ProjectConfig {
    ProjectConfig {
        id: format!("id-{}", key),
        key: key.to_string(),
        name: format!("Project {}", key),
        sync_enabled: enabled,
        last_synced: None,
        sync_checkpoint: None,
        snapshot_checkpoint: None,
    }
}

#[test]
fn test_validate() {
    let mut settings = test_settings();

    assert!(settings.validate().is_ok());

    settings.jira.api_key = "your-api-key-here".into();
    assert!(settings.validate().is_err());
}

#[test]
fn test_get_database_path_for_project() {
    let settings = test_settings();

    let path = settings.get_database_path_for_project("MYPROJ");
    assert_eq!(PathBuf::from(path), PathBuf::from("./data/MYPROJ.duckdb"));
}

#[test]
fn test_log_config_defaults() {
    let log_config = LogConfig::default();
    assert!(!log_config.file_enabled);
    assert_eq!(log_config.level, "info");
    assert_eq!(log_config.max_files, 10);
    assert!(log_config.file_dir.is_none());
}

#[test]
fn test_get_log_dir() {
    let settings = test_settings();

    assert_eq!(PathBuf::from(settings.get_log_dir()), PathBuf::from("./data/logs"));

    let settings_with_log = Settings {
        log: Some(LogConfig {
            file_enabled: true,
            file_dir: Some("/custom/logs".to_string()),
            level: "debug".to_string(),
            max_files: 5,
        }),
        ..settings
    };
    assert_eq!(PathBuf::from(settings_with_log.get_log_dir()), PathBuf::from("/custom/logs"));
}

#[test]
fn validate_reports_each_missing_part() {
    let mut settings = test_settings();
    settings.jira.endpoint = String::new();
    let e = settings.validate().unwrap_err();
    assert!(matches!(e, jira_db::error::DomainError::Validation(ref m) if m == "JIRA endpoint cannot be empty"));

    let mut settings = test_settings();
    settings.jira.username = String::new();
    let e = settings.validate().unwrap_err();
    assert!(matches!(e, jira_db::error::DomainError::Validation(ref m) if m == "JIRA username cannot be empty"));

    let mut settings = test_settings();
    settings.jira.api_key = String::new();
    let e = settings.validate().unwrap_err();
    assert!(matches!(e, jira_db::error::DomainError::Validation(ref m) if m == "JIRA API key must be configured"));
}

#[test]
fn upsert_replaces_or_appends() {
    let mut settings = test_settings();
    settings.upsert_project(project("A", false));
    settings.upsert_project(project("B", false));
    assert_eq!(settings.projects.len(), 2);

    settings.upsert_project(project("A", true));
    assert_eq!(settings.projects.len(), 2);
    assert_eq!(settings.projects[0].key, "A");
    assert!(settings.projects[0].sync_enabled);
    assert!(settings.find_project("A").unwrap().sync_enabled);
    assert!(!settings.find_project("B").unwrap().sync_enabled);
    assert!(settings.find_project("C").is_none());
}

#[test]
fn sync_enabled_projects_keeps_order() {
    let mut settings = test_settings();
    settings.projects = vec![project("A", true), project("B", false), project("C", true)];
    let keys: Vec<&str> = settings.sync_enabled_projects().iter().map(|p| p.key.as_str()).collect();
    assert_eq!(keys, vec!["A", "C"]);
}

#[test]
fn find_project_mut_changes_in_place() {
    let mut settings = test_settings();
    settings.projects = vec![project("A", false), project("B", false)];
    settings.find_project_mut("B").unwrap().sync_enabled = true;
    assert!(settings.projects[1].sync_enabled);
    assert!(settings.find_project_mut("Z").is_none());
    assert_eq!(settings.project_position("B"), Some(1));
}

#[test]
fn create_default_has_placeholder_key() {
    let settings = Settings::create_default();
    assert_eq!(settings.jira.api_key, "your-api-key-here");
    assert!(settings.validate().is_err());
    assert_eq!(Settings::default_path().unwrap(), "./data/settings.json");
}
