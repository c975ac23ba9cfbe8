use jira_db::expanded::{
    add_column_failure, add_column_sql, expanded_count_sql, fill_expanded_sql, lowercase_names,
    plan_new_columns, raw_issue_count_sql, readable_view_sql, snapshots_expanded_readable_sql,
    snapshots_expanded_sql, snapshots_readable_sql, FieldColumn,
};
use jira_db::error::DomainError;
use jira_db::schema::Schema;

fn field(id: &str, name: &str, expandable: bool) -> FieldColumn {
    FieldColumn {
        id: id.into(),
        name: name.into(),
        expandable,
        column_name: id.to_lowercase(),
        column_type: "VARCHAR".into(),
    }
}

#[test]
fn new_columns_skip_base_and_existing_ones() {
    let fields = vec![
        field("summary", "Summary", true),
        field("IssueType", "Issue Type", true),
        field("customfield_1", "Points", true),
        field("customfield_2", "Team", false),
        field("customfield_3", "Size", true),
    ];
    let existing = vec!["customfield_3".to_string()];
    let plan = plan_new_columns(&fields, &existing);
    assert_eq!(plan, vec![("customfield_1".to_string(), "VARCHAR".to_string())]);
    assert_eq!(add_column_sql("customfield_1", "VARCHAR"), "ALTER TABLE issues_expanded ADD COLUMN \"customfield_1\" VARCHAR");
    assert!(add_column_failure("c", "Column with name c already exists!").is_none());
    assert!(add_column_failure("c", "duplicate column name").is_none());
    match add_column_failure("c", "disk full") {
        Some(DomainError::Repository(m)) => assert_eq!(m, "Failed to add column c: disk full"),
        _ => panic!("expected a repository error"),
    }
    assert_eq!(lowercase_names(&vec!["Summary".to_string()]), vec!["summary".to_string()]);
}

#[test]
fn fill_statement_reads_core_and_custom_columns() {
    let columns = vec!["id".to_string(), "summary".to_string(), "customfield_7".to_string()];
    let sql = fill_expanded_sql(&columns, Some("10000"), "2024-01-01T00:00:00Z");
    assert!(sql.starts_with("\n            INSERT INTO issues_expanded (id, project_id, issue_key, summary,"));
    assert!(sql.contains("due_date, customfield_7, synced_at)"));
    assert!(sql.contains("i.raw_data->'fields'->'customfield_7'->>'name',"));
    assert!(sql.contains(") AS \"customfield_7\",\n                '2024-01-01T00:00:00Z' AS synced_at"));
    assert!(sql.contains("FROM issues i\n            WHERE i.project_id = '10000'\n"));
    assert!(sql.contains("ON CONFLICT (id) DO UPDATE SET\n                project_id = excluded.project_id, "));
    assert!(!sql.contains("id = excluded.id, project_id"));
    assert!(sql.contains("customfield_7 = excluded.customfield_7,\n                synced_at = excluded.synced_at"));
    let all = fill_expanded_sql(&vec![], None, "now");
    assert!(all.contains("FROM issues i\n            \n            ON CONFLICT"));
    assert_eq!(raw_issue_count_sql(None), "SELECT COUNT(*) FROM issues WHERE raw_data IS NOT NULL");
    assert_eq!(raw_issue_count_sql(Some("7")), "SELECT COUNT(*) FROM issues WHERE project_id = '7' AND raw_data IS NOT NULL");
    assert_eq!(expanded_count_sql(Some("7")), "SELECT COUNT(*) FROM issues_expanded WHERE project_id = '7'");
}

#[test]
fn readable_view_uses_field_names() {
    let columns = vec!["issue_type".to_string(), "id".to_string(), "customfield_9".to_string(), "odd".to_string()];
    let fields = vec![
        field("issuetype", "Issue Type", true),
        field("customfield_9", "Say \"hi\"", true),
        field("customfield_9", "Greeting", true),
    ];
    let sql = readable_view_sql(&columns, &fields);
    assert_eq!(
        sql,
        "\n            CREATE OR REPLACE VIEW issues_readable AS\n            SELECT\n                \"id\" AS \"id\",\n    \"issue_type\" AS \"Issue Type\",\n    \"customfield_9\" AS \"Greeting\",\n    \"odd\" AS \"odd\"\n            FROM issues_expanded\n            "
    );
}

#[test]
fn snapshot_views() {
    let fields = vec![
        field("customfield_5", "Story \"Points\"", true),
        field("status", "Status", true),
        field("customfield_6", "Hidden", false),
        field("updated", "Updated", true),
    ];
    let readable = snapshots_readable_sql(&fields);
    assert!(readable.contains("s.\"issue_id\" AS \"issue_id\",\n    s.\"issue_key\" AS \"issue_key\""));
    assert!(readable.contains("s.\"status\" AS \"Status\""));
    assert!(readable.contains("s.\"updated_date\" AS \"Updated\""));
    assert!(readable.ends_with("FROM issue_snapshots s\n            "));

    let expanded = snapshots_expanded_sql(&fields);
    assert!(expanded.contains("COALESCE(s.due_date, TRY_CAST(s.raw_data->'fields'->>'duedate' AS TIMESTAMP)) AS \"due_date\""));
    assert!(expanded.contains("s.raw_data->'fields'->>'customfield_5'\n                    ) AS \"customfield_5\""));
    assert!(!expanded.contains("customfield_6"));

    let expanded_readable = snapshots_expanded_readable_sql(&fields);
    assert!(expanded_readable.contains("\"customfield_5\" AS \"Story \"\"Points\"\"\""));
    assert!(expanded_readable.contains("\"status\" AS \"Status\""));
    assert!(expanded_readable.ends_with("FROM issue_snapshots_expanded\n            "));
}

#[test]
fn schema_statements() {
    let steps = Schema::steps();
    assert_eq!(steps.len(), 30);
    assert!(steps[0].0.contains("CREATE TABLE IF NOT EXISTS projects"));
    assert_eq!(steps[0].1, "Failed to create projects table");
    assert_eq!(Schema::raw_steps().len(), 4);
    assert_eq!(Schema::migrations()[0], ("issues", "sprint", "VARCHAR"));
    assert_eq!(
        Schema::column_count_query("issues", "team"),
        "SELECT COUNT(*) FROM information_schema.columns WHERE table_name = 'issues' AND column_name = 'team'"
    );
    assert_eq!(Schema::add_column_statement("issues", "team", "VARCHAR"), "ALTER TABLE issues ADD COLUMN team VARCHAR");
    match Schema::add_column_failure("issues", "team", "boom") {
        DomainError::Repository(m) => assert_eq!(m, "Failed to add column issues.team: boom"),
        _ => panic!("expected a repository error"),
    }
    match Schema::step_failure("Failed to create index", "boom") {
        DomainError::Repository(m) => assert_eq!(m, "Failed to create index: boom"),
        _ => panic!("expected a repository error"),
    }
}

#[test]
fn planning_again_adds_nothing() {
    let fields = vec![
        field("customfield_10016", "Story Points", true),
        field("customfield_10020", "Sprint", true),
        field("summary", "Summary", true),
        field("customfield_10001", "Hidden", false),
    ];
    let existing = vec!["id".to_string(), "summary".to_string()];
    let first = plan_new_columns(&fields, &existing);
    assert_eq!(first.len(), 2);
    let mut later = existing.clone();
    later.extend(first.iter().map(|(name, _)| name.clone()));
    assert!(plan_new_columns(&fields, &later).is_empty());
}

#[test]
fn the_expanded_table_has_every_filled_column() {
    let table = jira_db::schema::CREATE_ISSUES_EXPANDED_TABLE;
    for (column, _) in jira_db::expanded::core_column_table() {
        assert!(
            table.lines().any(|l| l.trim().starts_with(&format!("{} ", column))),
            "column {} is missing from the expanded table",
            column
        );
    }
}

#[test]
fn added_columns_are_recorded_once() {
    let mut added: Vec<String> = Vec::new();
    assert!(jira_db::expanded::record_added_column(&mut added, "story_points", None).is_ok());
    let again = jira_db::expanded::record_added_column(
        &mut added,
        "story_points",
        Some("Catalog Error: Column with name story_points already exists!".to_string()),
    );
    assert!(again.is_ok());
    assert_eq!(added, vec!["story_points".to_string()]);
    match jira_db::expanded::record_added_column(&mut added, "x", Some("disk full".to_string())) {
        Err(DomainError::Repository(m)) => assert_eq!(m, "Failed to add column x: disk full"),
        other => panic!("unexpected {:?}", other),
    }
    assert_eq!(added.len(), 1);
}
