//! The tables, sequences and indexes of a project database, and the
//! migrations that bring older databases up to date.
use vstd::prelude::*;

use crate::error::DomainError;
use crate::text::owned;

verus! {

/// Creates the `projects` table.
pub const CREATE_PROJECTS_TABLE: &'static str = r#"
            CREATE TABLE IF NOT EXISTS projects (
                id VARCHAR PRIMARY KEY,
                key VARCHAR NOT NULL,
                name VARCHAR NOT NULL,
                description TEXT,
                raw_data JSON,
                created_at TIMESTAMPTZ DEFAULT CURRENT_TIMESTAMP,
                updated_at TIMESTAMPTZ DEFAULT CURRENT_TIMESTAMP
            )
            "#;

/// Creates the `issues` table.
pub const CREATE_ISSUES_TABLE: &'static str = r#"
            CREATE TABLE IF NOT EXISTS issues (
                id VARCHAR PRIMARY KEY,
                project_id VARCHAR NOT NULL,
                key VARCHAR NOT NULL,
                summary TEXT NOT NULL,
                description TEXT,
                status VARCHAR,
                priority VARCHAR,
                assignee VARCHAR,
                reporter VARCHAR,
                issue_type VARCHAR,
                resolution VARCHAR,
                labels JSON,
                components JSON,
                fix_versions JSON,
                sprint VARCHAR,
                parent_key VARCHAR,
                created_date TIMESTAMPTZ,
                updated_date TIMESTAMPTZ,
                raw_data JSON,
                synced_at TIMESTAMPTZ DEFAULT CURRENT_TIMESTAMP
            )
            "#;

/// Creates the `sync_history_id_seq` sequence.
pub const CREATE_SYNC_HISTORY_ID_SEQ_SEQUENCE: &'static str = "CREATE SEQUENCE IF NOT EXISTS sync_history_id_seq START 1";

/// Creates the `sync_history` table.
pub const CREATE_SYNC_HISTORY_TABLE: &'static str = r#"
            CREATE TABLE IF NOT EXISTS sync_history (
                id INTEGER PRIMARY KEY DEFAULT nextval('sync_history_id_seq'),
                project_id VARCHAR NOT NULL,
                sync_type VARCHAR NOT NULL,
                started_at TIMESTAMPTZ NOT NULL,
                completed_at TIMESTAMPTZ,
                status VARCHAR NOT NULL,
                items_synced INTEGER,
                error_message TEXT
            )
            "#;

/// Creates the `statuses` table.
pub const CREATE_STATUSES_TABLE: &'static str = r#"
            CREATE TABLE IF NOT EXISTS statuses (
                project_id VARCHAR NOT NULL,
                name VARCHAR NOT NULL,
                description VARCHAR,
                category VARCHAR,
                created_at TIMESTAMPTZ NOT NULL,
                updated_at TIMESTAMPTZ NOT NULL,
                PRIMARY KEY (project_id, name)
            )
            "#;

/// Creates the `priorities` table.
pub const CREATE_PRIORITIES_TABLE: &'static str = r#"
            CREATE TABLE IF NOT EXISTS priorities (
                project_id VARCHAR NOT NULL,
                name VARCHAR NOT NULL,
                description VARCHAR,
                icon_url VARCHAR,
                created_at TIMESTAMPTZ NOT NULL,
                updated_at TIMESTAMPTZ NOT NULL,
                PRIMARY KEY (project_id, name)
            )
            "#;

/// Creates the `issue_types` table.
pub const CREATE_ISSUE_TYPES_TABLE: &'static str = r#"
            CREATE TABLE IF NOT EXISTS issue_types (
                project_id VARCHAR NOT NULL,
                name VARCHAR NOT NULL,
                description VARCHAR,
                icon_url VARCHAR,
                subtask BOOLEAN DEFAULT false,
                created_at TIMESTAMPTZ NOT NULL,
                updated_at TIMESTAMPTZ NOT NULL,
                PRIMARY KEY (project_id, name)
            )
            "#;

/// Creates the `labels` table.
pub const CREATE_LABELS_TABLE: &'static str = r#"
            CREATE TABLE IF NOT EXISTS labels (
                project_id VARCHAR NOT NULL,
                name VARCHAR NOT NULL,
                created_at TIMESTAMPTZ NOT NULL,
                updated_at TIMESTAMPTZ NOT NULL,
                PRIMARY KEY (project_id, name)
            )
            "#;

/// Creates the `components` table.
pub const CREATE_COMPONENTS_TABLE: &'static str = r#"
            CREATE TABLE IF NOT EXISTS components (
                project_id VARCHAR NOT NULL,
                name VARCHAR NOT NULL,
                description VARCHAR,
                lead VARCHAR,
                created_at TIMESTAMPTZ NOT NULL,
                updated_at TIMESTAMPTZ NOT NULL,
                PRIMARY KEY (project_id, name)
            )
            "#;

/// Creates the `fix_versions` table.
pub const CREATE_FIX_VERSIONS_TABLE: &'static str = r#"
            CREATE TABLE IF NOT EXISTS fix_versions (
                project_id VARCHAR NOT NULL,
                name VARCHAR NOT NULL,
                description VARCHAR,
                released BOOLEAN DEFAULT false,
                release_date TIMESTAMPTZ,
                created_at TIMESTAMPTZ NOT NULL,
                updated_at TIMESTAMPTZ NOT NULL,
                PRIMARY KEY (project_id, name)
            )
            "#;

/// Creates the `change_history_id_seq` sequence.
pub const CREATE_CHANGE_HISTORY_ID_SEQ_SEQUENCE: &'static str = "CREATE SEQUENCE IF NOT EXISTS change_history_id_seq START 1";

/// Creates the `issue_change_history` table.
pub const CREATE_ISSUE_CHANGE_HISTORY_TABLE: &'static str = r#"
            CREATE TABLE IF NOT EXISTS issue_change_history (
                id INTEGER PRIMARY KEY DEFAULT nextval('change_history_id_seq'),
                issue_id VARCHAR NOT NULL,
                issue_key VARCHAR NOT NULL,
                history_id VARCHAR NOT NULL,
                author_account_id VARCHAR,
                author_display_name VARCHAR,
                field VARCHAR NOT NULL,
                field_type VARCHAR,
                from_value TEXT,
                from_string TEXT,
                to_value TEXT,
                to_string TEXT,
                changed_at TIMESTAMPTZ NOT NULL,
                created_at TIMESTAMPTZ DEFAULT CURRENT_TIMESTAMP
            )
            "#;

/// Indexes `issue_change_history` by `issue_id`.
pub const CREATE_IDX_CHANGE_HISTORY_ISSUE_ID: &'static str = "CREATE INDEX IF NOT EXISTS idx_change_history_issue_id ON issue_change_history(issue_id)";

/// Indexes `issue_change_history` by `issue_key`.
pub const CREATE_IDX_CHANGE_HISTORY_ISSUE_KEY: &'static str = "CREATE INDEX IF NOT EXISTS idx_change_history_issue_key ON issue_change_history(issue_key)";

/// Indexes `issue_change_history` by `field`.
pub const CREATE_IDX_CHANGE_HISTORY_FIELD: &'static str = "CREATE INDEX IF NOT EXISTS idx_change_history_field ON issue_change_history(field)";

/// Indexes `issue_change_history` by `changed_at`.
pub const CREATE_IDX_CHANGE_HISTORY_CHANGED_AT: &'static str = "CREATE INDEX IF NOT EXISTS idx_change_history_changed_at ON issue_change_history(changed_at)";

/// Creates the `issue_snapshots` table.
pub const CREATE_ISSUE_SNAPSHOTS_TABLE: &'static str = r#"
            CREATE TABLE IF NOT EXISTS issue_snapshots (
                issue_id VARCHAR NOT NULL,
                issue_key VARCHAR NOT NULL,
                project_id VARCHAR NOT NULL,
                version INTEGER NOT NULL,
                valid_from TIMESTAMPTZ NOT NULL,
                valid_to TIMESTAMPTZ,
                summary TEXT NOT NULL,
                description TEXT,
                status VARCHAR,
                priority VARCHAR,
                assignee VARCHAR,
                reporter VARCHAR,
                issue_type VARCHAR,
                resolution VARCHAR,
                labels JSON,
                components JSON,
                fix_versions JSON,
                sprint VARCHAR,
                parent_key VARCHAR,
                raw_data JSON,
                created_at TIMESTAMPTZ DEFAULT CURRENT_TIMESTAMP,
                PRIMARY KEY (issue_id, version)
            )
            "#;

/// Indexes `issue_snapshots` by `issue_key`.
pub const CREATE_IDX_SNAPSHOTS_ISSUE_KEY: &'static str = "CREATE INDEX IF NOT EXISTS idx_snapshots_issue_key ON issue_snapshots(issue_key)";

/// Indexes `issue_snapshots` by `project_id`.
pub const CREATE_IDX_SNAPSHOTS_PROJECT_ID: &'static str = "CREATE INDEX IF NOT EXISTS idx_snapshots_project_id ON issue_snapshots(project_id)";

/// Indexes `issue_snapshots` by `valid_from`.
pub const CREATE_IDX_SNAPSHOTS_VALID_FROM: &'static str = "CREATE INDEX IF NOT EXISTS idx_snapshots_valid_from ON issue_snapshots(valid_from)";

/// Indexes `issue_snapshots` by `valid_to`.
pub const CREATE_IDX_SNAPSHOTS_VALID_TO: &'static str = "CREATE INDEX IF NOT EXISTS idx_snapshots_valid_to ON issue_snapshots(valid_to)";

/// Creates the `jira_fields` table.
pub const CREATE_JIRA_FIELDS_TABLE: &'static str = r#"
            CREATE TABLE IF NOT EXISTS jira_fields (
                id VARCHAR PRIMARY KEY,
                key VARCHAR NOT NULL,
                name VARCHAR NOT NULL,
                custom BOOLEAN DEFAULT false,
                searchable BOOLEAN DEFAULT false,
                navigable BOOLEAN DEFAULT false,
                orderable BOOLEAN DEFAULT false,
                schema_type VARCHAR,
                schema_items VARCHAR,
                schema_system VARCHAR,
                schema_custom VARCHAR,
                schema_custom_id BIGINT,
                created_at TIMESTAMPTZ DEFAULT CURRENT_TIMESTAMP,
                updated_at TIMESTAMPTZ DEFAULT CURRENT_TIMESTAMP
            )
            "#;

/// Creates the `issues_expanded` table.
pub const CREATE_ISSUES_EXPANDED_TABLE: &'static str = r#"
            CREATE TABLE IF NOT EXISTS issues_expanded (
                id VARCHAR PRIMARY KEY,
                project_id VARCHAR NOT NULL,
                issue_key VARCHAR NOT NULL,
                summary TEXT NOT NULL,
                description TEXT,
                status VARCHAR,
                priority VARCHAR,
                assignee VARCHAR,
                reporter VARCHAR,
                creator VARCHAR,
                issue_type VARCHAR,
                resolution VARCHAR,
                labels JSON,
                components JSON,
                fix_versions JSON,
                affected_versions JSON,
                sprint VARCHAR,
                parent_key VARCHAR,
                environment TEXT,
                security_level VARCHAR,
                created_date TIMESTAMPTZ,
                updated_date TIMESTAMPTZ,
                resolved_date TIMESTAMPTZ,
                due_date TIMESTAMPTZ,
                synced_at TIMESTAMPTZ DEFAULT CURRENT_TIMESTAMP
            )
            "#;

/// Indexes `issues_expanded` by `project_id`.
pub const CREATE_IDX_ISSUES_EXPANDED_PROJECT: &'static str = "CREATE INDEX IF NOT EXISTS idx_issues_expanded_project ON issues_expanded(project_id)";

/// Indexes `issues_expanded` by `issue_key`.
pub const CREATE_IDX_ISSUES_EXPANDED_KEY: &'static str = "CREATE INDEX IF NOT EXISTS idx_issues_expanded_key ON issues_expanded(issue_key)";

/// Indexes `issues_expanded` by `status`.
pub const CREATE_IDX_ISSUES_EXPANDED_STATUS: &'static str = "CREATE INDEX IF NOT EXISTS idx_issues_expanded_status ON issues_expanded(status)";

/// Indexes `issues` by `project_id`.
pub const CREATE_IDX_ISSUES_PROJECT: &'static str = "CREATE INDEX IF NOT EXISTS idx_issues_project ON issues(project_id)";

/// Indexes `issues` by `key`.
pub const CREATE_IDX_ISSUES_KEY: &'static str = "CREATE INDEX IF NOT EXISTS idx_issues_key ON issues(key)";

/// Indexes `issues` by `status`.
pub const CREATE_IDX_ISSUES_STATUS: &'static str = "CREATE INDEX IF NOT EXISTS idx_issues_status ON issues(status)";

/// Indexes `sync_history` by `project_id`.
pub const CREATE_IDX_SYNC_HISTORY_PROJECT: &'static str = "CREATE INDEX IF NOT EXISTS idx_sync_history_project ON sync_history(project_id)";

/// Creates the `issue_raw_data` table.
pub const CREATE_ISSUE_RAW_DATA_TABLE: &'static str = r#"
            CREATE TABLE IF NOT EXISTS issue_raw_data (
                id VARCHAR PRIMARY KEY,
                issue_key VARCHAR NOT NULL,
                project_id VARCHAR NOT NULL,
                raw_data JSON NOT NULL,
                synced_at TIMESTAMPTZ DEFAULT CURRENT_TIMESTAMP
            )
            "#;

/// Indexes `issue_raw_data` by `issue_key`.
pub const CREATE_IDX_RAW_ISSUES_KEY: &'static str = "CREATE INDEX IF NOT EXISTS idx_raw_issues_key ON issue_raw_data(issue_key)";

/// Indexes `issue_raw_data` by `project_id`.
pub const CREATE_IDX_RAW_ISSUES_PROJECT: &'static str = "CREATE INDEX IF NOT EXISTS idx_raw_issues_project ON issue_raw_data(project_id)";

/// Creates the `project_raw_data` table.
pub const CREATE_PROJECT_RAW_DATA_TABLE: &'static str = r#"
            CREATE TABLE IF NOT EXISTS project_raw_data (
                id VARCHAR PRIMARY KEY,
                project_key VARCHAR NOT NULL,
                raw_data JSON NOT NULL,
                synced_at TIMESTAMPTZ DEFAULT CURRENT_TIMESTAMP
            )
            "#;

/// The statements that set up the database of a project, in order, each
/// with what its failure is reported as.
pub open spec fn schema_steps() -> Seq<(&'static str, &'static str)> {
    seq![
        (CREATE_PROJECTS_TABLE, "Failed to create projects table"),
        (CREATE_ISSUES_TABLE, "Failed to create issues table"),
        (CREATE_SYNC_HISTORY_ID_SEQ_SEQUENCE, "Failed to create sync_history sequence"),
        (CREATE_SYNC_HISTORY_TABLE, "Failed to create sync_history table"),
        (CREATE_STATUSES_TABLE, "Failed to create statuses table"),
        (CREATE_PRIORITIES_TABLE, "Failed to create priorities table"),
        (CREATE_ISSUE_TYPES_TABLE, "Failed to create issue_types table"),
        (CREATE_LABELS_TABLE, "Failed to create labels table"),
        (CREATE_COMPONENTS_TABLE, "Failed to create components table"),
        (CREATE_FIX_VERSIONS_TABLE, "Failed to create fix_versions table"),
        (CREATE_CHANGE_HISTORY_ID_SEQ_SEQUENCE, "Failed to create change_history sequence"),
        (CREATE_ISSUE_CHANGE_HISTORY_TABLE, "Failed to create issue_change_history table"),
        (CREATE_IDX_CHANGE_HISTORY_ISSUE_ID, "Failed to create index"),
        (CREATE_IDX_CHANGE_HISTORY_ISSUE_KEY, "Failed to create index"),
        (CREATE_IDX_CHANGE_HISTORY_FIELD, "Failed to create index"),
        (CREATE_IDX_CHANGE_HISTORY_CHANGED_AT, "Failed to create index"),
        (CREATE_ISSUE_SNAPSHOTS_TABLE, "Failed to create issue_snapshots table"),
        (CREATE_IDX_SNAPSHOTS_ISSUE_KEY, "Failed to create index"),
        (CREATE_IDX_SNAPSHOTS_PROJECT_ID, "Failed to create index"),
        (CREATE_IDX_SNAPSHOTS_VALID_FROM, "Failed to create index"),
        (CREATE_IDX_SNAPSHOTS_VALID_TO, "Failed to create index"),
        (CREATE_JIRA_FIELDS_TABLE, "Failed to create jira_fields table"),
        (CREATE_ISSUES_EXPANDED_TABLE, "Failed to create issues_expanded table"),
        (CREATE_IDX_ISSUES_EXPANDED_PROJECT, "Failed to create index"),
        (CREATE_IDX_ISSUES_EXPANDED_KEY, "Failed to create index"),
        (CREATE_IDX_ISSUES_EXPANDED_STATUS, "Failed to create index"),
        (CREATE_IDX_ISSUES_PROJECT, "Failed to create index"),
        (CREATE_IDX_ISSUES_KEY, "Failed to create index"),
        (CREATE_IDX_ISSUES_STATUS, "Failed to create index"),
        (CREATE_IDX_SYNC_HISTORY_PROJECT, "Failed to create index"),
    ]
}

/// The statements that set up the database of raw JIRA data, in order.
pub open spec fn raw_schema_steps() -> Seq<(&'static str, &'static str)> {
    seq![
        (CREATE_ISSUE_RAW_DATA_TABLE, "Failed to create issue_raw_data table"),
        (CREATE_IDX_RAW_ISSUES_KEY, "Failed to create index"),
        (CREATE_IDX_RAW_ISSUES_PROJECT, "Failed to create index"),
        (CREATE_PROJECT_RAW_DATA_TABLE, "Failed to create project_raw_data table"),
    ]
}

/// The columns that later versions added: table, column and SQL type, in
/// the order they are checked. The expanded table's later columns are those
/// its fill statement writes, so that a table made before them is filled
/// too.
pub open spec fn schema_migrations() -> Seq<(&'static str, &'static str, &'static str)> {
    seq![
        ("issues", "sprint", "VARCHAR"),
        ("issue_snapshots", "raw_data", "JSON"),
        ("issues", "is_deleted", "BOOLEAN DEFAULT false"),
        ("issues", "due_date", "TIMESTAMPTZ"),
        ("issues", "team", "VARCHAR"),
        ("issues_expanded", "creator", "VARCHAR"),
        ("issues_expanded", "affected_versions", "JSON"),
        ("issues_expanded", "environment", "TEXT"),
        ("issues_expanded", "security_level", "VARCHAR"),
        ("issues_expanded", "resolved_date", "TIMESTAMPTZ"),
        ("issues_expanded", "due_date", "TIMESTAMPTZ"),
    ]
}

/// The schema of the project databases.
pub struct Schema;

impl Schema {
    /// The statements that set up a project database (see
    /// [`schema_steps`]); the migrations follow them.
    pub fn steps() -> (r: Vec<(&'static str, &'static str)>)
        ensures
            r@ == schema_steps(),
    {
        vec![
            (CREATE_PROJECTS_TABLE, "Failed to create projects table"),
            (CREATE_ISSUES_TABLE, "Failed to create issues table"),
            (CREATE_SYNC_HISTORY_ID_SEQ_SEQUENCE, "Failed to create sync_history sequence"),
            (CREATE_SYNC_HISTORY_TABLE, "Failed to create sync_history table"),
            (CREATE_STATUSES_TABLE, "Failed to create statuses table"),
            (CREATE_PRIORITIES_TABLE, "Failed to create priorities table"),
            (CREATE_ISSUE_TYPES_TABLE, "Failed to create issue_types table"),
            (CREATE_LABELS_TABLE, "Failed to create labels table"),
            (CREATE_COMPONENTS_TABLE, "Failed to create components table"),
            (CREATE_FIX_VERSIONS_TABLE, "Failed to create fix_versions table"),
            (CREATE_CHANGE_HISTORY_ID_SEQ_SEQUENCE, "Failed to create change_history sequence"),
            (CREATE_ISSUE_CHANGE_HISTORY_TABLE, "Failed to create issue_change_history table"),
            (CREATE_IDX_CHANGE_HISTORY_ISSUE_ID, "Failed to create index"),
            (CREATE_IDX_CHANGE_HISTORY_ISSUE_KEY, "Failed to create index"),
            (CREATE_IDX_CHANGE_HISTORY_FIELD, "Failed to create index"),
            (CREATE_IDX_CHANGE_HISTORY_CHANGED_AT, "Failed to create index"),
            (CREATE_ISSUE_SNAPSHOTS_TABLE, "Failed to create issue_snapshots table"),
            (CREATE_IDX_SNAPSHOTS_ISSUE_KEY, "Failed to create index"),
            (CREATE_IDX_SNAPSHOTS_PROJECT_ID, "Failed to create index"),
            (CREATE_IDX_SNAPSHOTS_VALID_FROM, "Failed to create index"),
            (CREATE_IDX_SNAPSHOTS_VALID_TO, "Failed to create index"),
            (CREATE_JIRA_FIELDS_TABLE, "Failed to create jira_fields table"),
            (CREATE_ISSUES_EXPANDED_TABLE, "Failed to create issues_expanded table"),
            (CREATE_IDX_ISSUES_EXPANDED_PROJECT, "Failed to create index"),
            (CREATE_IDX_ISSUES_EXPANDED_KEY, "Failed to create index"),
            (CREATE_IDX_ISSUES_EXPANDED_STATUS, "Failed to create index"),
            (CREATE_IDX_ISSUES_PROJECT, "Failed to create index"),
            (CREATE_IDX_ISSUES_KEY, "Failed to create index"),
            (CREATE_IDX_ISSUES_STATUS, "Failed to create index"),
            (CREATE_IDX_SYNC_HISTORY_PROJECT, "Failed to create index"),
        ]
    }

    /// The statements that set up a raw-data database.
    pub fn raw_steps() -> (r: Vec<(&'static str, &'static str)>)
        ensures
            r@ == raw_schema_steps(),
    {
        vec![
            (CREATE_ISSUE_RAW_DATA_TABLE, "Failed to create issue_raw_data table"),
            (CREATE_IDX_RAW_ISSUES_KEY, "Failed to create index"),
            (CREATE_IDX_RAW_ISSUES_PROJECT, "Failed to create index"),
            (CREATE_PROJECT_RAW_DATA_TABLE, "Failed to create project_raw_data table"),
        ]
    }

    /// The columns added by migrations (see [`schema_migrations`]).
    pub fn migrations() -> (r: Vec<(&'static str, &'static str, &'static str)>)
        ensures
            r@ == schema_migrations(),
    {
        vec![
            ("issues", "sprint", "VARCHAR"),
            ("issue_snapshots", "raw_data", "JSON"),
            ("issues", "is_deleted", "BOOLEAN DEFAULT false"),
            ("issues", "due_date", "TIMESTAMPTZ"),
            ("issues", "team", "VARCHAR"),
        ("issues_expanded", "creator", "VARCHAR"),
        ("issues_expanded", "affected_versions", "JSON"),
        ("issues_expanded", "environment", "TEXT"),
        ("issues_expanded", "security_level", "VARCHAR"),
        ("issues_expanded", "resolved_date", "TIMESTAMPTZ"),
        ("issues_expanded", "due_date", "TIMESTAMPTZ"),
        ]
    }

    /// The error for a failed step: its label, `: ` and the database's
    /// message.
    pub fn step_failure(label: &str, message: &str) -> (r: DomainError)
        ensures
            r matches DomainError::Repository(m) && m@ == label@ + ": "@ + message@,
    {
        let mut m = owned(label);
        m.append(": ");
        m.append(message);
        DomainError::Repository(m)
    }

    /// The query that counts the columns named `column` of `table` (one
    /// when it exists).
    pub fn column_count_query(table: &str, column: &str) -> (r: String)
        ensures
            r@ == "SELECT COUNT(*) FROM information_schema.columns WHERE table_name = '"@ + table@
                + "' AND column_name = '"@ + column@ + "'"@,
    {
        let mut r = owned("SELECT COUNT(*) FROM information_schema.columns WHERE table_name = '");
        r.append(table);
        r.append("' AND column_name = '");
        r.append(column);
        r.append("'");
        r
    }

    /// The statement that adds column `column` of type `column_type` to
    /// `table`; it runs only when the column count was zero.
    pub fn add_column_statement(table: &str, column: &str, column_type: &str) -> (r: String)
        ensures
            r@ == "ALTER TABLE "@ + table@ + " ADD COLUMN "@ + column@ + " "@ + column_type@,
    {
        let mut r = owned("ALTER TABLE ");
        r.append(table);
        r.append(" ADD COLUMN ");
        r.append(column);
        r.append(" ");
        r.append(column_type);
        r
    }

    /// The error for a migration that could not add its column.
    pub fn add_column_failure(table: &str, column: &str, message: &str) -> (r: DomainError)
        ensures
            r matches DomainError::Repository(m) && m@ == "Failed to add column "@ + table@ + "."@
                + column@ + ": "@ + message@,
    {
        let mut m = owned("Failed to add column ");
        m.append(table);
        m.append(".");
        m.append(column);
        m.append(": ");
        m.append(message);
        DomainError::Repository(m)
    }
}

} // verus!
