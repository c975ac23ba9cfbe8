use jira_db::saved_queries::{
    query_delete, query_list, query_save, SavedQuery, SqlQueryDeleteRequest, SqlQueryListRequest,
    SqlQuerySaveRequest,
};
use jira_db::service::ServiceError;
use jira_db::sql::{apply_row_limit, check_read_only_query, escape_sql_string, schema_query, SqlRejection};

fn saved(id: &str) -> SavedQuery {
    SavedQuery {
        id: id.into(),
        name: format!("q{}", id),
        query: "SELECT 1".into(),
        description: None,
        created_at: "t0".into(),
        updated_at: "t0".into(),
    }
}

#[test]
fn guard_accepts_selects_only() {
    assert!(check_read_only_query("SELECT * FROM issues").is_ok());
    assert!(check_read_only_query("with x as (select 1) select * from x").is_ok());
    assert_eq!(check_read_only_query("UPDATE issues SET a = 1"), Err(SqlRejection::NotSelect));
    assert_eq!(
        check_read_only_query("SELECT * FROM t WHERE note = 'insert'"),
        Err(SqlRejection::ForbiddenKeyword("INSERT".into()))
    );
    assert_eq!(SqlRejection::NotSelect.message(), "Only SELECT queries are allowed for read-only access");
}

#[test]
fn row_limit_is_added_once() {
    assert_eq!(apply_row_limit("  SELECT 1;; ", None), "SELECT 1 LIMIT 100");
    assert_eq!(apply_row_limit("SELECT 1", Some(3)), "SELECT 1 LIMIT 3");
    assert_eq!(apply_row_limit("SELECT 1 limit 2", Some(3)), "SELECT 1 limit 2");
}

#[test]
fn schema_queries_escape_names() {
    assert_eq!(escape_sql_string("it's"), "it''s");
    assert_eq!(
        schema_query(Some("o'k")),
        "SELECT column_name, data_type, is_nullable FROM information_schema.columns WHERE table_name = 'o''k' ORDER BY ordinal_position"
    );
    assert_eq!(
        schema_query(None),
        "SELECT table_name FROM information_schema.tables WHERE table_schema = 'main' ORDER BY table_name"
    );
}

#[test]
fn saved_queries_list_save_delete() {
    let listed = query_list(vec![saved("1")], SqlQueryListRequest {}).unwrap();
    assert_eq!(listed.queries.len(), 1);

    let req = SqlQuerySaveRequest { id: None, name: "new".into(), query: "SELECT 2".into(), description: None };
    let (all, resp) = query_save(vec![saved("1")], req, "2".into(), "t1".into()).unwrap();
    assert_eq!(all.len(), 2);
    assert_eq!(resp.query.id, "2");
    assert_eq!(resp.query.created_at, "t1");

    let req = SqlQuerySaveRequest { id: Some("1".into()), name: "renamed".into(), query: "SELECT 3".into(), description: Some("d".into()) };
    let (all, resp) = query_save(all, req, "unused".into(), "t2".into()).unwrap();
    assert_eq!(all[0].name, "renamed");
    assert_eq!(all[0].created_at, "t0");
    assert_eq!(resp.query.updated_at, "t2");

    let req = SqlQuerySaveRequest { id: Some("9".into()), name: "x".into(), query: "x".into(), description: None };
    match query_save(all.clone(), req, "u".into(), "t".into()) {
        Err(ServiceError::NotFound(m)) => assert_eq!(m, "Query with id 9 not found"),
        _ => panic!("expected not found"),
    }

    let (kept, resp) = query_delete(all.clone(), SqlQueryDeleteRequest { id: "1".into() }).unwrap();
    assert!(resp.success);
    assert_eq!(kept.len(), 1);
    assert_eq!(kept[0].id, "2");
    match query_delete(kept, SqlQueryDeleteRequest { id: "1".into() }) {
        Err(ServiceError::NotFound(m)) => assert_eq!(m, "Query with id 1 not found"),
        _ => panic!("expected not found"),
    }
}

#[test]
fn service_error_messages() {
    assert_eq!(ServiceError::NotInitialized.message(), "Not initialized");
    assert_eq!(ServiceError::NotFound("x".into()).message(), "Not found: x");
    assert_eq!(ServiceError::Config("c".into()).message(), "Configuration error: c");
}
