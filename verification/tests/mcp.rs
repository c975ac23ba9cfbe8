use jira_db::jira::Issue;
use jira_db::jsonrpc::error_codes;
use jira_db::jsonrpc::{JsonRpcError, JsonRpcErrorResponse, JsonRpcRequest, JsonRpcResponse, ProtocolError, RequestId};
use jira_db::json::JsonValue;
use jira_db::mcp_config::{config_file_path, EmbeddingProvider, McpConfig};
use jira_db::time::UtcTime;
use jira_db::tools::{
    extract_project_key, issue_answer, plan_semantic_search, plan_sql_query,
    semantic_search_project, ExecuteSqlParams, GetIssueParams, IssueResponse,
    SemanticSearchParams, SqlToolPlan,
};

#[test]
fn test_default_config() {
    let config = McpConfig::default_config();
    assert_eq!(config.http.port, 3000);
    assert_eq!(config.http.host, "127.0.0.1");
    assert!(!config.http.enabled);
    assert_eq!(config.embedding.provider, EmbeddingProvider::OpenAI);
}

#[test]
fn test_notification() {
    let notif = JsonRpcRequest::notification("notify", None);
    assert!(notif.is_notification());
}

#[test]
fn test_error_response() {
    let err = JsonRpcErrorResponse::new(JsonRpcError::method_not_found("unknown"), Some(RequestId::Number(1)));

    assert_eq!(err.error.code, error_codes::METHOD_NOT_FOUND);
}

#[test]
fn requests_and_responses() {
    let req = JsonRpcRequest::new("tools/list", None, RequestId::String("a".into()));
    assert!(!req.is_notification());
    assert_eq!(req.jsonrpc, "2.0");
    let resp = JsonRpcResponse::success(JsonValue::Null, RequestId::Number(7));
    assert_eq!(resp.id, RequestId::Number(7));
    assert_eq!(JsonRpcError::method_not_found("x").message, "Method not found: x");
}

#[test]
fn protocol_errors_map_to_codes() {
    let cases = vec![
        (ProtocolError::JsonParse("bad".into()), error_codes::PARSE_ERROR, "bad"),
        (ProtocolError::InvalidRequest("r".into()), error_codes::INVALID_REQUEST, "r"),
        (ProtocolError::MethodNotFound("m".into()), error_codes::METHOD_NOT_FOUND, "Method not found: m"),
        (ProtocolError::InvalidParams("p".into()), error_codes::INVALID_PARAMS, "p"),
        (ProtocolError::Internal("i".into()), error_codes::INTERNAL_ERROR, "i"),
        (ProtocolError::Io("o".into()), error_codes::INTERNAL_ERROR, "o"),
        (ProtocolError::ToolError("t".into()), error_codes::INTERNAL_ERROR, "t"),
    ];
    for (e, code, message) in cases {
        let r = e.to_error_response(Some(RequestId::Number(3)));
        assert_eq!(r.error.code, code);
        assert_eq!(r.error.message, message);
        assert_eq!(r.id, Some(RequestId::Number(3)));
    }
}

#[test]
fn config_file_locations() {
    assert_eq!(config_file_path(None), "jira-db-mcp.json");
    assert_eq!(config_file_path(Some("/home/u/.config")), "/home/u/.config/jira-db-mcp/config.json");
    let p = McpConfig::default_path();
    assert!(p.ends_with("config.json") || p == "jira-db-mcp.json");
}

#[test]
fn project_keys_of_issue_keys() {
    assert_eq!(extract_project_key("PROJ-123").as_deref(), Some("PROJ"));
    assert_eq!(extract_project_key("PROJ").as_deref(), Some("PROJ"));
    assert_eq!(extract_project_key("-1").as_deref(), Some(""));
}

#[test]
fn sql_tool_plans() {
    let no_project = ExecuteSqlParams { query: "SELECT 1".into(), limit: None, project: None };
    assert!(matches!(plan_sql_query(&no_project), SqlToolPlan::NeedProject));
    let write = ExecuteSqlParams { query: "DELETE FROM issues".into(), limit: None, project: Some("P".into()) };
    match plan_sql_query(&write) {
        SqlToolPlan::Refused(m) => assert_eq!(m, "Only SELECT queries are allowed for read-only access"),
        _ => panic!("expected a refusal"),
    }
    let sneaky = ExecuteSqlParams { query: "select * from t; drop table t".into(), limit: None, project: Some("P".into()) };
    match plan_sql_query(&sneaky) {
        SqlToolPlan::Refused(m) => assert_eq!(m, "Query contains forbidden keyword: DROP"),
        _ => panic!("expected a refusal"),
    }
    let ok = ExecuteSqlParams { query: "-- note\nSELECT key FROM issues;".into(), limit: Some(5), project: Some("P".into()) };
    match plan_sql_query(&ok) {
        SqlToolPlan::Run { project_key, query } => {
            assert_eq!(project_key, "P");
            assert_eq!(query, "-- note\nSELECT key FROM issues LIMIT 5");
        }
        _ => panic!("expected a run"),
    }
}

fn issue(key: &str) -> Issue {
    Issue {
        id: "1".into(),
        project_id: "10".into(),
        key: key.into(),
        summary: format!("summary of {}", key),
        description: None,
        status: Some("Open".into()),
        priority: None,
        assignee: None,
        reporter: None,
        issue_type: None,
        resolution: None,
        labels: None,
        components: None,
        fix_versions: None,
        sprint: None,
        team: None,
        parent_key: None,
        due_date: None,
        created_date: Some(UtcTime { secs: 1705282200, nanos: 0 }),
        updated_date: None,
        raw_json: Some("{\"k\":1}".into()),
    }
}

#[test]
fn issue_answers() {
    let r = IssueResponse::from_issue(issue("P-1"));
    assert_eq!(r.created_date.as_deref(), Some("2024-01-15T01:30:00+00:00"));
    assert_eq!(r.updated_date, None);

    let found = vec![issue("P-10"), issue("P-1")];
    let params = GetIssueParams { issue_key: "P-1".into(), include_raw: None };
    let a = issue_answer(found, &params).unwrap();
    assert_eq!(a.key, "P-1");
    assert_eq!(a.raw_json, None);
    let params = GetIssueParams { issue_key: "P-1".into(), include_raw: Some(true) };
    let a = issue_answer(vec![issue("P-1")], &params).unwrap();
    assert_eq!(a.raw_json.as_deref(), Some("{\"k\":1}"));
    let params = GetIssueParams { issue_key: "P-9".into(), include_raw: None };
    assert_eq!(issue_answer(vec![issue("P-1")], &params).unwrap_err(), "Issue P-9 not found");
}

#[test]
fn semantic_search_checks_come_in_order() {
    let without_project = SemanticSearchParams { query: "slow pages".into(), project: None, limit: None };
    assert_eq!(
        semantic_search_project(&without_project).unwrap_err(),
        "Project key is required for semantic search. Use the 'project' parameter."
    );
    let params = SemanticSearchParams { query: "slow pages".into(), project: Some("PROJ".into()), limit: None };
    assert_eq!(semantic_search_project(&params).unwrap(), "PROJ");

    let no_table = plan_semantic_search(&params, "PROJ".into(), None, Some("k".into())).unwrap_err();
    assert!(no_table.starts_with("Semantic search is not available."));
    let empty = plan_semantic_search(&params, "PROJ".into(), Some(0), Some("k".into())).unwrap_err();
    assert!(empty.starts_with("No embeddings found."));
    let no_key = plan_semantic_search(&params, "PROJ".into(), Some(3), None).unwrap_err();
    assert!(no_key.contains("OPENAI_API_KEY"));
    let plan = plan_semantic_search(&params, "PROJ".into(), Some(3), Some("k".into())).unwrap();
    assert_eq!(plan.project_key, "PROJ");
    assert_eq!(plan.api_key, "k");
    assert_eq!(plan.limit, 10);
    let limited = SemanticSearchParams { limit: Some(4), ..params };
    assert_eq!(plan_semantic_search(&limited, "PROJ".into(), Some(3), Some("k".into())).unwrap().limit, 4);
}

#[test]
fn nearest_issue_searches() {
    let by_project = jira_db::tools::nearest_issues_sql(true);
    assert!(by_project.contains("WHERE i.project_id = ?"));
    assert!(by_project.ends_with("ORDER BY distance ASC LIMIT ?"));
    let all = jira_db::tools::nearest_issues_sql(false);
    assert!(!all.contains("WHERE"));
    assert!(all.contains("array_cosine_distance(e.embedding, ?::FLOAT[])"));
}

#[test]
fn listing_answers() {
    let asked = jira_db::tools::GetIssueHistoryParams { issue_key: "P-1".into(), field: None, limit: Some(5) };
    assert_eq!(jira_db::tools::history_limit(&asked), 5);
    let default = jira_db::tools::GetIssueHistoryParams { issue_key: "P-1".into(), field: None, limit: None };
    assert_eq!(jira_db::tools::history_limit(&default), 100);
    assert!(jira_db::tools::list_databases_only(0, 2));
    assert!(!jira_db::tools::list_databases_only(1, 2));
    assert!(!jira_db::tools::list_databases_only(0, 0));
}

#[test]
fn get_issue_shows_every_field() {
    let mut found = issue("P-1");
    found.description = Some("details".into());
    found.assignee = Some("Ann".into());
    found.priority = Some("High".into());
    let params = GetIssueParams { issue_key: "P-1".into(), include_raw: None };
    let a = issue_answer(vec![found], &params).unwrap();
    assert_eq!(a.description.as_deref(), Some("details"));
    assert_eq!(a.assignee.as_deref(), Some("Ann"));
    assert_eq!(a.priority.as_deref(), Some("High"));
    assert!(a.raw_json.is_none());
}
