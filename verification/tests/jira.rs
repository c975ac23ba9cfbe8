use jira_db::jira::{
    basic_auth_header, extract_sprint, extract_team, fix_offset_colon, issue_search_request,
    legacy_sprint, next_retry_step, page_issues, page_status, parse_due_date, parse_issue,
    parse_jira_datetime, search_jql, search_query_params, search_url, Attempt, RetryStep,
};
use jira_db::json::JsonValue;
use jira_db::time::UtcTime;

fn s(t: &str) -> JsonValue {
    JsonValue::Str(t.to_string())
}

fn obj(entries: Vec<(&str, JsonValue)>) -> JsonValue {
    JsonValue::Object(entries.into_iter().map(|(k, v)| (k.to_string(), v)).collect())
}

#[test]
fn test_parse_jira_datetime() {
    let result = parse_jira_datetime("2024-01-15T10:30:00.000+0000");
    assert!(result.is_some(), "Should parse JIRA format with +0000");

    let result = parse_jira_datetime("2024-01-15T10:30:00.000+0900");
    assert!(result.is_some(), "Should parse JIRA format with +0900");

    let result = parse_jira_datetime("2024-01-15T10:30:00.000Z");
    assert!(result.is_some(), "Should parse RFC3339 with Z");

    let result = parse_jira_datetime("2024-01-15T10:30:00.000+00:00");
    assert!(result.is_some(), "Should parse RFC3339 with +00:00");

    let result = parse_jira_datetime("2024-01-15T10:30:00+0000");
    assert!(result.is_some(), "Should parse without milliseconds");
}

#[test]
fn jira_dates_read_to_the_instant() {
    assert_eq!(
        parse_jira_datetime("2024-01-15T10:30:00.000+0900"),
        Some(UtcTime { secs: 1705282200, nanos: 0 })
    );
    assert_eq!(
        parse_jira_datetime("2024-01-15T10:30:00.250Z"),
        Some(UtcTime { secs: 1705314600, nanos: 250_000_000 })
    );
    assert_eq!(parse_jira_datetime("not a date"), None);
    assert_eq!(parse_jira_datetime("2024-01-15T10:30:00.000+09"), None);
    assert_eq!(parse_due_date("2024-03-01"), Some(UtcTime { secs: 1709251200, nanos: 0 }));
    assert_eq!(parse_due_date("soon"), None);
}

#[test]
fn offsets_get_their_colon() {
    assert_eq!(fix_offset_colon("x+0530").as_deref(), Some("x+05:30"));
    assert_eq!(fix_offset_colon("x-0000").as_deref(), Some("x-00:00"));
    assert_eq!(fix_offset_colon("x+05:30"), None);
    assert_eq!(fix_offset_colon("+053"), None);
}

#[test]
fn auth_header_is_basic_base64() {
    assert_eq!(basic_auth_header("user", "key"), "Basic dXNlcjprZXk=");
    assert_eq!(basic_auth_header("\u{fc}", "k"), "Basic w7w6aw==");
}

#[test]
fn legacy_sprint_text() {
    let t = "com.atlassian.greenhopper.service.sprint.Sprint@1a2b[id=1,rapidViewId=2,state=ACTIVE,name=Sprint 7,goal=]";
    assert_eq!(legacy_sprint(t).as_deref(), Some("Sprint 7"));
    assert_eq!(legacy_sprint("x[name=Last]").as_deref(), Some("Last"));
    assert_eq!(legacy_sprint("x[name=Open").as_deref(), None);
    assert_eq!(legacy_sprint("nothing").as_deref(), None);
}

#[test]
fn sprints_prefer_the_last_current_one() {
    let sprints = JsonValue::Array(vec![
        obj(vec![("name", s("S1")), ("state", s("closed"))]),
        obj(vec![("name", s("S2")), ("state", s("active"))]),
        obj(vec![("name", s("S3")), ("state", s("future"))]),
    ]);
    let fields = obj(vec![("customfield_10020", sprints)]);
    assert_eq!(extract_sprint(&fields).as_deref(), Some("S2"));

    let future_only = JsonValue::Array(vec![obj(vec![("name", s("F")), ("state", s("future"))])]);
    let fields = obj(vec![("sprint", JsonValue::Null), ("customfield_10104", future_only)]);
    assert_eq!(extract_sprint(&fields).as_deref(), Some("F"));

    let fields = obj(vec![("customfield_10000", s("S@1[name=Legacy,x]"))]);
    assert_eq!(extract_sprint(&fields).as_deref(), Some("Legacy"));
    assert_eq!(extract_sprint(&obj(vec![])), None);
}

#[test]
fn teams_by_name_value_or_text() {
    assert_eq!(extract_team(&obj(vec![("team", obj(vec![("name", s("A"))]))])).as_deref(), Some("A"));
    assert_eq!(
        extract_team(&obj(vec![("customfield_10001", obj(vec![("value", s("B"))]))])).as_deref(),
        Some("B")
    );
    assert_eq!(
        extract_team(&obj(vec![("team", s("")), ("customfield_10100", s("C"))])).as_deref(),
        Some("C")
    );
    assert_eq!(extract_team(&obj(vec![("team", JsonValue::Bool(true))])), None);
}

#[test]
fn issues_are_read_from_search_results() {
    let fields = obj(vec![
        ("project", obj(vec![("id", s("10000"))])),
        ("summary", s("Fix login")),
        ("status", obj(vec![("name", s("Open"))])),
        ("assignee", obj(vec![("displayName", s("Ann"))])),
        ("labels", JsonValue::Array(vec![s("a"), JsonValue::Null, s("b")])),
        ("components", JsonValue::Array(vec![])),
        ("fixVersions", JsonValue::Array(vec![obj(vec![("name", s("1.0"))])])),
        ("parent", obj(vec![("key", s("P-1"))])),
        ("duedate", s("2024-03-01")),
        ("created", s("2024-01-15T10:30:00.000+0900")),
        ("updated", s("bad")),
    ]);
    let issue_json = obj(vec![("id", s("1")), ("key", s("P-2")), ("fields", fields)]);
    let issue = parse_issue(&issue_json, Some("{}".to_string())).unwrap();
    assert_eq!(issue.id, "1");
    assert_eq!(issue.key, "P-2");
    assert_eq!(issue.project_id, "10000");
    assert_eq!(issue.summary, "Fix login");
    assert_eq!(issue.description, None);
    assert_eq!(issue.status.as_deref(), Some("Open"));
    assert_eq!(issue.assignee.as_deref(), Some("Ann"));
    assert_eq!(issue.priority, None);
    assert_eq!(issue.labels, Some(vec!["a".to_string(), "b".to_string()]));
    assert_eq!(issue.components, None);
    assert_eq!(issue.fix_versions, Some(vec!["1.0".to_string()]));
    assert_eq!(issue.parent_key.as_deref(), Some("P-1"));
    assert_eq!(issue.due_date, Some(UtcTime { secs: 1709251200, nanos: 0 }));
    assert_eq!(issue.created_date, Some(UtcTime { secs: 1705282200, nanos: 0 }));
    assert_eq!(issue.updated_date, None);
    assert_eq!(issue.raw_json.as_deref(), Some("{}"));

    let no_key = obj(vec![("id", s("1"))]);
    assert!(parse_issue(&no_key, None).is_none());
    let bare = obj(vec![("id", s("1")), ("key", s("K-1"))]);
    let issue = parse_issue(&bare, None).unwrap();
    assert_eq!(issue.summary, "");
    assert_eq!(issue.project_id, "");
}

#[test]
fn searches_and_pages() {
    assert_eq!(search_jql("PROJ", None), "project = PROJ ORDER BY updated ASC, key ASC");
    assert_eq!(
        search_jql("PROJ", Some("2024-01-15 01:30")),
        "project = PROJ AND updated >= \"2024-01-15 01:30\" ORDER BY updated ASC, key ASC"
    );
    let since = issue_search_request("PROJ", Some(UtcTime { secs: 1705282200, nanos: 0 }), None, 50).unwrap();
    assert_eq!(
        since[0].1,
        "project = PROJ AND updated >= \"2024-01-15 01:30\" ORDER BY updated ASC, key ASC"
    );
    assert_eq!(since[3], ("maxResults".to_string(), "50".to_string()));
    let full = issue_search_request("PROJ", None, Some("t2"), 100).unwrap();
    assert_eq!(full[0].1, "project = PROJ ORDER BY updated ASC, key ASC");
    assert_eq!(full[4], ("nextPageToken".to_string(), "t2".to_string()));
    assert!(issue_search_request("PROJ", Some(UtcTime { secs: i64::MAX, nanos: 0 }), None, 1).is_none());
    assert_eq!(search_url("https://x.atlassian.net"), "https://x.atlassian.net/rest/api/3/search/jql");
    let params = search_query_params("project = P", Some("tok"), 100);
    assert_eq!(params.len(), 5);
    assert_eq!(params[3], ("maxResults".to_string(), "100".to_string()));
    assert_eq!(params[4], ("nextPageToken".to_string(), "tok".to_string()));
    assert_eq!(search_query_params("q", None, 7).len(), 4);

    let page = obj(vec![
        ("isLast", JsonValue::Bool(false)),
        ("nextPageToken", s("n2")),
        ("issues", JsonValue::Array(vec![obj(vec![])])),
    ]);
    let st = page_status(&page);
    assert!(st.has_more);
    assert_eq!(st.next_page_token.as_deref(), Some("n2"));
    assert_eq!(page_issues(&page).unwrap().len(), 1);
    let last = obj(vec![("nextPageToken", s("n3"))]);
    assert!(!page_status(&last).has_more);
    assert!(page_issues(&last).is_none());
}

#[test]
fn retries_back_off_and_stop() {
    assert_eq!(next_retry_step(0, 3, Attempt::Succeeded), RetryStep::Done);
    assert_eq!(next_retry_step(0, 3, Attempt::Failed), RetryStep::Wait { delay_secs: 2, retries: 1 });
    assert_eq!(next_retry_step(1, 3, Attempt::TimedOut), RetryStep::Wait { delay_secs: 4, retries: 2 });
    assert_eq!(next_retry_step(2, 3, Attempt::Failed), RetryStep::Wait { delay_secs: 8, retries: 3 });
    assert_eq!(next_retry_step(3, 3, Attempt::Failed), RetryStep::GiveUp);
    assert_eq!(next_retry_step(3, 3, Attempt::TimedOut), RetryStep::FetchError);
}

fn tries(max_retries: u32, outcomes: &[Attempt]) -> usize {
    let mut retries = 0;
    let mut made = 0;
    for a in outcomes {
        made += 1;
        match next_retry_step(retries, max_retries, *a) {
            RetryStep::Wait { retries: r, .. } => retries = r,
            _ => break,
        }
    }
    made
}

#[test]
fn a_request_is_tried_until_its_first_success_or_the_limit() {
    assert_eq!(tries(3, &[Attempt::Failed, Attempt::TimedOut, Attempt::Succeeded, Attempt::Failed]), 3);
    assert_eq!(tries(3, &[Attempt::Succeeded]), 1);
    assert_eq!(tries(2, &[Attempt::Failed, Attempt::Failed, Attempt::Failed, Attempt::Failed, Attempt::Succeeded]), 3);
    assert_eq!(tries(5, &[Attempt::Failed, Attempt::Failed]), 2);
}
