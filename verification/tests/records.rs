use jira_db::error::DomainError;
use jira_db::jira_records::{
    api_url, count_request_body, create_issue_body, due_date_body, issue_link_body, keyed_path,
    labelled_issues_jql, project_jql, read_components, read_count,
    read_created_issue, read_createmeta_issue_types, read_fields, read_issue_types, read_labels,
    read_priorities, read_statuses, read_transitions, read_versions, reported_total,
    status_count_jql, transition_body,
};
use jira_db::jira::{next_page, read_issue_page, PageStep};
use jira_db::json::JsonValue;

fn s(t: &str) -> JsonValue {
    JsonValue::Str(t.to_string())
}

fn n(t: &str) -> JsonValue {
    JsonValue::Number(t.to_string())
}

fn obj(entries: Vec<(&str, JsonValue)>) -> JsonValue {
    JsonValue::Object(entries.into_iter().map(|(k, v)| (k.to_string(), v)).collect())
}

fn text(v: &JsonValue) -> &str {
    match v {
        JsonValue::Str(t) => t.as_str(),
        other => panic!("not a string: {:?}", other),
    }
}

fn member<'a>(v: &'a JsonValue, key: &str) -> &'a JsonValue {
    match v {
        JsonValue::Object(members) => {
            &members.iter().find(|(k, _)| k == key).expect("member present").1
        }
        other => panic!("not an object: {:?}", other),
    }
}

#[test]
fn json_numbers_as_integers() {
    assert_eq!(n("42").as_i64(), Some(42));
    assert_eq!(n("-7").as_i64(), Some(-7));
    assert_eq!(n("0").as_i64(), Some(0));
    assert_eq!(n("9223372036854775807").as_i64(), Some(i64::MAX));
    assert_eq!(n("-9223372036854775808").as_i64(), Some(i64::MIN));
    assert_eq!(n("9223372036854775808").as_i64(), None);
    assert_eq!(n("1.5").as_i64(), None);
    assert_eq!(n("1e3").as_i64(), None);
    assert_eq!(s("42").as_i64(), None);
    assert_eq!(JsonValue::Null.as_i64(), None);
}

#[test]
fn statuses_of_all_issue_types() {
    let answer = JsonValue::Array(vec![
        obj(vec![(
            "statuses",
            JsonValue::Array(vec![
                obj(vec![
                    ("name", s("Open")),
                    ("description", s("Not started")),
                    ("statusCategory", obj(vec![("key", s("new"))])),
                ]),
                obj(vec![("description", s("no name"))]),
            ]),
        )]),
        obj(vec![("statuses", JsonValue::Array(vec![obj(vec![("name", s("Done"))])]))]),
    ]);
    let statuses = read_statuses(&answer);
    assert_eq!(statuses.len(), 2);
    assert_eq!(statuses[0].name, "Open");
    assert_eq!(statuses[0].description.as_deref(), Some("Not started"));
    assert_eq!(statuses[0].category.as_deref(), Some("new"));
    assert_eq!(statuses[1].name, "Done");
    assert_eq!(statuses[1].description, None);
    assert_eq!(statuses[1].category, None);
    assert!(read_statuses(&JsonValue::Null).is_empty());
}

#[test]
fn priorities_types_and_components() {
    let priorities = read_priorities(&JsonValue::Array(vec![
        obj(vec![("name", s("High")), ("iconUrl", s("http://i/high.png"))]),
        obj(vec![("id", s("2"))]),
    ]));
    assert_eq!(priorities.len(), 1);
    assert_eq!(priorities[0].name, "High");
    assert_eq!(priorities[0].icon_url.as_deref(), Some("http://i/high.png"));

    let types = read_issue_types(&JsonValue::Array(vec![
        obj(vec![("name", s("Bug")), ("subtask", JsonValue::Bool(false))]),
        obj(vec![("name", s("Sub-task")), ("subtask", JsonValue::Bool(true))]),
    ]));
    assert_eq!(types.len(), 2);
    assert!(!types[0].subtask);
    assert!(types[1].subtask);

    let meta = read_createmeta_issue_types(&obj(vec![(
        "issueTypes",
        JsonValue::Array(vec![obj(vec![("name", s("Story"))])]),
    )]));
    assert_eq!(meta.len(), 1);
    assert_eq!(meta[0].name, "Story");
    let meta = read_createmeta_issue_types(&obj(vec![(
        "values",
        JsonValue::Array(vec![obj(vec![("name", s("Task"))])]),
    )]));
    assert_eq!(meta[0].name, "Task");

    let components = read_components(&JsonValue::Array(vec![obj(vec![
        ("name", s("API")),
        ("lead", obj(vec![("displayName", s("Alice"))])),
    ])]));
    assert_eq!(components.len(), 1);
    assert_eq!(components[0].lead.as_deref(), Some("Alice"));
}

#[test]
fn versions_read_their_release_day() {
    let versions = read_versions(&JsonValue::Array(vec![
        obj(vec![
            ("name", s("1.0")),
            ("released", JsonValue::Bool(true)),
            ("releaseDate", s("2024-03-01")),
        ]),
        obj(vec![("name", s("2.0")), ("releaseDate", s("soon"))]),
    ]));
    assert_eq!(versions.len(), 2);
    assert!(versions[0].released);
    let day = versions[0].release_date.expect("a release day");
    assert_eq!(day.secs, 1_709_251_200);
    assert_eq!(day.nanos, 0);
    assert!(!versions[1].released);
    assert_eq!(versions[1].release_date, None);
    let bad_day = read_versions(&JsonValue::Array(vec![obj(vec![
        ("name", s("3.0")),
        ("releaseDate", s("2024-02-30")),
    ])]));
    assert_eq!(bad_day[0].release_date, None);
}

#[test]
fn labels_once_each() {
    let issue = |labels: Vec<&str>| {
        obj(vec![(
            "fields",
            obj(vec![("labels", JsonValue::Array(labels.into_iter().map(s).collect()))]),
        )])
    };
    let answer = obj(vec![(
        "issues",
        JsonValue::Array(vec![issue(vec!["ui", "bug"]), issue(vec!["bug", "api"]), issue(vec![])]),
    )]);
    let labels = read_labels(&answer);
    assert_eq!(labels, vec!["ui".to_string(), "bug".to_string(), "api".to_string()]);
    assert!(read_labels(&obj(vec![])).is_empty());
}

#[test]
fn fields_with_an_id() {
    let answer = JsonValue::Array(vec![
        obj(vec![
            ("id", s("customfield_10001")),
            ("name", s("Team")),
            ("custom", JsonValue::Bool(true)),
            ("navigable", JsonValue::Bool(true)),
            (
                "schema",
                obj(vec![("type", s("string")), ("customId", n("10001"))]),
            ),
        ]),
        obj(vec![("name", s("no id"))]),
        obj(vec![("id", s("summary")), ("key", s("summary_key"))]),
    ]);
    let fields = read_fields(&answer);
    assert_eq!(fields.len(), 2);
    assert_eq!(fields[0].id, "customfield_10001");
    assert_eq!(fields[0].key, "customfield_10001");
    assert_eq!(fields[0].name, "Team");
    assert!(fields[0].custom && fields[0].navigable && !fields[0].searchable);
    assert_eq!(fields[0].schema_type.as_deref(), Some("string"));
    assert_eq!(fields[0].schema_custom_id, Some(10001));
    assert_eq!(fields[1].key, "summary_key");
    assert_eq!(fields[1].name, "");
    assert_eq!(fields[1].schema_type, None);
}

#[test]
fn transitions_and_created_issues() {
    let answer = obj(vec![(
        "transitions",
        JsonValue::Array(vec![obj(vec![
            ("id", s("31")),
            ("name", s("Done")),
            (
                "to",
                obj(vec![
                    ("name", s("Closed")),
                    ("statusCategory", obj(vec![("key", s("done"))])),
                ]),
            ),
        ])]),
    )]);
    let transitions = read_transitions(&answer);
    assert_eq!(transitions.len(), 1);
    assert_eq!(transitions[0].id, "31");
    assert_eq!(transitions[0].to_status, "Closed");
    assert_eq!(transitions[0].to_status_category.as_deref(), Some("done"));

    let created = read_created_issue(&obj(vec![
        ("id", s("10001")),
        ("key", s("PROJ-1")),
        ("self", s("https://x/rest/api/3/issue/10001")),
    ]))
    .unwrap();
    assert_eq!(created.key, "PROJ-1");
    assert_eq!(created.self_url.as_deref(), Some("https://x/rest/api/3/issue/10001"));
    match read_created_issue(&obj(vec![("key", s("PROJ-1"))])) {
        Err(DomainError::ExternalService(m)) => assert_eq!(m, "Response missing 'id' field"),
        other => panic!("unexpected {:?}", other),
    }
    match read_created_issue(&obj(vec![("id", s("1"))])) {
        Err(DomainError::ExternalService(m)) => assert_eq!(m, "Response missing 'key' field"),
        other => panic!("unexpected {:?}", other),
    }
}

#[test]
fn counts_and_totals() {
    assert_eq!(read_count(&obj(vec![("total", n("12"))])), 12);
    assert_eq!(
        read_count(&obj(vec![("issues", JsonValue::Array(vec![obj(vec![]), obj(vec![])]))])),
        2
    );
    assert_eq!(read_count(&obj(vec![])), 0);
    assert_eq!(reported_total(&obj(vec![("total", n("5"))])), Some(5));
    assert_eq!(reported_total(&obj(vec![("total", n("0"))])), None);
    assert_eq!(reported_total(&obj(vec![])), None);
}

#[test]
fn queries_and_addresses() {
    assert_eq!(status_count_jql("PROJ", "In Progress"), "project = PROJ AND status = \"In Progress\"");
    assert_eq!(project_jql("PROJ"), "project = PROJ");
    assert_eq!(labelled_issues_jql("PROJ"), "project = PROJ AND labels is not EMPTY");
    assert_eq!(api_url("https://x.atlassian.net", "field"), "https://x.atlassian.net/rest/api/3/field");
    assert_eq!(keyed_path("project", "PROJ", "statuses"), "project/PROJ/statuses");
}

#[test]
fn request_bodies() {
    let body = count_request_body("project = P");
    assert_eq!(text(member(&body, "jql")), "project = P");
    match member(&body, "maxResults") {
        JsonValue::Number(t) => assert_eq!(t, "1"),
        other => panic!("unexpected {:?}", other),
    }

    let body = create_issue_body("PROJ", "Title", Some("Details"), "Bug");
    let fields = member(&body, "fields");
    assert_eq!(text(member(member(fields, "project"), "key")), "PROJ");
    assert_eq!(text(member(fields, "summary")), "Title");
    assert_eq!(text(member(member(fields, "issuetype"), "name")), "Bug");
    let doc = member(fields, "description");
    assert_eq!(text(member(doc, "type")), "doc");

    let body = transition_body("31");
    assert_eq!(text(member(member(&body, "transition"), "id")), "31");

    let body = issue_link_body("Blocks", "PROJ-1", "PROJ-2");
    assert_eq!(text(member(member(&body, "type"), "name")), "Blocks");
    assert_eq!(text(member(member(&body, "inwardIssue"), "key")), "PROJ-1");
    assert_eq!(text(member(member(&body, "outwardIssue"), "key")), "PROJ-2");

    let body = due_date_body("2024-12-31");
    assert_eq!(text(member(member(&body, "fields"), "duedate")), "2024-12-31");
}

#[test]
fn search_pages_give_their_issues_and_the_next_token() {
    let issue = |id: &str, key: &str| {
        obj(vec![("id", s(id)), ("key", s(key)), ("fields", obj(vec![("summary", s("S"))]))])
    };
    let page = obj(vec![
        (
            "issues",
            JsonValue::Array(vec![issue("1", "P-1"), obj(vec![("id", s("2"))]), issue("3", "P-3")]),
        ),
        ("isLast", JsonValue::Bool(false)),
        ("nextPageToken", s("tok-2")),
    ]);
    let raws = vec![Some("r1".to_string()), Some("r2".to_string()), None];
    let progress = read_issue_page(&page, raws);
    assert_eq!(progress.issues.len(), 2);
    assert_eq!(progress.issues[0].key, "P-1");
    assert_eq!(progress.issues[0].raw_json.as_deref(), Some("r1"));
    assert_eq!(progress.issues[1].key, "P-3");
    assert_eq!(progress.issues[1].raw_json, None);
    assert!(progress.has_more);
    assert_eq!(progress.next_page_token.as_deref(), Some("tok-2"));
    assert_eq!(progress.total, 0);
    match next_page(&progress, false) {
        PageStep::Fetch(t) => assert_eq!(t.as_deref(), Some("tok-2")),
        PageStep::Stop => panic!("another page follows"),
    }

    let last = obj(vec![("issues", JsonValue::Array(vec![])), ("isLast", JsonValue::Bool(true))]);
    let progress = read_issue_page(&last, vec![]);
    assert!(progress.issues.is_empty());
    assert!(!progress.has_more);
    assert!(matches!(next_page(&progress, false), PageStep::Stop));

    // A page that says more follow but holds nothing ends a count.
    let empty_more = obj(vec![
        ("issues", JsonValue::Array(vec![])),
        ("isLast", JsonValue::Bool(false)),
        ("nextPageToken", s("t")),
    ]);
    let progress = read_issue_page(&empty_more, vec![]);
    assert!(progress.has_more);
    assert!(matches!(next_page(&progress, true), PageStep::Stop));
    assert!(matches!(next_page(&progress, false), PageStep::Fetch(Some(_))));
}
