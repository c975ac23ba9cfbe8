use jira_db::claude::{
    bugs_prompt, cli_prompt, epic_prompt, json_prompt, response_text, sprint_prompt,
    strip_cli_json_fence, strip_json_fence, ClaudeCliClient, ClaudeClient, ClaudeConfig,
    ContentBlock, SPRINT_INTRO,
};
use jira_db::claude::message_request_body;
use jira_db::error::DomainError;
use jira_db::json::JsonValue;

fn members(v: &JsonValue) -> Vec<(String, &JsonValue)> {
    match v {
        JsonValue::Object(m) => m.iter().map(|(k, v)| (k.clone(), v)).collect(),
        other => panic!("not an object: {:?}", other),
    }
}

#[test]
fn test_cli_client_default() {
    let client = ClaudeCliClient::new();
    assert!(client.skip_permissions);
}

#[test]
fn config_defaults_and_builders() {
    let config = ClaudeConfig::new("k", "model-a");
    assert_eq!(config.model, "model-a");
    assert_eq!(config.api_base, "https://api.anthropic.com/v1");
    assert_eq!(config.timeout_secs, 120);
    assert_eq!(config.max_tokens, 4096);
    let config = config.with_model("m").with_max_tokens(10).with_timeout(5);
    assert_eq!(config.model, "m");
    assert_eq!(config.max_tokens, 10);
    assert_eq!(config.timeout_secs, 5);
}

#[test]
fn client_needs_a_key() {
    match ClaudeClient::new(ClaudeConfig::new("", "m")) {
        Err(DomainError::Configuration(m)) => assert_eq!(m, "Anthropic API key is required"),
        _ => panic!("expected a configuration error"),
    }
    let client = ClaudeClient::new(ClaudeConfig::new("k", "m")).unwrap();
    assert_eq!(client.messages_url(), "https://api.anthropic.com/v1/messages");
    assert_eq!(client.get_config().api_key, "k");
}

#[test]
fn answer_text_joins_text_blocks() {
    let blocks = vec![
        ContentBlock { content_type: "text".into(), text: "Hello, ".into() },
        ContentBlock { content_type: "tool_use".into(), text: "ignored".into() },
        ContentBlock { content_type: "text".into(), text: "world".into() },
    ];
    assert_eq!(response_text(&blocks), "Hello, world");
    assert_eq!(response_text(&vec![]), "");
}

#[test]
fn fences_are_stripped() {
    assert_eq!(strip_json_fence("  {\"a\": 1}\n"), "{\"a\": 1}");
    assert_eq!(strip_json_fence("```json\n{\"a\": 1}\n```"), "{\"a\": 1}");
    assert_eq!(strip_json_fence("```json\n[1,\n2]\n```\n"), "[1,\n2]");
    assert_eq!(strip_cli_json_fence("```json\n{}\n```"), "{}");
    assert_eq!(strip_cli_json_fence("```\n```"), "```\n```");
    assert_eq!(strip_cli_json_fence("```"), "```");
}

#[test]
fn prompts_hold_their_arguments() {
    let p = json_prompt("Q");
    assert!(p.starts_with("Q\n\nIMPORTANT: Respond with valid JSON only."));
    let s = sprint_prompt("ctx", 4, 10);
    assert!(s.starts_with("Generate a realistic sprint scenario for the following project:\n\nProject Context: ctx\nTeam Size: 4 developers\nSprint Duration: 10 days"));
    assert!(s.contains("\"duration_days\": 10,"));
    assert!(s.contains("(created_day_offset: 3-5)"));
    let s = sprint_prompt("ctx", 4, -3);
    assert!(s.contains("(created_day_offset: 3--1)"));
    let e = epic_prompt("ctx", "Login");
    assert!(e.starts_with("Generate an epic with related stories and tasks for:\n\nProject Context: ctx\nEpic Theme: Login\n"));
    let b = bugs_prompt("ctx", 3, 10);
    assert!(b.starts_with("Generate 3 realistic bugs for:\n\nProject Context: ctx\nSprint Duration: 10 days"));
    assert!(b.contains("number (3-8)"));
    let c = cli_prompt(SPRINT_INTRO, "P");
    assert_eq!(c, format!("{}\n\nP\n\nRespond with valid JSON only.", SPRINT_INTRO));
}

#[test]
fn cli_arguments() {
    let client = ClaudeCliClient::new();
    assert_eq!(
        client.arguments("hi"),
        vec!["-p", "hi", "--dangerously-skip-permissions", "--output-format", "text"]
    );
    let quiet = ClaudeCliClient { skip_permissions: false };
    assert_eq!(quiet.arguments("hi"), vec!["-p", "hi", "--output-format", "text"]);
}

#[test]
fn message_requests_carry_model_limit_system_and_prompt() {
    let body = message_request_body("model-x", 4096, Some("be brief"), "hello");
    let m = members(&body);
    let names: Vec<&str> = m.iter().map(|(k, _)| k.as_str()).collect();
    assert_eq!(names, vec!["model", "max_tokens", "system", "messages"]);
    assert!(matches!(m[0].1, JsonValue::Str(s) if s == "model-x"));
    assert!(matches!(m[1].1, JsonValue::Number(t) if t == "4096"));
    assert!(matches!(m[2].1, JsonValue::Str(s) if s == "be brief"));
    match m[3].1 {
        JsonValue::Array(items) => {
            assert_eq!(items.len(), 1);
            let msg = members(&items[0]);
            assert!(matches!(msg[0].1, JsonValue::Str(s) if s == "user"));
            assert!(matches!(msg[1].1, JsonValue::Str(s) if s == "hello"));
        }
        other => panic!("unexpected {:?}", other),
    }
    let body = message_request_body("m", 1, None, "p");
    let names: Vec<String> = members(&body).into_iter().map(|(k, _)| k).collect();
    assert_eq!(names, vec!["model", "max_tokens", "messages"]);
}
