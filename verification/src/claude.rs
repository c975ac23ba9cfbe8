//! The client of the language-model service that makes up test data: its
//! configuration, the prompts it sends, how it reads the answers, and the
//! command line of the service's CLI.
use vstd::prelude::*;

use crate::error::DomainError;
use crate::json::{is_array_of_len, is_number, is_object_of, is_text, item_at, member_at, JsonValue};
use crate::text::{
    chars_of, decimal, decimal_chars, has_prefix, join, join_chars, lines, owned, signed_decimal,
    signed_decimal_chars, split_lines, starts_with, str_eq, string_of, string_views, trim,
    trim_chars,
};

verus! {

/// The address of the model service's API.
pub const CLAUDE_API_ENDPOINT: &'static str = "https://api.anthropic.com/v1";

// ---------------------------------------------------------------------------
// Configuration
// ---------------------------------------------------------------------------

/// Configuration of the API client.
#[derive(Debug, Clone)]
pub struct ClaudeConfig {
    pub api_key: String,
    /// The model that answers.
    pub model: String,
    pub api_base: String,
    /// Request timeout in seconds.
    pub timeout_secs: u64,
    /// Most tokens of an answer.
    pub max_tokens: u32,
}

impl ClaudeConfig {
    /// The configuration with API key `api_key` and model `model`: the
    /// public address, two minutes to answer, at most 4096 tokens.
    pub fn new(api_key: &str, model: &str) -> (r: Self)
        ensures
            r.api_key@ == api_key@,
            r.model@ == model@,
            r.api_base@ == CLAUDE_API_ENDPOINT@,
            r.timeout_secs == 120,
            r.max_tokens == 4096,
    {
        ClaudeConfig {
            api_key: owned(api_key),
            model: owned(model),
            api_base: owned(CLAUDE_API_ENDPOINT),
            timeout_secs: 120,
            max_tokens: 4096,
        }
    }

    /// Uses model `model`.
    pub fn with_model(self, model: &str) -> (r: Self)
        ensures
            r.model@ == model@,
            r == (ClaudeConfig { model: r.model, ..self }),
    {
        ClaudeConfig { model: owned(model), ..self }
    }

    /// Sets the most tokens of an answer.
    pub fn with_max_tokens(self, max_tokens: u32) -> (r: Self)
        ensures
            r == (ClaudeConfig { max_tokens, ..self }),
    {
        ClaudeConfig { max_tokens, ..self }
    }

    /// Sets the request timeout (seconds).
    pub fn with_timeout(self, timeout_secs: u64) -> (r: Self)
        ensures
            r == (ClaudeConfig { timeout_secs, ..self }),
    {
        ClaudeConfig { timeout_secs, ..self }
    }
}

// ---------------------------------------------------------------------------
// The API client
// ---------------------------------------------------------------------------

#[verifier::external_type_specification]
#[verifier::external_body]
pub struct ExHttpClient(reqwest::Client);

/// The total request timeout, in seconds, that HTTP client `c` was built
/// with.
pub uninterp spec fn client_timeout_secs(c: reqwest::Client) -> u64;

/// `reqwest::Client::builder().timeout(..).build()`: an HTTP client whose
/// requests time out after `timeout_secs` seconds, or the text of the error
/// when the client cannot be made (its TLS backend fails to start). Which of
/// the two happens is not stated: that depends on the machine.
#[verifier::external_body]
fn build_http_client(timeout_secs: u64) -> (r: Result<reqwest::Client, String>)
    ensures
        r matches Ok(c) ==> client_timeout_secs(c) == timeout_secs,
{
    match reqwest::Client::builder().timeout(std::time::Duration::from_secs(timeout_secs)).build() {
        Ok(c) => Ok(c),
        Err(e) => Err(e.to_string()),
    }
}

/// The API client.
pub struct ClaudeClient {
    http: reqwest::Client,
    config: ClaudeConfig,
}

impl ClaudeClient {
    /// A client for `config`. The API key must not be empty.
    pub fn new(config: ClaudeConfig) -> (r: Result<Self, DomainError>)
        ensures
            config.api_key@.len() == 0 ==> (r matches Err(DomainError::Configuration(m)) && m@
                == "Anthropic API key is required"@),
            r matches Ok(c) ==> c.config() == config,
            r matches Ok(c) ==> client_timeout_secs(c.http_client()) == config.timeout_secs,
            r matches Err(DomainError::ExternalService(m)) ==> config.api_key@.len() > 0
                && has_prefix(m@, "Failed to create HTTP client: "@),
            r matches Err(e) ==> (e is Configuration || e is ExternalService),
            r matches Err(DomainError::Configuration(_)) ==> config.api_key@.len() == 0,
    {
        if config.api_key.as_str().is_empty() {
            return Err(DomainError::Configuration(owned("Anthropic API key is required")));
        }
        match build_http_client(config.timeout_secs) {
            Ok(http) => Ok(ClaudeClient { http, config }),
            Err(e) => {
                let mut m = owned("Failed to create HTTP client: ");
                m.append(e.as_str());
                assert(m@.subrange(0, "Failed to create HTTP client: "@.len() as int)
                    =~= "Failed to create HTTP client: "@);
                Err(DomainError::ExternalService(m))
            },
        }
    }

    /// The configuration.
    pub closed spec fn config(&self) -> ClaudeConfig {
        self.config
    }

    /// The configuration.
    pub fn get_config(&self) -> (r: &ClaudeConfig)
        ensures
            *r == self.config(),
    {
        &self.config
    }

    /// The HTTP client that sends the requests.
    pub closed spec fn http_client(&self) -> reqwest::Client {
        self.http
    }

    /// The HTTP client that sends the requests.
    pub fn http(&self) -> (r: &reqwest::Client)
        ensures
            *r == self.http_client(),
    {
        &self.http
    }

    /// The address messages are sent to.
    pub fn messages_url(&self) -> (r: String)
        ensures
            r@ == self.config().api_base@ + "/messages"@,
    {
        let mut r = self.config.api_base.clone();
        r.append("/messages");
        r
    }
}

/// The version of the API the client speaks, sent with every request.
pub const API_VERSION: &'static str = "2023-06-01";

/// The body of a message request: the model, the most tokens of the
/// answer, the system prompt when there is one, and one user message
/// holding `prompt`.
pub open spec fn is_message_request(v: JsonValue, model: Seq<char>, max_tokens: u32, system: Option<Seq<char>>, prompt: Seq<char>) -> bool {
    let n = if system is Some { 3int } else { 2int };
    let message = item_at(member_at(v, n), 0);
    &&& is_object_of(v, match system {
        Some(_) => seq!["model"@, "max_tokens"@, "system"@, "messages"@],
        None => seq!["model"@, "max_tokens"@, "messages"@],
    })
    &&& is_text(member_at(v, 0), model)
    &&& is_number(member_at(v, 1), decimal(max_tokens as nat))
    &&& (system matches Some(s) ==> is_text(member_at(v, 2), s))
    &&& is_array_of_len(member_at(v, n), 1)
    &&& is_object_of(message, seq!["role"@, "content"@])
    &&& is_text(member_at(message, 0), "user"@)
    &&& is_text(member_at(message, 1), prompt)
}

/// The body of the request that sends `prompt` (see [`is_message_request`]).
pub fn message_request_body(model: &str, max_tokens: u32, system: Option<&str>, prompt: &str) -> (r: JsonValue)
    ensures
        is_message_request(
            r,
            model@,
            max_tokens,
            match system {
                Some(s) => Some(s@),
                None => None,
            },
            prompt@,
        ),
{
    let message_members: Vec<(String, JsonValue)> = vec![
        (owned("role"), JsonValue::Str(owned("user"))),
        (owned("content"), JsonValue::Str(owned(prompt))),
    ];
    assert(message_members@.map_values(|p: (String, JsonValue)| p.0@) =~= seq!["role"@, "content"@]);
    let messages = JsonValue::Array(vec![JsonValue::Object(message_members)]);
    let mut members: Vec<(String, JsonValue)> = vec![
        (owned("model"), JsonValue::Str(owned(model))),
        (owned("max_tokens"), JsonValue::Number(string_of(&decimal_chars(max_tokens as u64)))),
    ];
    match system {
        Some(s) => {
            members.push((owned("system"), JsonValue::Str(owned(s))));
        },
        None => {},
    }
    members.push((owned("messages"), messages));
    proof {
        let names = members@.map_values(|p: (String, JsonValue)| p.0@);
        match system {
            Some(_) => {
                assert(names =~= seq!["model"@, "max_tokens"@, "system"@, "messages"@]);
            },
            None => {
                assert(names =~= seq!["model"@, "max_tokens"@, "messages"@]);
            },
        }
    }
    JsonValue::Object(members)
}

/// One block of the content of an answer.
#[derive(Debug, Clone)]
pub struct ContentBlock {
    /// The block's type; text blocks have type `text`.
    pub content_type: String,
    pub text: String,
}

/// The text of an answer: the texts of its `text` blocks, one after the
/// other.
pub open spec fn answer_text(blocks: Seq<ContentBlock>) -> Seq<char>
    decreases blocks.len(),
{
    if blocks.len() == 0 {
        seq![]
    } else if blocks.last().content_type@ == "text"@ {
        answer_text(blocks.drop_last()) + blocks.last().text@
    } else {
        answer_text(blocks.drop_last())
    }
}

/// Executable form of [`answer_text`].
pub fn response_text(blocks: &Vec<ContentBlock>) -> (r: String)
    ensures
        r@ == answer_text(blocks@),
{
    let mut r = String::new();
    for i in 0..blocks.len()
        invariant
            r@ == answer_text(blocks@.take(i as int)),
    {
        proof {
            assert(blocks@.take(i + 1).drop_last() =~= blocks@.take(i as int));
            assert(blocks@.take(i + 1).last() == blocks@[i as int]);
        }
        if str_eq(blocks[i].content_type.as_str(), "text") {
            r.append(blocks[i].text.as_str());
        }
    }
    assert(blocks@.take(blocks.len() as int) =~= blocks@);
    r
}

// ---------------------------------------------------------------------------
// Answers in JSON
// ---------------------------------------------------------------------------

/// What is added to a prompt whose answer must be JSON.
pub const JSON_ONLY: &'static str = "\n\nIMPORTANT: Respond with valid JSON only. No markdown code blocks, no explanation, just the JSON.";

/// A prompt that asks for an answer in JSON only.
pub fn json_prompt(prompt: &str) -> (r: String)
    ensures
        r@ == prompt@ + JSON_ONLY@,
{
    let mut r = owned(prompt);
    r.append(JSON_ONLY);
    r
}

/// The lines of the trimmed answer `t` between its first and its last.
pub open spec fn fenced_body(t: Seq<char>) -> Seq<char> {
    join(lines(t).subrange(1, lines(t).len() - 1), "\n"@)
}

/// The JSON in an answer of the API: the trimmed answer, or, when it starts
/// with a code fence, its lines between the first and the last.
pub open spec fn api_answer_json(answer: Seq<char>) -> Seq<char> {
    let t = trim(answer);
    if has_prefix(t, "```"@) {
        fenced_body(t)
    } else {
        t
    }
}

/// The JSON in an answer of the CLI: as [`api_answer_json`], but a fenced
/// answer of two lines or fewer is kept whole.
pub open spec fn cli_answer_json(answer: Seq<char>) -> Seq<char> {
    let t = trim(answer);
    if has_prefix(t, "```"@) && lines(t).len() > 2 {
        fenced_body(t)
    } else {
        t
    }
}

/// The lines of `t` between the first and the last, joined by line feeds.
fn inner_lines(t: &Vec<char>) -> (r: String)
    requires
        lines(t@).len() >= 2,
    ensures
        r@ == fenced_body(t@),
{
    let ls = split_lines(t);
    let n = ls.len();
    let mut inner: Vec<Vec<char>> = Vec::new();
    let mut k: usize = 1;
    while k < n - 1
        invariant
            n == ls@.len(),
            n >= 2,
            1 <= k <= n - 1,
            inner@.map_values(|l: Vec<char>| l@) == ls@.map_values(|l: Vec<char>| l@).subrange(1, k as int),
        decreases n - 1 - k,
    {
        let ghost before = inner@.map_values(|l: Vec<char>| l@);
        inner.push(ls[k].clone());
        assert(inner@.map_values(|l: Vec<char>| l@) =~= before.push(ls@[k as int]@));
        assert(ls@.map_values(|l: Vec<char>| l@).subrange(1, k + 1) =~= ls@.map_values(
            |l: Vec<char>| l@,
        ).subrange(1, k as int).push(ls@[k as int]@));
        k = k + 1;
    }
    let sep = chars_of("\n");
    string_of(&join_chars(&inner, &sep))
}

/// The JSON in an answer of the API. A fenced answer needs a second line
/// (the API client fails on one that has none).
pub fn strip_json_fence(answer: &str) -> (r: String)
    requires
        has_prefix(trim(answer@), "```"@) ==> lines(trim(answer@)).len() >= 2,
    ensures
        r@ == api_answer_json(answer@),
{
    let t = trim_chars(&chars_of(answer));
    if starts_with(&t, &chars_of("```")) {
        inner_lines(&t)
    } else {
        string_of(&t)
    }
}

/// The JSON in an answer of the CLI.
pub fn strip_cli_json_fence(answer: &str) -> (r: String)
    ensures
        r@ == cli_answer_json(answer@),
{
    let t = trim_chars(&chars_of(answer));
    if starts_with(&t, &chars_of("```")) {
        let count = split_lines(&t).len();
        if count > 2 {
            return inner_lines(&t);
        }
    }
    string_of(&t)
}

// ---------------------------------------------------------------------------
// Generated data
// ---------------------------------------------------------------------------

/// An issue made up by the model.
#[derive(Debug, Clone)]
pub struct GeneratedIssue {
    /// Epic, Story, Task or Bug.
    pub issue_type: String,
    pub summary: String,
    pub description: String,
    /// Highest, High, Medium, Low or Lowest.
    pub priority: String,
    pub labels: Vec<String>,
    pub story_points: Option<i32>,
    /// The key of the epic a story belongs to.
    pub parent_key: Option<String>,
    /// Days after the sprint's start when the issue was created.
    pub created_day_offset: i32,
    /// Days after the sprint's start when work began, if it did.
    pub started_day_offset: Option<i32>,
    /// Days after the sprint's start when it was done, if it was.
    pub completed_day_offset: Option<i32>,
    pub assignee: Option<String>,
}

/// A sprint made up by the model.
#[derive(Debug, Clone)]
pub struct SprintScenario {
    pub sprint_name: String,
    pub duration_days: i32,
    pub team_members: Vec<String>,
    pub issues: Vec<GeneratedIssue>,
}

// ---------------------------------------------------------------------------
// Prompts
// ---------------------------------------------------------------------------

/// The system prompt for the sprint request.
pub const SPRINT_SYSTEM: &'static str = "You are a JIRA test data generator. Generate realistic sprint data for software development projects.\nYour response must be valid JSON matching the expected schema exactly.\nUse realistic software development terminology and create believable issue hierarchies.";

/// Part of the sprint prompt.
pub const SPRINT_PROMPT_A: &'static str = "Generate a realistic sprint scenario for the following project:\n\nProject Context: ";

/// Part of the sprint prompt.
pub const SPRINT_PROMPT_B: &'static str = "\nTeam Size: ";

/// Part of the sprint prompt.
pub const SPRINT_PROMPT_C: &'static str = " developers\nSprint Duration: ";

/// Part of the sprint prompt.
pub const SPRINT_PROMPT_D: &'static str = " days\n\nGenerate a JSON object with this exact structure:\n{\n  \"sprint_name\": \"Sprint N\",\n  \"duration_days\": ";

/// Part of the sprint prompt.
pub const SPRINT_PROMPT_E: &'static str = ",\n  \"team_members\": [\"Developer Name 1\", \"Developer Name 2\", ...],\n  \"issues\": [\n    {\n      \"issue_type\": \"Epic|Story|Task|Bug\",\n      \"summary\": \"Brief issue title\",\n      \"description\": \"Detailed description of the issue\",\n      \"priority\": \"Highest|High|Medium|Low|Lowest\",\n      \"labels\": [\"label1\", \"label2\"],\n      \"story_points\": 1|2|3|5|8|13|null,\n      \"parent_key\": null,\n      \"created_day_offset\": 0,\n      \"started_day_offset\": null|number,\n      \"completed_day_offset\": null|number,\n      \"assignee\": \"Developer Name\"|null\n    }\n  ]\n}\n\nRequirements:\n1. Create 1-2 Epics as containers for the work\n2. Create 5-8 Stories under the epics (story_points: 1-8)\n3. Create 3-5 Tasks for infrastructure/support work\n4. Create 2-4 Bugs that get discovered during the sprint\n5. Use realistic day offsets to create a burndown chart pattern:\n   - Issues created_day_offset should be 0-3 (sprint planning)\n   - started_day_offset should progressively increase (1-";

/// Part of the sprint prompt.
pub const SPRINT_PROMPT_F: &'static str = ")\n   - completed_day_offset should be after started (2-";

/// Part of the sprint prompt.
pub const SPRINT_PROMPT_G: &'static str = ")\n   - Some issues should NOT be completed (completed_day_offset: null)\n   - Bugs appear mid-sprint (created_day_offset: 3-";

/// Part of the sprint prompt.
pub const SPRINT_PROMPT_H: &'static str = ")\n6. Assign work to team members realistically\n7. Use the project context to create relevant issue content\n\nGenerate Japanese issue titles and descriptions if the project context is in Japanese.";

/// The system prompt for the epic request.
pub const EPIC_SYSTEM: &'static str = "You are a JIRA test data generator. Generate realistic epic hierarchies for software development projects.\nYour response must be valid JSON array matching the expected schema exactly.";

/// Part of the epic prompt.
pub const EPIC_PROMPT_A: &'static str = "Generate an epic with related stories and tasks for:\n\nProject Context: ";

/// Part of the epic prompt.
pub const EPIC_PROMPT_B: &'static str = "\nEpic Theme: ";

/// Part of the epic prompt.
pub const EPIC_PROMPT_C: &'static str = "\n\nGenerate a JSON array with this structure:\n[\n  {\n    \"issue_type\": \"Epic\",\n    \"summary\": \"Epic title\",\n    \"description\": \"Epic description\",\n    \"priority\": \"High\",\n    \"labels\": [\"epic-label\"],\n    \"story_points\": null,\n    \"parent_key\": null,\n    \"created_day_offset\": 0,\n    \"started_day_offset\": null,\n    \"completed_day_offset\": null,\n    \"assignee\": null\n  },\n  {\n    \"issue_type\": \"Story\",\n    \"summary\": \"Story title\",\n    \"description\": \"User story description\",\n    \"priority\": \"Medium\",\n    \"labels\": [\"feature\"],\n    \"story_points\": 5,\n    \"parent_key\": \"EPIC\",\n    \"created_day_offset\": 0,\n    \"started_day_offset\": 1,\n    \"completed_day_offset\": 5,\n    \"assignee\": \"Developer\"\n  }\n]\n\nRequirements:\n1. Create 1 Epic\n2. Create 3-5 Stories under the epic\n3. Create 1-2 Tasks for each story (technical tasks)\n4. Set parent_key to \"EPIC\" for stories (will be replaced with actual key)\n5. Use realistic story points (1, 2, 3, 5, 8)\n6. Generate Japanese content if the project context is in Japanese";

/// The system prompt for the bugs request.
pub const BUGS_SYSTEM: &'static str = "You are a JIRA test data generator. Generate realistic bugs for software development projects.\nYour response must be valid JSON array matching the expected schema exactly.";

/// Part of the bugs prompt.
pub const BUGS_PROMPT_A: &'static str = "Generate ";

/// Part of the bugs prompt.
pub const BUGS_PROMPT_B: &'static str = " realistic bugs for:\n\nProject Context: ";

/// Part of the bugs prompt.
pub const BUGS_PROMPT_C: &'static str = "\nSprint Duration: ";

/// Part of the bugs prompt.
pub const BUGS_PROMPT_D: &'static str = " days\n\nGenerate a JSON array of bugs:\n[\n  {\n    \"issue_type\": \"Bug\",\n    \"summary\": \"Bug title describing the issue\",\n    \"description\": \"Steps to reproduce, expected vs actual behavior\",\n    \"priority\": \"Highest|High|Medium|Low\",\n    \"labels\": [\"bug\", \"category\"],\n    \"story_points\": null,\n    \"parent_key\": null,\n    \"created_day_offset\": number (3-";

/// Part of the bugs prompt.
pub const BUGS_PROMPT_E: &'static str = "),\n    \"started_day_offset\": number|null,\n    \"completed_day_offset\": number|null,\n    \"assignee\": \"Developer\"|null\n  }\n]\n\nRequirements:\n1. Bugs appear mid-sprint (day 3+)\n2. Mix of priorities (some critical, some minor)\n3. Some bugs fixed quickly, some take longer\n4. Some bugs not yet fixed (completed_day_offset: null)\n5. Realistic bug descriptions with reproduction steps\n6. Generate Japanese content if the project context is in Japanese";

/// Half of `d`, rounded toward zero (as Rust's `/` rounds).
pub open spec fn half_toward_zero(d: int) -> int {
    if d >= 0 {
        d / 2
    } else {
        -((-d) / 2)
    }
}

/// Appends the decimal form of `n`.
fn append_decimal(s: &mut String, n: u64)
    ensures
        final(s)@ == old(s)@ + decimal(n as nat),
{
    s.append(string_of(&decimal_chars(n)).as_str());
}

/// Appends the decimal form of `n`, with a `-` when it is negative.
fn append_signed(s: &mut String, n: i64)
    ensures
        final(s)@ == old(s)@ + signed_decimal(n as int),
{
    s.append(string_of(&signed_decimal_chars(n)).as_str());
}

/// The prompt that asks for a sprint of `team_size` developers lasting
/// `days` days, for the project described by `context`.
pub open spec fn sprint_prompt_text(context: Seq<char>, team_size: nat, days: int) -> Seq<char> {
    SPRINT_PROMPT_A@ + context + SPRINT_PROMPT_B@ + decimal(team_size) + SPRINT_PROMPT_C@
        + signed_decimal(days) + SPRINT_PROMPT_D@ + signed_decimal(days) + SPRINT_PROMPT_E@
        + signed_decimal(days) + SPRINT_PROMPT_F@ + signed_decimal(days) + SPRINT_PROMPT_G@
        + signed_decimal(half_toward_zero(days)) + SPRINT_PROMPT_H@
}

/// Executable form of [`sprint_prompt_text`].
pub fn sprint_prompt(context: &str, team_size: usize, days: i32) -> (r: String)
    ensures
        r@ == sprint_prompt_text(context@, team_size as nat, days as int),
{
    let d = days as i64;
    let half = if d >= 0 {
        d / 2
    } else {
        -((-d) / 2)
    };
    let mut r = owned(SPRINT_PROMPT_A);
    r.append(context);
    r.append(SPRINT_PROMPT_B);
    append_decimal(&mut r, team_size as u64);
    r.append(SPRINT_PROMPT_C);
    append_signed(&mut r, d);
    r.append(SPRINT_PROMPT_D);
    append_signed(&mut r, d);
    r.append(SPRINT_PROMPT_E);
    append_signed(&mut r, d);
    r.append(SPRINT_PROMPT_F);
    append_signed(&mut r, d);
    r.append(SPRINT_PROMPT_G);
    append_signed(&mut r, half);
    r.append(SPRINT_PROMPT_H);
    r
}

/// The prompt that asks for an epic on `theme` with its stories and
/// tasks, for the project described by `context`.
pub open spec fn epic_prompt_text(context: Seq<char>, theme: Seq<char>) -> Seq<char> {
    EPIC_PROMPT_A@ + context + EPIC_PROMPT_B@ + theme + EPIC_PROMPT_C@
}

/// Executable form of [`epic_prompt_text`].
pub fn epic_prompt(context: &str, theme: &str) -> (r: String)
    ensures
        r@ == epic_prompt_text(context@, theme@),
{
    let mut r = owned(EPIC_PROMPT_A);
    r.append(context);
    r.append(EPIC_PROMPT_B);
    r.append(theme);
    r.append(EPIC_PROMPT_C);
    r
}

/// The prompt that asks for `count` bugs found during a sprint of `days`
/// days, for the project described by `context`.
pub open spec fn bugs_prompt_text(context: Seq<char>, count: nat, days: int) -> Seq<char> {
    BUGS_PROMPT_A@ + decimal(count) + BUGS_PROMPT_B@ + context + BUGS_PROMPT_C@
        + signed_decimal(days) + BUGS_PROMPT_D@ + signed_decimal(days - 2) + BUGS_PROMPT_E@
}

/// Executable form of [`bugs_prompt_text`]. The sprint length less two
/// must fit in an `i32`.
pub fn bugs_prompt(context: &str, count: usize, days: i32) -> (r: String)
    requires
        days >= i32::MIN + 2,
    ensures
        r@ == bugs_prompt_text(context@, count as nat, days as int),
{
    let mut r = owned(BUGS_PROMPT_A);
    append_decimal(&mut r, count as u64);
    r.append(BUGS_PROMPT_B);
    r.append(context);
    r.append(BUGS_PROMPT_C);
    append_signed(&mut r, days as i64);
    r.append(BUGS_PROMPT_D);
    append_signed(&mut r, (days - 2) as i64);
    r.append(BUGS_PROMPT_E);
    r
}

/// What the CLI is sent for a request: the first line of the request's
/// system prompt, a blank line, the prompt the API gets, and a last
/// reminder to answer in JSON.
pub open spec fn cli_prompt_text(intro: Seq<char>, prompt: Seq<char>) -> Seq<char> {
    intro + "\n\n"@ + prompt + "\n\nRespond with valid JSON only."@
}

/// The first line of each system prompt, which opens the CLI's prompt.
pub const SPRINT_INTRO: &'static str = "You are a JIRA test data generator. Generate realistic sprint data for software development projects.";

/// See [`SPRINT_INTRO`].
pub const EPIC_INTRO: &'static str = "You are a JIRA test data generator. Generate realistic epic hierarchies for software development projects.";

/// See [`SPRINT_INTRO`].
pub const BUGS_INTRO: &'static str = "You are a JIRA test data generator. Generate realistic bugs for software development projects.";

/// Executable form of [`cli_prompt_text`].
pub fn cli_prompt(intro: &str, prompt: &str) -> (r: String)
    ensures
        r@ == cli_prompt_text(intro@, prompt@),
{
    let mut r = owned(intro);
    r.append("\n\n");
    r.append(prompt);
    r.append("\n\nRespond with valid JSON only.");
    r
}

// ---------------------------------------------------------------------------
// The CLI client
// ---------------------------------------------------------------------------

/// The client that runs the service's command-line tool with `-p`, which
/// uses a subscription of that tool in place of an API key.
#[derive(Debug, Clone)]
pub struct ClaudeCliClient {
    /// Pass `--dangerously-skip-permissions`, so that no permission prompt
    /// stops the command.
    pub skip_permissions: bool,
}

impl ClaudeCliClient {
    /// A client that skips permission prompts.
    pub fn new() -> (r: Self)
        ensures
            r.skip_permissions,
    {
        ClaudeCliClient { skip_permissions: true }
    }

    /// The arguments of the command-line tool for `prompt`.
    pub fn arguments(&self, prompt: &str) -> (r: Vec<String>)
        ensures
            string_views(r@) == (if self.skip_permissions {
                seq!["-p"@, prompt@, "--dangerously-skip-permissions"@, "--output-format"@, "text"@]
            } else {
                seq!["-p"@, prompt@, "--output-format"@, "text"@]
            }),
    {
        let mut r: Vec<String> = Vec::new();
        r.push(owned("-p"));
        r.push(owned(prompt));
        if self.skip_permissions {
            r.push(owned("--dangerously-skip-permissions"));
        }
        r.push(owned("--output-format"));
        r.push(owned("text"));
        proof {
            if self.skip_permissions {
                assert(string_views(r@) =~= seq![
                    "-p"@,
                    prompt@,
                    "--dangerously-skip-permissions"@,
                    "--output-format"@,
                    "text"@,
                ]);
            } else {
                assert(string_views(r@) =~= seq!["-p"@, prompt@, "--output-format"@, "text"@]);
            }
        }
        r
    }
}

impl Default for ClaudeCliClient {
    fn default() -> (r: Self)
        ensures
            r.skip_permissions,
    {
        ClaudeCliClient::new()
    }
}

} // verus!
