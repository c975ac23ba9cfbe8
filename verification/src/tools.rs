//! The tools the MCP server offers: their parameters, the shapes of their
//! answers, and the decisions they take before and after reading the
//! database.
use vstd::prelude::*;

use crate::jira::{opt_string_view, Issue};
use crate::sql::{
    apply_row_limit, ascii_normalized_query, ascii_statement, check_read_only_query, first_forbidden,
    forbidden_keywords, is_select_statement, limited_query, limited_query_by, normalized_query,
    strip_semicolons,
};
use crate::text::{chars_of, concat, decimal, first_occurrence, has_infix, trim, lemma_first_occurrence, owned, slice, str_eq, string_of};
use crate::time::UtcTime;

verus! {

// ---------------------------------------------------------------------------
// Parameters
// ---------------------------------------------------------------------------

/// Parameters of `search_issues`.
#[derive(Debug, Clone)]
pub struct SearchIssuesParams {
    /// Text to look for in summaries and descriptions.
    pub query: Option<String>,
    /// The project to search (all projects when absent).
    pub project: Option<String>,
    pub status: Option<String>,
    pub assignee: Option<String>,
    /// Most results (20 when absent).
    pub limit: Option<usize>,
    /// Results to skip.
    pub offset: Option<usize>,
}

/// Parameters of `get_issue`.
#[derive(Debug, Clone)]
pub struct GetIssueParams {
    /// The issue key, such as `PROJ-123`.
    pub issue_key: String,
    /// Include the issue's raw JSON.
    pub include_raw: Option<bool>,
}

/// Parameters of `get_issue_history`.
#[derive(Debug, Clone)]
pub struct GetIssueHistoryParams {
    pub issue_key: String,
    /// Only changes of this field.
    pub field: Option<String>,
    /// Most entries (100 when absent).
    pub limit: Option<usize>,
}

/// Parameters of `list_projects`.
#[derive(Debug, Clone)]
pub struct ListProjectsParams {
    /// Only projects enabled for sync.
    pub enabled_only: Option<bool>,
}

/// Parameters of `get_project_metadata`.
#[derive(Debug, Clone)]
pub struct GetProjectMetadataParams {
    pub project_key: String,
    /// `status`, `priority`, `issue-type`, `label`, `component`, `version`
    /// or `all`.
    pub metadata_type: Option<String>,
}

/// Parameters of `get_schema`.
#[derive(Debug, Clone)]
pub struct GetSchemaParams {
    /// The table whose columns are listed (all tables when absent).
    pub table: Option<String>,
    /// The project whose database is read.
    pub project: Option<String>,
}

/// Parameters of `execute_sql`.
#[derive(Debug, Clone)]
pub struct ExecuteSqlParams {
    /// The query; only `SELECT` statements run.
    pub query: String,
    /// Most rows (100 when absent).
    pub limit: Option<usize>,
    /// The project whose database is read.
    pub project: Option<String>,
}

/// Parameters of `semantic_search`.
#[derive(Debug, Clone)]
pub struct SemanticSearchParams {
    /// The question, in natural language.
    pub query: String,
    pub project: Option<String>,
    /// Most results (10 when absent).
    pub limit: Option<usize>,
}

/// The number of issues `search_issues` gives when no limit is set.
pub const SEARCH_DEFAULT_LIMIT: usize = 20;

/// The number of changes `get_issue_history` gives when no limit is set.
pub const HISTORY_DEFAULT_LIMIT: usize = 100;

/// The number of results `semantic_search` gives when no limit is set.
pub const SEMANTIC_DEFAULT_LIMIT: usize = 10;

// ---------------------------------------------------------------------------
// Answers
// ---------------------------------------------------------------------------

/// An issue as the tools show it.
#[derive(Debug, Clone)]
pub struct IssueResponse {
    pub key: String,
    pub summary: String,
    pub description: Option<String>,
    pub status: Option<String>,
    pub priority: Option<String>,
    pub assignee: Option<String>,
    pub reporter: Option<String>,
    pub issue_type: Option<String>,
    pub project_id: String,
    /// RFC 3339.
    pub created_date: Option<String>,
    /// RFC 3339.
    pub updated_date: Option<String>,
    pub raw_json: Option<String>,
}

/// A project as the tools show it.
#[derive(Debug, Clone)]
pub struct ProjectResponse {
    pub id: String,
    pub key: String,
    pub name: String,
    pub description: Option<String>,
}

/// One change of an issue as the tools show it.
#[derive(Debug, Clone)]
pub struct ChangeHistoryResponse {
    pub issue_key: String,
    pub field: String,
    pub from_value: Option<String>,
    pub to_value: Option<String>,
    pub author: Option<String>,
    /// RFC 3339.
    pub changed_at: String,
}

/// The RFC 3339 text that `chrono` writes for instant `t` in UTC
/// (`to_rfc3339`), or `None` when `chrono` cannot hold the instant.
pub uninterp spec fn rfc3339_text(t: UtcTime) -> Option<Seq<char>>;

/// `chrono::DateTime::from_timestamp` followed by `to_rfc3339`. Which text
/// that is is named, not stated; it depends on `t` alone.
#[verifier::external_body]
pub(crate) fn format_rfc3339(t: UtcTime) -> (r: Option<String>)
    ensures
        opt_string_view(r) == rfc3339_text(t),
{
    match chrono::DateTime::from_timestamp(t.secs, t.nanos) {
        Some(dt) => Some(dt.to_rfc3339()),
        None => None,
    }
}

/// An optional instant as RFC 3339 text.
pub open spec fn date_text(t: Option<UtcTime>) -> Option<Seq<char>> {
    match t {
        Some(t) => rfc3339_text(t),
        None => None,
    }
}

fn format_date(t: Option<UtcTime>) -> (r: Option<String>)
    ensures
        opt_string_view(r) == date_text(t),
{
    match t {
        Some(t) => format_rfc3339(t),
        None => None,
    }
}

/// Answer `a` shows `issue`: its fields, its dates as RFC 3339 text, and
/// its raw JSON when `with_raw` (none otherwise).
pub open spec fn shows_issue(a: IssueResponse, issue: Issue, with_raw: bool) -> bool {
    &&& a.key == issue.key
    &&& a.summary == issue.summary
    &&& a.description == issue.description
    &&& a.status == issue.status
    &&& a.priority == issue.priority
    &&& a.assignee == issue.assignee
    &&& a.reporter == issue.reporter
    &&& a.issue_type == issue.issue_type
    &&& a.project_id == issue.project_id
    &&& opt_string_view(a.created_date) == date_text(issue.created_date)
    &&& opt_string_view(a.updated_date) == date_text(issue.updated_date)
    &&& a.raw_json == (if with_raw { issue.raw_json } else { None })
}

impl IssueResponse {
    /// The answer for `issue`: its fields, with its dates as RFC 3339 text.
    pub fn from_issue(issue: Issue) -> (r: Self)
        ensures
            r.key == issue.key,
            r.summary == issue.summary,
            r.description == issue.description,
            r.status == issue.status,
            r.priority == issue.priority,
            r.assignee == issue.assignee,
            r.reporter == issue.reporter,
            r.issue_type == issue.issue_type,
            r.project_id == issue.project_id,
            opt_string_view(r.created_date) == date_text(issue.created_date),
            opt_string_view(r.updated_date) == date_text(issue.updated_date),
            r.raw_json == issue.raw_json,
    {
        let created_date = format_date(issue.created_date);
        let updated_date = format_date(issue.updated_date);
        IssueResponse {
            key: issue.key,
            summary: issue.summary,
            description: issue.description,
            status: issue.status,
            priority: issue.priority,
            assignee: issue.assignee,
            reporter: issue.reporter,
            issue_type: issue.issue_type,
            project_id: issue.project_id,
            created_date,
            updated_date,
            raw_json: issue.raw_json,
        }
    }
}

// ---------------------------------------------------------------------------
// Decisions
// ---------------------------------------------------------------------------

/// The project key of an issue key: what comes before its first `-` (all
/// of it when there is none).
pub open spec fn project_key_of(issue_key: Seq<char>) -> Seq<char> {
    match first_occurrence(issue_key, "-"@) {
        Some(i) => issue_key.take(i),
        None => issue_key,
    }
}

/// The project key of an issue key (`PROJ-123` gives `PROJ`). There always
/// is one: the text before the first `-`, or the whole key.
pub fn extract_project_key(issue_key: &str) -> (r: Option<String>)
    ensures
        r matches Some(k) && k@ == project_key_of(issue_key@),
{
    let c = chars_of(issue_key);
    let dash = chars_of("-");
    proof {
        lemma_first_occurrence(c@, dash@);
    }
    match crate::text::find(&c, &dash) {
        Some(i) => Some(string_of(&slice(&c, 0, i))),
        None => Some(owned(issue_key)),
    }
}

/// What `execute_sql` does with its parameters.
#[derive(Debug, Clone)]
pub enum SqlToolPlan {
    /// No project was named: answer with the databases there are.
    NeedProject,
    /// The query may not run: answer with this message.
    Refused(String),
    /// Run `query` on the database of `project_key`.
    Run { project_key: String, query: String },
}

/// The row limit asked for, as the SQL guard takes it.
pub open spec fn row_limit(limit: Option<usize>) -> Option<u64> {
    match limit {
        Some(n) => Some(n as u64),
        None => None,
    }
}

/// The plan for a query on the database of project `p`, when `u` is its
/// normalised statement and `limited` the statement with its row limit:
/// refused when `u` is not a `SELECT` or holds a forbidden word, else run.
pub open spec fn sql_plan_for(p: Seq<char>, query: Seq<char>, u: Seq<char>, limited: Seq<char>, r: SqlToolPlan) -> bool {
    &&& !is_select_statement(u) ==> (r matches SqlToolPlan::Refused(m) && m@
        == "Only SELECT queries are allowed for read-only access"@)
    &&& is_select_statement(u) ==> match first_forbidden(u) {
        Some(i) => r matches SqlToolPlan::Refused(m) && m@ == "Query contains forbidden keyword: "@
            + forbidden_keywords()[i],
        None => r matches SqlToolPlan::Run { project_key, query: q } && project_key@ == p
            && q@ == limited,
    }
}

/// What `execute_sql` does: without a project it asks for one; a query
/// that is not a read-only `SELECT` is refused; otherwise the query runs on
/// the project's database, with a row limit added when it has none.
pub fn plan_sql_query(params: &ExecuteSqlParams) -> (r: SqlToolPlan)
    requires
        params.limit matches Some(n) ==> n <= u64::MAX,
    ensures
        params.project is None ==> r is NeedProject,
        params.project matches Some(p) ==> sql_plan_for(
            p@,
            params.query@,
            normalized_query(params.query@),
            limited_query(params.query@, row_limit(params.limit)),
            r,
        ),
        params.project matches Some(p) ==> ascii_statement(params.query@) ==> sql_plan_for(
            p@,
            params.query@,
            ascii_normalized_query(params.query@),
            limited_query_by(params.query@, ascii_normalized_query(params.query@), row_limit(params.limit)),
            r,
        ),
        r matches SqlToolPlan::Run { query: q, .. } ==> (has_infix(normalized_query(params.query@), "LIMIT"@)
            ==> q@ == params.query@),
        r matches SqlToolPlan::Run { query: q, .. } ==> (!has_infix(normalized_query(params.query@), "LIMIT"@)
            ==> q@ == strip_semicolons(trim(params.query@)) + " LIMIT "@ + decimal(
            match params.limit {
                Some(n) => n as nat,
                None => 100,
            },
        )),
{
    let project_key = match &params.project {
        Some(p) => p.clone(),
        None => {
            return SqlToolPlan::NeedProject;
        },
    };
    match check_read_only_query(params.query.as_str()) {
        Err(rejection) => SqlToolPlan::Refused(rejection.message()),
        Ok(_) => {
            let limit = match params.limit {
                Some(n) => Some(n as u64),
                None => None,
            };
            SqlToolPlan::Run { project_key, query: apply_row_limit(params.query.as_str(), limit) }
        },
    }
}

/// What `get_issue` answers, from the issues that a search for the key
/// found: the first whose key is the one asked for, without its raw JSON
/// unless that was asked for; or the message that there is no such issue.
pub fn issue_answer(found: Vec<Issue>, params: &GetIssueParams) -> (r: Result<IssueResponse, String>)
    ensures
        (forall|i: int| 0 <= i < found@.len() ==> found@[i].key@ != params.issue_key@) ==> (r matches Err(m)
            && m@ == "Issue "@ + params.issue_key@ + " not found"@),
        r matches Ok(a) ==> exists|i: int| 0 <= i < found@.len() && found@[i].key@ == params.issue_key@
            && (forall|j: int| 0 <= j < i ==> found@[j].key@ != params.issue_key@)
            && shows_issue(a, found@[i], params.include_raw == Some(true)),
        (exists|i: int| 0 <= i < found@.len() && found@[i].key@ == params.issue_key@) ==> r is Ok,
{
    let mut items = found;
    let n = items.len();
    let ghost given = items@;
    let mut i: usize = 0;
    while i < n
        invariant
            n == items@.len(),
            items@ == given,
            given == found@,
            i <= n,
            forall|j: int| 0 <= j < i ==> given[j].key@ != params.issue_key@,
        decreases n - i,
    {
        if str_eq(items[i].key.as_str(), params.issue_key.as_str()) {
            assert(given[i as int].key@ == params.issue_key@);
            let issue = items.remove(i);
            assert(issue == given[i as int]);
            let mut answer = IssueResponse::from_issue(issue);
            let with_raw = match params.include_raw {
                Some(b) => b,
                None => false,
            };
            if !with_raw {
                answer.raw_json = None;
            }
            assert(shows_issue(answer, given[i as int], params.include_raw == Some(true)));
            return Ok(answer);
        }
        i = i + 1;
    }
    let mut m = owned("Issue ");
    m.append(params.issue_key.as_str());
    m.append(" not found");
    Err(m)
}

// ---------------------------------------------------------------------------
// Semantic search
// ---------------------------------------------------------------------------

/// What `semantic_search` searches once its checks pass: the project whose
/// embeddings are searched, the key the question is embedded with, and the
/// number of results.
#[derive(Debug, Clone)]
pub struct SemanticSearchPlan {
    pub project_key: String,
    pub api_key: String,
    pub limit: usize,
}

/// The message `semantic_search` answers without a project.
pub const SEMANTIC_NEEDS_PROJECT: &'static str = "Project key is required for semantic search. Use the 'project' parameter.";

/// The message `semantic_search` answers when the embeddings table cannot
/// be read.
pub const SEMANTIC_NO_TABLE: &'static str = "Semantic search is not available. Embeddings table not initialized. Please run 'jira-db embeddings' to generate embeddings for issues.";

/// The message `semantic_search` answers when there are no embeddings.
pub const SEMANTIC_NO_EMBEDDINGS: &'static str = "No embeddings found. Please run 'jira-db embeddings' to generate embeddings for issues.";

/// The message `semantic_search` answers without a key to embed the
/// question with.
pub const SEMANTIC_NEEDS_KEY: &'static str = "Semantic search requires OPENAI_API_KEY environment variable to be set for query embedding.";

/// The project `semantic_search` reads, or the message that one is needed.
pub fn semantic_search_project(params: &SemanticSearchParams) -> (r: Result<String, String>)
    ensures
        params.project matches Some(p) ==> (r matches Ok(k) && k@ == p@),
        params.project is None ==> (r matches Err(m) && m@ == SEMANTIC_NEEDS_PROJECT@),
{
    match &params.project {
        Some(p) => Ok(p.clone()),
        None => Err(owned(SEMANTIC_NEEDS_PROJECT)),
    }
}

/// The search `semantic_search` makes in the database of `project_key`,
/// given the number of embeddings stored there (`None` when the table
/// cannot be read) and the key to embed the question with; or the message
/// that it cannot search, checked in that order.
pub fn plan_semantic_search(
    params: &SemanticSearchParams,
    project_key: String,
    embedding_count: Option<usize>,
    api_key: Option<String>,
) -> (r: Result<SemanticSearchPlan, String>)
    ensures
        embedding_count is None ==> (r matches Err(m) && m@ == SEMANTIC_NO_TABLE@),
        embedding_count == Some(0usize) ==> (r matches Err(m) && m@ == SEMANTIC_NO_EMBEDDINGS@),
        (embedding_count matches Some(n) && n > 0 && api_key is None) ==> (r matches Err(m) && m@
            == SEMANTIC_NEEDS_KEY@),
        (embedding_count matches Some(n) && n > 0 && api_key is Some) ==> (r matches Ok(plan)
            && plan.project_key == project_key && Some(plan.api_key) == api_key && plan.limit
            == match params.limit {
            Some(l) => l,
            None => SEMANTIC_DEFAULT_LIMIT,
        }),
{
    match embedding_count {
        None => Err(owned(SEMANTIC_NO_TABLE)),
        Some(0) => Err(owned(SEMANTIC_NO_EMBEDDINGS)),
        Some(_) => match api_key {
            None => Err(owned(SEMANTIC_NEEDS_KEY)),
            Some(k) => {
                let limit = match params.limit {
                    Some(l) => l,
                    None => SEMANTIC_DEFAULT_LIMIT,
                };
                Ok(SemanticSearchPlan { project_key, api_key: k, limit })
            },
        },
    }
}

/// The search for the issues whose embeddings lie nearest to a question,
/// within one project. Its parameters: the question's embedding as an array
/// text, the project id and the number of results.
pub const NEAREST_IN_PROJECT_SQL: &'static str = "SELECT e.issue_key, i.summary, i.description, i.status, i.project_id, array_cosine_distance(e.embedding, ?::FLOAT[]) as distance FROM issue_embeddings e JOIN issues i ON e.issue_id = i.id WHERE i.project_id = ? ORDER BY distance ASC LIMIT ?";

/// The search for the issues whose embeddings lie nearest to a question,
/// over all projects. Its parameters: the question's embedding as an array
/// text and the number of results.
pub const NEAREST_SQL: &'static str = "SELECT e.issue_key, i.summary, i.description, i.status, i.project_id, array_cosine_distance(e.embedding, ?::FLOAT[]) as distance FROM issue_embeddings e JOIN issues i ON e.issue_id = i.id ORDER BY distance ASC LIMIT ?";

/// The nearest-issues search: within one project when `by_project`.
pub fn nearest_issues_sql(by_project: bool) -> (r: &'static str)
    ensures
        by_project ==> r@ == NEAREST_IN_PROJECT_SQL@,
        !by_project ==> r@ == NEAREST_SQL@,
{
    if by_project {
        NEAREST_IN_PROJECT_SQL
    } else {
        NEAREST_SQL
    }
}

// ---------------------------------------------------------------------------
// Listing answers
// ---------------------------------------------------------------------------

/// The number of changes `get_issue_history` gives: the limit asked for, or
/// [`HISTORY_DEFAULT_LIMIT`].
pub fn history_limit(params: &GetIssueHistoryParams) -> (r: usize)
    ensures
        r == match params.limit {
            Some(l) => l,
            None => HISTORY_DEFAULT_LIMIT,
        },
{
    match params.limit {
        Some(l) => l,
        None => HISTORY_DEFAULT_LIMIT,
    }
}

/// The message `list_projects` adds when it found databases but no project
/// in them.
pub const PROJECTS_WITHOUT_METADATA: &'static str = "Project databases found but no project metadata. Run 'jira-db sync' to populate.";

/// The message `get_schema` adds to the list of databases when no project
/// was named.
pub const SCHEMA_NEEDS_PROJECT: &'static str = "Please specify a project key using the 'project' parameter to get schema";

/// `list_projects` answers with the databases alone: it found no project
/// in them, and there are some.
pub fn list_databases_only(project_count: usize, database_count: usize) -> (r: bool)
    ensures
        r == (project_count == 0 && database_count > 0),
{
    project_count == 0 && database_count > 0
}

} // verus!
