//! The settings file: JIRA connection, the projects that are mirrored, where
//! the databases live, and the optional embedding and log settings.
use vstd::prelude::*;

use crate::error::DomainError;
use crate::text::{concat, copy_opt, owned, str_eq};
use crate::time::UtcTime;

verus! {

// ---------------------------------------------------------------------------
// Paths
// ---------------------------------------------------------------------------

/// What `Path::join` gives for `base` and `part` on Unix: an absolute
/// `part` (one that starts with `/`) replaces `base`; a relative one is
/// appended, after a `/` when `base` is not empty and does not already end
/// with one.
pub open spec fn joined_path(base: Seq<char>, part: Seq<char>) -> Seq<char> {
    if part.len() > 0 && part[0] == '/' {
        part
    } else if base.len() > 0 && base.last() != '/' {
        base + seq!['/'] + part
    } else {
        base + part
    }
}

/// `Path::join` (see [`joined_path`]).
#[verifier::external_body]
pub(crate) fn join_path(base: &str, part: &str) -> (r: String)
    ensures
        r@ == joined_path(base@, part@),
{
    std::path::Path::new(base).join(part).to_string_lossy().into_owned()
}

/// Whether `Path::is_relative` holds of `p` on Unix: the path does not
/// start at the root `/`.
pub open spec fn relative_path(p: Seq<char>) -> bool {
    !(p.len() > 0 && p[0] == '/')
}

/// `std::path::Path::is_relative` (see [`relative_path`]).
#[verifier::external_body]
pub(crate) fn is_relative_path(p: &str) -> (r: bool)
    ensures
        r == relative_path(p@),
{
    std::path::Path::new(p).is_relative()
}

/// What `Path::parent` gives for `p`.
pub uninterp spec fn parent_path(p: Seq<char>) -> Option<Seq<char>>;

/// `std::path::Path::parent`: the path without its last part, or `None`
/// for a root or an empty path. Which text that is is named, not stated.
#[verifier::external_body]
pub(crate) fn parent_of_path(p: &str) -> (r: Option<String>)
    ensures
        match r {
            Some(s) => parent_path(p@) == Some(s@),
            None => parent_path(p@) is None,
        },
{
    match std::path::Path::new(p).parent() {
        Some(q) => Some(q.to_string_lossy().into_owned()),
        None => None,
    }
}

// ---------------------------------------------------------------------------
// Configuration types
// ---------------------------------------------------------------------------

/// Configuration of file logging.
#[derive(Debug, Clone)]
pub struct LogConfig {
    /// Whether logs are also written to files.
    pub file_enabled: bool,
    /// Directory of the log files (the database directory's `logs` when
    /// absent).
    pub file_dir: Option<String>,
    /// Level of file output: "error", "warn", "info", "debug" or "trace".
    pub level: String,
    /// How many log files are kept (0: no limit).
    pub max_files: usize,
}

/// The log level used when none is configured.
pub fn default_log_level() -> (r: String)
    ensures
        r@ == "info"@,
{
    owned("info")
}

/// The number of log files kept when none is configured.
pub fn default_max_files() -> (r: usize)
    ensures
        r == 10,
{
    10
}

impl Default for LogConfig {
    fn default() -> (r: Self)
        ensures
            !r.file_enabled,
            r.file_dir is None,
            r.level@ == "info"@,
            r.max_files == 10,
    {
        LogConfig {
            file_enabled: false,
            file_dir: None,
            level: default_log_level(),
            max_files: default_max_files(),
        }
    }
}

impl LogConfig {
    /// A field-by-field copy.
    pub fn duplicate(&self) -> (r: LogConfig)
        ensures
            r == *self,
    {
        LogConfig {
            file_enabled: self.file_enabled,
            file_dir: copy_opt(&self.file_dir),
            level: self.level.clone(),
            max_files: self.max_files,
        }
    }
}

/// Connection to a JIRA site.
#[derive(Debug, Clone)]
pub struct JiraConfig {
    pub endpoint: String,
    pub username: String,
    pub api_key: String,
}

/// Where an interrupted sync resumes.
#[derive(Debug, Clone)]
pub struct SyncCheckpoint {
    /// Update time of the last issue that was stored.
    pub last_issue_updated_at: UtcTime,
    /// Key of that issue (orders issues updated at the same time).
    pub last_issue_key: String,
    /// Issues processed so far in this sync.
    pub items_processed: usize,
    /// Issues the sync expects in all.
    pub total_items: usize,
}

/// Where an interrupted snapshot generation resumes.
#[derive(Debug, Clone)]
pub struct SnapshotCheckpoint {
    /// Id of the last issue that was processed.
    pub last_issue_id: String,
    /// Key of the last issue that was processed.
    pub last_issue_key: String,
    /// Issues processed so far.
    pub issues_processed: usize,
    /// Issues to process in all.
    pub total_issues: usize,
    /// Snapshots generated so far.
    pub snapshots_generated: usize,
}

/// A JIRA project known to the settings.
#[derive(Debug, Clone)]
pub struct ProjectConfig {
    pub id: String,
    pub key: String,
    pub name: String,
    /// Whether the project is mirrored by a sync of all projects.
    pub sync_enabled: bool,
    /// When the project was last synced successfully.
    pub last_synced: Option<UtcTime>,
    pub sync_checkpoint: Option<SyncCheckpoint>,
    pub snapshot_checkpoint: Option<SnapshotCheckpoint>,
}

/// Where the databases live.
#[derive(Debug, Clone)]
pub struct DatabaseConfig {
    /// Single database file of older settings (kept for compatibility).
    pub path: Option<String>,
    /// Directory of the per-project databases: `{database_dir}/{key}.duckdb`.
    pub database_dir: String,
}

/// The database directory used when none is configured.
pub fn default_database_dir() -> (r: String)
    ensures
        r@ == "./data"@,
{
    owned("./data")
}

/// Configuration of embedding generation.
#[derive(Debug, Clone)]
pub struct EmbeddingsConfig {
    /// "openai", "ollama" or "cohere".
    pub provider: String,
    pub api_key: Option<String>,
    /// Key of older settings; `api_key` takes precedence.
    pub openai_api_key: Option<String>,
    pub model: String,
    /// Endpoint URL (Ollama).
    pub endpoint: Option<String>,
    /// Whether a sync also generates embeddings.
    pub auto_generate: bool,
}

/// The provider used when none is configured.
pub fn default_provider() -> (r: String)
    ensures
        r@ == "openai"@,
{
    owned("openai")
}

/// The embedding model used when none is configured.
pub fn default_embedding_model() -> (r: String)
    ensures
        r@ == "text-embedding-3-small"@,
{
    owned("text-embedding-3-small")
}

impl Default for EmbeddingsConfig {
    fn default() -> (r: Self)
        ensures
            r.provider@ == "openai"@,
            r.api_key is None,
            r.openai_api_key is None,
            r.model@ == "text-embedding-3-small"@,
            r.endpoint is None,
            !r.auto_generate,
    {
        EmbeddingsConfig {
            provider: default_provider(),
            api_key: None,
            openai_api_key: None,
            model: default_embedding_model(),
            endpoint: None,
            auto_generate: false,
        }
    }
}

impl EmbeddingsConfig {
    /// The API key in effect: `api_key`, else `openai_api_key`.
    pub fn get_api_key(&self) -> (r: Option<&String>)
        ensures
            r == match self.api_key {
                Some(k) => Some(&k),
                None => match self.openai_api_key {
                    Some(k) => Some(&k),
                    None => None,
                },
            },
    {
        match &self.api_key {
            Some(k) => Some(k),
            None => match &self.openai_api_key {
                Some(k) => Some(k),
                None => None,
            },
        }
    }
}

// ---------------------------------------------------------------------------
// Settings
// ---------------------------------------------------------------------------

/// The contents of the settings file.
#[derive(Debug, Clone)]
pub struct Settings {
    pub jira: JiraConfig,
    pub projects: Vec<ProjectConfig>,
    pub database: DatabaseConfig,
    pub embeddings: Option<EmbeddingsConfig>,
    pub log: Option<LogConfig>,
    /// Enables test-data creation and verbose logging.
    pub debug_mode: bool,
}

/// The position of the first project with key `key`, from `k` on.
pub open spec fn project_index_from(ps: Seq<ProjectConfig>, key: Seq<char>, k: int) -> Option<int>
    decreases ps.len() - k,
{
    if k < 0 || k >= ps.len() {
        None
    } else if ps[k].key@ == key {
        Some(k)
    } else {
        project_index_from(ps, key, k + 1)
    }
}

/// The position of the first project with key `key`.
pub open spec fn project_index(ps: Seq<ProjectConfig>, key: Seq<char>) -> Option<int> {
    project_index_from(ps, key, 0)
}

/// The first project with key `key`.
pub open spec fn project_with_key(ps: Seq<ProjectConfig>, key: Seq<char>) -> Option<ProjectConfig> {
    match project_index(ps, key) {
        Some(i) => Some(ps[i]),
        None => None,
    }
}

/// The projects after an upsert of `p`: the first project with its key is
/// replaced, or `p` is appended when there is none.
pub open spec fn upserted(ps: Seq<ProjectConfig>, p: ProjectConfig) -> Seq<ProjectConfig> {
    match project_index(ps, p.key@) {
        Some(i) => ps.update(i, p),
        None => ps.push(p),
    }
}

/// The projects that a sync of all projects mirrors, in order.
pub open spec fn enabled_projects(ps: Seq<ProjectConfig>) -> Seq<ProjectConfig>
    decreases ps.len(),
{
    if ps.len() == 0 {
        seq![]
    } else if ps.last().sync_enabled {
        enabled_projects(ps.drop_last()).push(ps.last())
    } else {
        enabled_projects(ps.drop_last())
    }
}

/// No two projects share a key.
pub open spec fn keys_unique(ps: Seq<ProjectConfig>) -> bool {
    forall|i: int, j: int| 0 <= i < ps.len() && 0 <= j < ps.len() && i != j ==> ps[i].key@
        != ps[j].key@
}

/// What the first project with key `key` is, and that none before it has
/// that key; when there is none, no project has it.
pub proof fn lemma_project_index_from(ps: Seq<ProjectConfig>, key: Seq<char>, k: int)
    requires
        0 <= k,
    ensures
        project_index_from(ps, key, k) matches Some(i) ==> k <= i < ps.len() && ps[i].key@ == key
            && forall|j: int| k <= j < i ==> ps[j].key@ != key,
        project_index_from(ps, key, k) is None ==> forall|j: int| k <= j < ps.len() ==> ps[j].key@
            != key,
    decreases ps.len() - k,
{
    if k < ps.len() && ps[k].key@ != key {
        lemma_project_index_from(ps, key, k + 1);
    }
}

/// The validation error for settings whose JIRA connection is incomplete.
pub open spec fn validation_error(s: Settings) -> Option<Seq<char>> {
    if s.jira.endpoint@.len() == 0 {
        Some("JIRA endpoint cannot be empty"@)
    } else if s.jira.username@.len() == 0 {
        Some("JIRA username cannot be empty"@)
    } else if s.jira.api_key@.len() == 0 || s.jira.api_key@ == "your-api-key-here"@ {
        Some("JIRA API key must be configured"@)
    } else {
        None
    }
}

/// The settings [`Settings::create_default`] writes do not pass
/// [`Settings::validate`]: their API key is the placeholder, which must be
/// replaced before the settings are used.
pub proof fn lemma_default_settings_need_a_key(s: Settings)
    requires
        s.jira.endpoint@ == "https://your-domain.atlassian.net"@,
        s.jira.username@ == "user@example.com"@,
        s.jira.api_key@ == "your-api-key-here"@,
    ensures
        validation_error(s) == Some("JIRA API key must be configured"@),
{
    reveal_strlit("https://your-domain.atlassian.net");
    reveal_strlit("user@example.com");
}

impl Settings {
    /// Settings with the given JIRA connection and database directory, no
    /// projects and no optional parts.
    pub fn new(jira: JiraConfig, database_dir: String) -> (r: Settings)
        ensures
            r.jira == jira,
            r.projects@.len() == 0,
            r.database.path is None,
            r.database.database_dir == database_dir,
            r.embeddings is None,
            r.log is None,
            !r.debug_mode,
    {
        Settings {
            jira,
            projects: Vec::new(),
            database: DatabaseConfig { path: None, database_dir },
            embeddings: None,
            log: None,
            debug_mode: false,
        }
    }

    /// The settings written when no settings file exists yet: placeholder
    /// JIRA values that [`Settings::validate`] refuses, and `./data` as the
    /// database directory.
    pub fn create_default() -> (r: Settings)
        ensures
            r.jira.endpoint@ == "https://your-domain.atlassian.net"@,
            r.jira.username@ == "user@example.com"@,
            r.jira.api_key@ == "your-api-key-here"@,
            r.projects@.len() == 0,
            r.database.path is None,
            r.database.database_dir@ == "./data"@,
            r.embeddings is None,
            r.log is None,
            !r.debug_mode,
    {
        Settings {
            jira: JiraConfig {
                endpoint: owned("https://your-domain.atlassian.net"),
                username: owned("user@example.com"),
                api_key: owned("your-api-key-here"),
            },
            projects: Vec::new(),
            database: DatabaseConfig { path: None, database_dir: owned("./data") },
            embeddings: None,
            log: None,
            debug_mode: false,
        }
    }

    /// The path of the settings file when none is given.
    pub fn default_path() -> (r: Result<String, DomainError>)
        ensures
            r matches Ok(p) && p@ == "./data/settings.json"@,
    {
        Ok(owned("./data/settings.json"))
    }

    /// The log configuration, or the default one when none is set.
    pub fn get_log_config(&self) -> (r: LogConfig)
        ensures
            self.log matches Some(l) ==> r == l,
            self.log is None ==> !r.file_enabled && r.file_dir is None && r.level@ == "info"@
                && r.max_files == 10,
    {
        match &self.log {
            Some(l) => l.duplicate(),
            None => LogConfig::default(),
        }
    }

    /// The directory of the log files: the configured one, else `logs` in
    /// the database directory.
    pub fn get_log_dir(&self) -> (r: String)
        ensures
            r@ == match self.log {
                Some(l) => match l.file_dir {
                    Some(d) => d@,
                    None => joined_path(self.database.database_dir@, "logs"@),
                },
                None => joined_path(self.database.database_dir@, "logs"@),
            },
    {
        match &self.log {
            Some(l) => match &l.file_dir {
                Some(d) => return d.clone(),
                None => {},
            },
            None => {},
        }
        join_path(self.database.database_dir.as_str(), "logs")
    }

    /// Checks that the JIRA connection is configured: endpoint and user
    /// name present, and an API key other than the placeholder.
    pub fn validate(&self) -> (r: Result<(), DomainError>)
        ensures
            validation_error(*self) is None ==> r is Ok,
            validation_error(*self) matches Some(m) ==> (r matches Err(DomainError::Validation(e))
                && e@ == m),
    {
        if self.jira.endpoint.as_str().is_empty() {
            return Err(DomainError::Validation(owned("JIRA endpoint cannot be empty")));
        }
        if self.jira.username.as_str().is_empty() {
            return Err(DomainError::Validation(owned("JIRA username cannot be empty")));
        }
        let placeholder = owned("your-api-key-here");
        if self.jira.api_key.as_str().is_empty() || self.jira.api_key == placeholder {
            return Err(DomainError::Validation(owned("JIRA API key must be configured")));
        }
        Ok(())
    }

    /// The position of the first project with key `key`.
    pub fn project_position(&self, key: &str) -> (r: Option<usize>)
        ensures
            r matches Some(i) ==> project_index(self.projects@, key@) == Some(i as int) && i
                < self.projects@.len(),
            r is None ==> project_index(self.projects@, key@) is None,
    {
        let mut i: usize = 0;
        while i < self.projects.len()
            invariant
                i <= self.projects.len(),
                project_index(self.projects@, key@) == project_index_from(
                    self.projects@,
                    key@,
                    i as int,
                ),
            decreases self.projects.len() - i,
        {
            if str_eq(self.projects[i].key.as_str(), key) {
                return Some(i);
            }
            i = i + 1;
        }
        None
    }

    /// The first project with key `key`.
    pub fn find_project(&self, key: &str) -> (r: Option<&ProjectConfig>)
        ensures
            r == match project_with_key(self.projects@, key@) {
                Some(p) => Some(&p),
                None => None,
            },
    {
        match self.project_position(key) {
            Some(i) => Some(&self.projects[i]),
            None => None,
        }
    }

    /// The first project with key `key`, to be changed in place.
    pub fn find_project_mut(&mut self, key: &str) -> (r: Option<&mut ProjectConfig>)
        ensures
            match project_index(old(self).projects@, key@) {
                Some(i) => r matches Some(p) && *p == old(self).projects@[i]
                    && final(self).projects@ == old(self).projects@.update(i, *final(p)),
                None => r is None && final(self).projects@ == old(self).projects@,
            },
            final(self).jira == old(self).jira,
            final(self).database == old(self).database,
            final(self).embeddings == old(self).embeddings,
            final(self).log == old(self).log,
            final(self).debug_mode == old(self).debug_mode,
    {
        match self.project_position(key) {
            Some(i) => Some(&mut self.projects[i]),
            None => None,
        }
    }

    /// Replaces the first project with the same key as `project`, or appends
    /// `project` when there is none.
    pub fn upsert_project(&mut self, project: ProjectConfig)
        ensures
            final(self).projects@ == upserted(old(self).projects@, project),
            final(self).jira == old(self).jira,
            final(self).database == old(self).database,
            final(self).embeddings == old(self).embeddings,
            final(self).log == old(self).log,
            final(self).debug_mode == old(self).debug_mode,
    {
        match self.project_position(project.key.as_str()) {
            Some(i) => {
                self.projects.set(i, project);
            },
            None => {
                self.projects.push(project);
            },
        }
    }

    /// The projects that a sync of all projects mirrors, in order.
    pub fn sync_enabled_projects(&self) -> (r: Vec<&ProjectConfig>)
        ensures
            r@.map_values(|p: &ProjectConfig| *p) == enabled_projects(self.projects@),
    {
        let mut r: Vec<&ProjectConfig> = Vec::new();
        for i in 0..self.projects.len()
            invariant
                r@.map_values(|p: &ProjectConfig| *p) == enabled_projects(
                    self.projects@.take(i as int),
                ),
        {
            proof {
                assert(self.projects@.take(i + 1).drop_last() =~= self.projects@.take(i as int));
            }
            let ghost before = r@.map_values(|p: &ProjectConfig| *p);
            if self.projects[i].sync_enabled {
                r.push(&self.projects[i]);
                assert(r@.map_values(|p: &ProjectConfig| *p) =~= before.push(self.projects@[i as int]));
            }
        }
        assert(self.projects@.take(self.projects.len() as int) =~= self.projects@);
        r
    }

    /// The database file of a project: `{database_dir}/{key}.duckdb`.
    pub fn get_database_path_for_project(&self, project_key: &str) -> (r: String)
        ensures
            r@ == joined_path(self.database.database_dir@, project_key@ + ".duckdb"@),
    {
        database_path_in(self.database.database_dir.as_str(), project_key)
    }

    /// Where a relative database directory lies when the settings were read
    /// from `settings_path`: the directory joined to the settings file's
    /// directory. `None` when the directory is absolute or the settings
    /// path has no parent; the caller makes the path canonical when it can.
    pub fn resolved_database_dir(&self, settings_path: &str) -> (r: Option<String>)
        ensures
            r matches Some(d) ==> (relative_path(self.database.database_dir@) && (parent_path(
                settings_path@,
            ) matches Some(b) && d@ == joined_path(b, self.database.database_dir@))),
            r is None ==> !relative_path(self.database.database_dir@) || parent_path(
                settings_path@,
            ) is None,
    {
        if !is_relative_path(self.database.database_dir.as_str()) {
            return None;
        }
        match parent_of_path(settings_path) {
            Some(b) => Some(join_path(b.as_str(), self.database.database_dir.as_str())),
            None => None,
        }
    }

    /// The directory of the per-project databases.
    pub fn get_database_dir(&self) -> (r: &str)
        ensures
            r@ == self.database.database_dir@,
    {
        self.database.database_dir.as_str()
    }
}

// ---------------------------------------------------------------------------
// Laws of the project list
// ---------------------------------------------------------------------------

/// A position holding `key`, with no earlier position from `k` on holding
/// it, is what [`project_index_from`] finds.
pub proof fn lemma_project_index_is(ps: Seq<ProjectConfig>, key: Seq<char>, k: int, i: int)
    requires
        0 <= k <= i < ps.len(),
        ps[i].key@ == key,
        forall|j: int| k <= j < i ==> ps[j].key@ != key,
    ensures
        project_index_from(ps, key, k) == Some(i),
    decreases i - k,
{
    if k < i {
        lemma_project_index_is(ps, key, k + 1, i);
    }
}

/// When no position from `k` on holds `key`, [`project_index_from`] finds
/// nothing.
pub proof fn lemma_project_index_none(ps: Seq<ProjectConfig>, key: Seq<char>, k: int)
    requires
        0 <= k,
        forall|j: int| k <= j < ps.len() ==> ps[j].key@ != key,
    ensures
        project_index_from(ps, key, k) is None,
    decreases ps.len() - k,
{
    if k < ps.len() {
        lemma_project_index_none(ps, key, k + 1);
    }
}

/// After an upsert, looking the project's key up finds the project that was
/// upserted.
pub proof fn lemma_upsert_then_find(ps: Seq<ProjectConfig>, p: ProjectConfig)
    ensures
        project_with_key(upserted(ps, p), p.key@) == Some(p),
{
    lemma_project_index_from(ps, p.key@, 0);
    let qs = upserted(ps, p);
    match project_index(ps, p.key@) {
        Some(i) => {
            assert forall|j: int| 0 <= j < i implies qs[j].key@ != p.key@ by {
                assert(qs[j] == ps[j]);
            }
            lemma_project_index_is(qs, p.key@, 0, i);
        },
        None => {
            let n = ps.len() as int;
            assert forall|j: int| 0 <= j < n implies qs[j].key@ != p.key@ by {
                assert(qs[j] == ps[j]);
            }
            lemma_project_index_is(qs, p.key@, 0, n);
        },
    }
}

/// An upsert leaves what the other keys look up unchanged.
pub proof fn lemma_upsert_keeps_other_keys(ps: Seq<ProjectConfig>, p: ProjectConfig, key: Seq<char>)
    requires
        key != p.key@,
    ensures
        project_with_key(upserted(ps, p), key) == project_with_key(ps, key),
{
    lemma_project_index_from(ps, p.key@, 0);
    lemma_project_index_from(ps, key, 0);
    let qs = upserted(ps, p);
    assert forall|j: int| 0 <= j < ps.len() implies (qs[j].key@ == key) == (ps[j].key@ == key)
        by {
        if project_index(ps, p.key@) == Some(j) {
            assert(qs[j] == p);
        } else {
            assert(qs[j] == ps[j]);
        }
    }
    match project_index(ps, key) {
        Some(i) => {
            lemma_project_index_is(qs, key, 0, i);
            if project_index(ps, p.key@) != Some(i) {
                assert(qs[i] == ps[i]);
            }
        },
        None => {
            if qs.len() > ps.len() {
                assert(qs[ps.len() as int] == p);
            }
            lemma_project_index_none(qs, key, 0);
        },
    }
}

/// An upsert keeps the keys of the projects distinct.
pub proof fn lemma_upsert_keeps_keys_unique(ps: Seq<ProjectConfig>, p: ProjectConfig)
    requires
        keys_unique(ps),
    ensures
        keys_unique(upserted(ps, p)),
{
    lemma_project_index_from(ps, p.key@, 0);
    let qs = upserted(ps, p);
    match project_index(ps, p.key@) {
        Some(i) => {
            assert forall|a: int, b: int|
                0 <= a < qs.len() && 0 <= b < qs.len() && a != b implies qs[a].key@
                != qs[b].key@ by {
                if a == i {
                    assert(ps[b].key@ != ps[i].key@);
                } else if b == i {
                    assert(ps[a].key@ != ps[i].key@);
                }
            }
        },
        None => {
            assert forall|a: int, b: int|
                0 <= a < qs.len() && 0 <= b < qs.len() && a != b implies qs[a].key@
                != qs[b].key@ by {
                if a == ps.len() {
                    assert(qs[b] == ps[b]);
                } else if b == ps.len() {
                    assert(qs[a] == ps[a]);
                } else {
                    assert(qs[a] == ps[a] && qs[b] == ps[b]);
                }
            }
        },
    }
}

/// The projects a sync of all projects mirrors are enabled projects of the
/// settings, each in the list.
pub proof fn lemma_enabled_projects_sound(ps: Seq<ProjectConfig>)
    ensures
        enabled_projects(ps).len() <= ps.len(),
        forall|i: int|
            0 <= i < enabled_projects(ps).len() ==> (#[trigger] enabled_projects(ps)[i]).sync_enabled
                && ps.contains(enabled_projects(ps)[i]),
    decreases ps.len(),
{
    if ps.len() > 0 {
        let rest = ps.drop_last();
        lemma_enabled_projects_sound(rest);
        let e = enabled_projects(ps);
        assert forall|i: int| 0 <= i < e.len() implies (#[trigger] e[i]).sync_enabled && ps.contains(
            e[i],
        ) by {
            if i < enabled_projects(rest).len() {
                assert(e[i] == enabled_projects(rest)[i]);
                let j = choose|j: int| 0 <= j < rest.len() && rest[j] == e[i];
                assert(ps[j] == e[i]);
            } else {
                assert(ps[ps.len() - 1] == e[i]);
            }
        }
    }
}

/// Every enabled project is among those a sync of all projects mirrors.
pub proof fn lemma_enabled_projects_complete(ps: Seq<ProjectConfig>, i: int)
    requires
        0 <= i < ps.len(),
        ps[i].sync_enabled,
    ensures
        enabled_projects(ps).contains(ps[i]),
    decreases ps.len(),
{
    let rest = ps.drop_last();
    if i < ps.len() - 1 {
        lemma_enabled_projects_complete(rest, i);
        assert(rest[i] == ps[i]);
        let k = choose|k: int| 0 <= k < enabled_projects(rest).len() && enabled_projects(rest)[k] == ps[i];
        if ps.last().sync_enabled {
            assert(enabled_projects(ps)[k] == ps[i]);
        }
    } else {
        let e = enabled_projects(ps);
        assert(e[e.len() - 1] == ps[i]);
    }
}

// ---------------------------------------------------------------------------
// Project database files
// ---------------------------------------------------------------------------

/// The position of the last `.` in `s` before position `k`, if any.
pub open spec fn last_dot_before(s: Seq<char>, k: int) -> Option<int>
    decreases k,
{
    if k <= 0 {
        None
    } else if s[k - 1] == '.' {
        Some(k - 1)
    } else {
        last_dot_before(s, k - 1)
    }
}

/// The project whose database is the file named `name`: the stem of a
/// `.duckdb` file (a name that is only `.duckdb` has no extension and
/// names none).
pub open spec fn database_key(name: Seq<char>) -> Option<Seq<char>> {
    match last_dot_before(name, name.len() as int) {
        Some(k) => if k > 0 && name.skip(k + 1) == "duckdb"@ {
            Some(name.take(k))
        } else {
            None
        },
        None => None,
    }
}

/// Executable form of [`database_key`].
pub fn database_key_of(name: &str) -> (r: Option<String>)
    ensures
        match r {
            Some(k) => database_key(name@) == Some(k@),
            None => database_key(name@) is None,
        },
{
    let c = crate::text::chars_of(name);
    let mut k = c.len();
    while k > 0 && c[k - 1] != '.'
        invariant
            k <= c.len(),
            last_dot_before(c@, c@.len() as int) == last_dot_before(c@, k as int),
        decreases k,
    {
        k = k - 1;
    }
    if k <= 1 {
        return None;
    }
    let ext = crate::text::slice(&c, k, c.len());
    let want = crate::text::chars_of("duckdb");
    assert(ext@ =~= c@.skip(k as int));
    if crate::text::seq_eq(&ext, &want) {
        Some(crate::text::string_of(&crate::text::slice(&c, 0, k - 1)))
    } else {
        None
    }
}

/// The projects that have a database among the files named `names`, in
/// order.
pub open spec fn database_keys(names: Seq<Seq<char>>) -> Seq<Seq<char>>
    decreases names.len(),
{
    if names.len() == 0 {
        seq![]
    } else {
        match database_key(names.last()) {
            Some(k) => database_keys(names.drop_last()).push(k),
            None => database_keys(names.drop_last()),
        }
    }
}

/// The database file of project `project_key` in directory `database_dir`:
/// `{database_dir}/{project_key}.duckdb`.
pub fn database_path_in(database_dir: &str, project_key: &str) -> (r: String)
    ensures
        r@ == joined_path(database_dir@, project_key@ + ".duckdb"@),
{
    let file = concat(project_key, ".duckdb");
    join_path(database_dir, file.as_str())
}

/// Executable form of [`database_keys`], for the names of the files in the
/// database directory.
pub fn project_database_keys(names: &Vec<String>) -> (r: Vec<String>)
    ensures
        crate::text::string_views(r@) == database_keys(crate::text::string_views(names@)),
{
    let ghost views = crate::text::string_views(names@);
    let mut r: Vec<String> = Vec::new();
    for i in 0..names.len()
        invariant
            views == crate::text::string_views(names@),
            crate::text::string_views(r@) == database_keys(views.take(i as int)),
    {
        proof {
            assert(views.take(i + 1).drop_last() =~= views.take(i as int));
            assert(views.take(i + 1).last() == names@[i as int]@);
        }
        match database_key_of(names[i].as_str()) {
            Some(k) => {
                let ghost before = crate::text::string_views(r@);
                r.push(k);
                assert(crate::text::string_views(r@) =~= before.push(r@[r@.len() - 1]@));
            },
            None => {},
        }
    }
    assert(views.take(names.len() as int) =~= views);
    r
}

/// A project's database file names the project again: the file
/// `{key}.duckdb` that [`Settings::get_database_path_for_project`] gives a
/// project is listed under `key` (for a key that is not empty).
pub proof fn lemma_database_file_names_its_project(key: Seq<char>)
    requires
        key.len() > 0,
    ensures
        database_key(key + ".duckdb"@) == Some(key),
{
    reveal_strlit(".duckdb");
    reveal_strlit("duckdb");
    let ext = ".duckdb"@;
    assert(ext =~= seq!['.', 'd', 'u', 'c', 'k', 'd', 'b']);
    let name = key + ext;
    let m = key.len() as int;
    let n = name.len() as int;
    assert(n == m + 7);
    assert forall|j: int| 0 <= j < 7 implies name[m + j] == ext[j] by {}
    assert(name[n - 1] != '.' && name[n - 2] != '.' && name[n - 3] != '.');
    assert(name[n - 4] != '.' && name[n - 5] != '.' && name[n - 6] != '.' && name[n - 7] == '.');
    reveal_with_fuel(last_dot_before, 8);
    assert(last_dot_before(name, n) == Some(key.len() as int));
    assert(name.skip(key.len() as int + 1) =~= "duckdb"@);
    assert(name.take(key.len() as int) =~= key);
}

} // verus!
