//! Errors of the service layer and the small decisions its services make.
use vstd::prelude::*;

use crate::config::{
    enabled_projects, join_path, joined_path, lemma_project_index_from, project_index,
    project_with_key, ProjectConfig, Settings, SyncCheckpoint,
};
use crate::embeddings::{unknown_provider_message, EmbeddingProviderType};
use crate::error::DomainError;
use crate::text::{concat, has_suffix, owned, str_eq, unicode_lower};
use crate::time::UtcTime;

verus! {

/// Errors reported by the service layer.
#[derive(Debug, Clone)]
pub enum ServiceError {
    NotInitialized,
    NotFound(String),
    InvalidRequest(String),
    Database(String),
    JiraApi(String),
    Config(String),
    Io(String),
    Internal(String),
}

impl ServiceError {
    /// The human-readable text of the error.
    pub fn message(&self) -> (r: String)
        ensures
            r@ == match self {
                ServiceError::NotInitialized => "Not initialized"@,
                ServiceError::NotFound(m) => "Not found: "@ + m@,
                ServiceError::InvalidRequest(m) => "Invalid request: "@ + m@,
                ServiceError::Database(m) => "Database error: "@ + m@,
                ServiceError::JiraApi(m) => "JIRA API error: "@ + m@,
                ServiceError::Config(m) => "Configuration error: "@ + m@,
                ServiceError::Io(m) => "IO error: "@ + m@,
                ServiceError::Internal(m) => "Internal error: "@ + m@,
            },
    {
        match self {
            ServiceError::NotInitialized => owned("Not initialized"),
            ServiceError::NotFound(m) => concat("Not found: ", m.as_str()),
            ServiceError::InvalidRequest(m) => concat("Invalid request: ", m.as_str()),
            ServiceError::Database(m) => concat("Database error: ", m.as_str()),
            ServiceError::JiraApi(m) => concat("JIRA API error: ", m.as_str()),
            ServiceError::Config(m) => concat("Configuration error: ", m.as_str()),
            ServiceError::Io(m) => concat("IO error: ", m.as_str()),
            ServiceError::Internal(m) => concat("Internal error: ", m.as_str()),
        }
    }
}

// ---------------------------------------------------------------------------
// Projects
// ---------------------------------------------------------------------------

/// A project as the service shows it.
#[derive(Debug, Clone)]
pub struct ProjectSummary {
    pub id: String,
    pub key: String,
    pub name: String,
    pub description: Option<String>,
    /// Whether a sync of all projects mirrors it.
    pub enabled: bool,
    pub last_synced_at: Option<UtcTime>,
}

/// The summary of project `p`.
pub open spec fn summary_of(p: ProjectConfig) -> ProjectSummary {
    ProjectSummary {
        id: p.id,
        key: p.key,
        name: p.name,
        description: None,
        enabled: p.sync_enabled,
        last_synced_at: p.last_synced,
    }
}

/// The summary of project `p`.
pub fn summarize(p: &ProjectConfig) -> (r: ProjectSummary)
    ensures
        r == summary_of(*p),
{
    ProjectSummary {
        id: p.id.clone(),
        key: p.key.clone(),
        name: p.name.clone(),
        description: None,
        enabled: p.sync_enabled,
        last_synced_at: p.last_synced,
    }
}

/// The projects of the settings, in order.
pub fn list_projects(settings: &Settings) -> (r: Vec<ProjectSummary>)
    ensures
        r@ == settings.projects@.map_values(|p: ProjectConfig| summary_of(p)),
{
    let mut r: Vec<ProjectSummary> = Vec::new();
    for i in 0..settings.projects.len()
        invariant
            r@ == settings.projects@.take(i as int).map_values(|p: ProjectConfig| summary_of(p)),
    {
        r.push(summarize(&settings.projects[i]));
        assert(settings.projects@.take(i + 1).map_values(|p: ProjectConfig| summary_of(p))
            =~= settings.projects@.take(i as int).map_values(|p: ProjectConfig| summary_of(p)).push(
            summary_of(settings.projects@[i as int]),
        ));
    }
    assert(settings.projects@.take(settings.projects.len() as int) =~= settings.projects@);
    r
}

/// Listing shows every project of the settings, in order, with its own id,
/// key and name, whether it is enabled for sync and when it was last
/// synced; no description.
pub proof fn lemma_listed_projects(ps: Seq<ProjectConfig>)
    ensures
        ps.map_values(|p: ProjectConfig| summary_of(p)).len() == ps.len(),
        forall|i: int|
            0 <= i < ps.len() ==> {
                let s = ps.map_values(|p: ProjectConfig| summary_of(p))[i];
                let p = #[trigger] ps[i];
                &&& s.id == p.id
                &&& s.key == p.key
                &&& s.name == p.name
                &&& s.description is None
                &&& s.enabled == p.sync_enabled
                &&& s.last_synced_at == p.last_synced
            },
{
}

/// The projects after the first one with key `key` (if any) is set to be
/// synced or not.
pub open spec fn with_sync(ps: Seq<ProjectConfig>, key: Seq<char>, enabled: bool) -> Seq<ProjectConfig> {
    match project_index(ps, key) {
        Some(i) => ps.update(i, ProjectConfig { sync_enabled: enabled, ..ps[i] }),
        None => ps,
    }
}

/// Turns syncing of the project with key `key` on or off, and gives the
/// project; a key that no project has is not found.
pub fn set_project_sync(settings: &mut Settings, key: &str, enabled: bool) -> (r: Result<
    ProjectSummary,
    ServiceError,
>)
    ensures
        final(settings).projects@ == with_sync(old(settings).projects@, key@, enabled),
        final(settings).jira == old(settings).jira,
        final(settings).database == old(settings).database,
        final(settings).embeddings == old(settings).embeddings,
        final(settings).log == old(settings).log,
        final(settings).debug_mode == old(settings).debug_mode,
        match project_with_key(final(settings).projects@, key@) {
            Some(p) => r == Ok::<ProjectSummary, ServiceError>(summary_of(p)),
            None => r matches Err(ServiceError::NotFound(m)) && m@ == "Project not found"@,
        },
{
    match settings.find_project_mut(key) {
        Some(p) => {
            p.sync_enabled = enabled;
        },
        None => {},
    }
    proof {
        lemma_project_index_from(old(settings).projects@, key@, 0);
        lemma_with_sync_keeps_index(old(settings).projects@, key@, enabled);
    }
    match settings.find_project(key) {
        Some(p) => Ok(summarize(p)),
        None => Err(ServiceError::NotFound(owned("Project not found"))),
    }
}

/// Turning syncing on or off changes no key, so the first project with a
/// key stays where it was.
pub proof fn lemma_with_sync_keeps_index(ps: Seq<ProjectConfig>, key: Seq<char>, enabled: bool)
    ensures
        forall|k: Seq<char>| #[trigger] project_index(with_sync(ps, key, enabled), k) == project_index(ps, k),
{
    lemma_project_index_from(ps, key, 0);
    assert forall|k: Seq<char>| #[trigger] project_index(with_sync(ps, key, enabled), k) == project_index(ps, k) by {
        let qs = with_sync(ps, key, enabled);
        assert(qs.len() == ps.len());
        assert(forall|j: int| 0 <= j < ps.len() ==> qs[j].key == ps[j].key);
        lemma_same_keys_same_index(ps, qs, k, 0);
    }
}

/// Two project lists with the same keys at the same positions find a key at
/// the same position.
pub proof fn lemma_same_keys_same_index(ps: Seq<ProjectConfig>, qs: Seq<ProjectConfig>, key: Seq<char>, k: int)
    requires
        ps.len() == qs.len(),
        forall|j: int| 0 <= j < ps.len() ==> qs[j].key == ps[j].key,
    ensures
        crate::config::project_index_from(qs, key, k) == crate::config::project_index_from(ps, key, k),
    decreases ps.len() - k,
{
    if 0 <= k < ps.len() && ps[k].key@ != key {
        lemma_same_keys_same_index(ps, qs, key, k + 1);
    }
}

/// After syncing is turned on or off for a project that exists, the
/// project with that key has that setting, and every other position keeps
/// its project.
pub proof fn lemma_set_sync_effect(ps: Seq<ProjectConfig>, key: Seq<char>, enabled: bool)
    requires
        project_index(ps, key) is Some,
    ensures
        project_with_key(with_sync(ps, key, enabled), key) matches Some(p) && p.sync_enabled == enabled
            && p == (ProjectConfig { sync_enabled: enabled, ..project_with_key(ps, key)->0 }),
        with_sync(ps, key, enabled).len() == ps.len(),
        forall|j: int| 0 <= j < ps.len() && Some(j) != project_index(ps, key)
            ==> with_sync(ps, key, enabled)[j] == ps[j],
{
    lemma_with_sync_keeps_index(ps, key, enabled);
    lemma_project_index_from(ps, key, 0);
}

/// Turning syncing on twice is turning it on once.
pub proof fn lemma_set_sync_idempotent(ps: Seq<ProjectConfig>, key: Seq<char>, enabled: bool)
    ensures
        with_sync(with_sync(ps, key, enabled), key, enabled) == with_sync(ps, key, enabled),
{
    lemma_with_sync_keeps_index(ps, key, enabled);
    lemma_project_index_from(ps, key, 0);
    match project_index(ps, key) {
        Some(i) => {
            assert(with_sync(with_sync(ps, key, enabled), key, enabled) =~= with_sync(ps, key, enabled));
        },
        None => {},
    }
}

/// Turning syncing off after turning it on gives back the projects as they
/// were, for a project that was not synced.
pub proof fn lemma_enable_then_disable(ps: Seq<ProjectConfig>, key: Seq<char>)
    requires
        project_with_key(ps, key) matches Some(p) ==> !p.sync_enabled,
    ensures
        with_sync(with_sync(ps, key, true), key, false) == ps,
{
    lemma_with_sync_keeps_index(ps, key, true);
    lemma_project_index_from(ps, key, 0);
    match project_index(ps, key) {
        Some(i) => {
            assert(with_sync(with_sync(ps, key, true), key, false) =~= ps);
        },
        None => {},
    }
}

/// A project fetched from JIRA.
#[derive(Debug, Clone)]
pub struct FetchedProject {
    pub id: String,
    pub key: String,
    pub name: String,
}

/// A project new to the settings: not synced, never synced.
pub open spec fn new_project(f: FetchedProject) -> ProjectConfig {
    ProjectConfig {
        id: f.id,
        key: f.key,
        name: f.name,
        sync_enabled: false,
        last_synced: None,
        sync_checkpoint: None,
        snapshot_checkpoint: None,
    }
}

/// The projects after the fetched ones are merged in, in order: each
/// fetched project whose key is not there yet is appended.
pub open spec fn merged(ps: Seq<ProjectConfig>, fetched: Seq<FetchedProject>) -> Seq<ProjectConfig>
    decreases fetched.len(),
{
    if fetched.len() == 0 {
        ps
    } else {
        let before = merged(ps, fetched.drop_last());
        let f = fetched.last();
        if project_index(before, f.key@) is Some {
            before
        } else {
            before.push(new_project(f))
        }
    }
}

/// Merges the projects fetched from JIRA into the settings (see
/// [`merged`]) and gives how many were fetched.
pub fn merge_fetched_projects(settings: &mut Settings, fetched: &Vec<FetchedProject>) -> (r: usize)
    ensures
        r == fetched@.len(),
        final(settings).projects@ == merged(old(settings).projects@, fetched@),
        forall|j: int|
            0 <= j < fetched@.len() && project_index(old(settings).projects@, fetched@[j].key@) is None
                && (forall|i: int| 0 <= i < j ==> fetched@[i].key@ != fetched@[j].key@) ==> (
            #[trigger] project_with_key(final(settings).projects@, fetched@[j].key@) matches Some(p)
                && p.id == fetched@[j].id && p.key == fetched@[j].key && p.name == fetched@[j].name
                && !p.sync_enabled),
        final(settings).jira == old(settings).jira,
        final(settings).database == old(settings).database,
        final(settings).embeddings == old(settings).embeddings,
        final(settings).log == old(settings).log,
        final(settings).debug_mode == old(settings).debug_mode,
{
    for i in 0..fetched.len()
        invariant
            settings.projects@ == merged(old(settings).projects@, fetched@.take(i as int)),
            settings.jira == old(settings).jira,
            settings.database == old(settings).database,
            settings.embeddings == old(settings).embeddings,
            settings.log == old(settings).log,
            settings.debug_mode == old(settings).debug_mode,
    {
        proof {
            assert(fetched@.take(i + 1).drop_last() =~= fetched@.take(i as int));
            assert(fetched@.take(i + 1).last() == fetched@[i as int]);
        }
        let f = &fetched[i];
        match settings.project_position(f.key.as_str()) {
            Some(_) => {},
            None => {
                settings.projects.push(
                    ProjectConfig {
                        id: f.id.clone(),
                        key: f.key.clone(),
                        name: f.name.clone(),
                        sync_enabled: false,
                        last_synced: None,
                        sync_checkpoint: None,
                        snapshot_checkpoint: None,
                    },
                );
            },
        }
    }
    assert(fetched@.take(fetched.len() as int) =~= fetched@);
    proof {
        lemma_merge_appends_fetched(old(settings).projects@, fetched@);
    }
    fetched.len()
}

/// Merging keeps every project there was where it was, and every fetched
/// key is there afterwards.
pub proof fn lemma_merge_keeps_and_adds(ps: Seq<ProjectConfig>, fetched: Seq<FetchedProject>)
    ensures
        merged(ps, fetched).len() >= ps.len(),
        merged(ps, fetched).subrange(0, ps.len() as int) == ps,
        forall|j: int| 0 <= j < fetched.len() ==> #[trigger] project_index(
            merged(ps, fetched),
            fetched[j].key@,
        ) is Some,
    decreases fetched.len(),
{
    if fetched.len() > 0 {
        let rest = fetched.drop_last();
        lemma_merge_keeps_and_adds(ps, rest);
        let before = merged(ps, rest);
        let f = fetched.last();
        assert(merged(ps, fetched).subrange(0, ps.len() as int) =~= ps);
        assert forall|j: int| 0 <= j < fetched.len() implies #[trigger] project_index(
            merged(ps, fetched),
            fetched[j].key@,
        ) is Some by {
            let k = fetched[j].key@;
            lemma_project_index_from(before, k, 0);
            if j < fetched.len() - 1 {
                assert(fetched[j] == rest[j]);
                assert(project_index(before, k) is Some);
                if project_index(before, f.key@) is None {
                    let i = project_index(before, k)->0;
                    crate::config::lemma_project_index_is(before.push(new_project(f)), k, 0, i);
                }
            } else {
                if project_index(before, f.key@) is None {
                    let after = before.push(new_project(f));
                    crate::config::lemma_project_index_is(after, k, 0, before.len() as int);
                }
            }
        }
    }
}

/// Every project a merge appends comes from a fetched project: it carries
/// that project's id, key and name, is not synced and has never been synced.
/// And each fetched project whose key was new (to the settings and to the
/// fetched projects before it) is then what the settings hold under its key.
pub proof fn lemma_merge_appends_fetched(ps: Seq<ProjectConfig>, fetched: Seq<FetchedProject>)
    ensures
        forall|k: int|
            ps.len() <= k < merged(ps, fetched).len() ==> exists|j: int|
                0 <= j < fetched.len() && #[trigger] merged(ps, fetched)[k].id == fetched[j].id
                    && merged(ps, fetched)[k].key == fetched[j].key && merged(ps, fetched)[k].name
                    == fetched[j].name && !merged(ps, fetched)[k].sync_enabled && merged(
                    ps,
                    fetched,
                )[k].last_synced is None && merged(ps, fetched)[k].sync_checkpoint is None
                    && merged(ps, fetched)[k].snapshot_checkpoint is None,
        forall|j: int|
            0 <= j < fetched.len() && project_index(ps, fetched[j].key@) is None && (forall|i: int|
                0 <= i < j ==> fetched[i].key@ != fetched[j].key@) ==> (#[trigger] project_with_key(
                merged(ps, fetched),
                fetched[j].key@,
            ) matches Some(p) && p.id == fetched[j].id && p.key == fetched[j].key && p.name
                == fetched[j].name && !p.sync_enabled),
    decreases fetched.len(),
{
    if fetched.len() > 0 {
        let rest = fetched.drop_last();
        lemma_merge_appends_fetched(ps, rest);
        lemma_merge_keeps_and_adds(ps, rest);
        let before = merged(ps, rest);
        let after = merged(ps, fetched);
        let f = fetched.last();
        let n = fetched.len() - 1;
        assert forall|k: int| ps.len() <= k < after.len() implies exists|j: int|
            0 <= j < fetched.len() && #[trigger] after[k].id == fetched[j].id && after[k].key
                == fetched[j].key && after[k].name == fetched[j].name && !after[k].sync_enabled
                && after[k].last_synced is None && after[k].sync_checkpoint is None
                && after[k].snapshot_checkpoint is None by {
            if k < before.len() {
                assert(after[k] == before[k]);
                let j = choose|j: int|
                    0 <= j < rest.len() && #[trigger] before[k].id == rest[j].id && before[k].key
                        == rest[j].key && before[k].name == rest[j].name && !before[k].sync_enabled
                        && before[k].last_synced is None && before[k].sync_checkpoint is None
                        && before[k].snapshot_checkpoint is None;
                assert(rest[j] == fetched[j]);
            } else {
                assert(after[k] == new_project(f));
                assert(after[k].id == fetched[n].id);
            }
        }
        assert forall|j: int|
            0 <= j < fetched.len() && project_index(ps, fetched[j].key@) is None && (forall|i: int|
                0 <= i < j ==> fetched[i].key@ != fetched[j].key@) implies (#[trigger] project_with_key(
                after,
                fetched[j].key@,
            ) matches Some(p) && p.id == fetched[j].id && p.key == fetched[j].key && p.name
                == fetched[j].name && !p.sync_enabled) by {
            let key = fetched[j].key@;
            if j < n {
                assert(rest[j] == fetched[j]);
                assert forall|i: int| 0 <= i < j implies rest[i].key@ != rest[j].key@ by {
                    assert(rest[i] == fetched[i]);
                }
                assert(project_with_key(before, rest[j].key@) is Some);
                lemma_project_index_from(before, key, 0);
                if project_index(before, f.key@) is None {
                    let i = project_index(before, key)->0;
                    crate::config::lemma_project_index_is(before.push(new_project(f)), key, 0, i);
                }
            } else {
                lemma_project_index_from(ps, key, 0);
                assert forall|k: int| 0 <= k < before.len() implies before[k].key@ != key by {
                    if k < ps.len() {
                        assert(before.subrange(0, ps.len() as int)[k] == before[k]);
                    } else {
                        let i = choose|i: int|
                            0 <= i < rest.len() && #[trigger] before[k].id == rest[i].id
                                && before[k].key == rest[i].key && before[k].name == rest[i].name
                                && !before[k].sync_enabled && before[k].last_synced is None
                                && before[k].sync_checkpoint is None
                                && before[k].snapshot_checkpoint is None;
                        assert(rest[i] == fetched[i]);
                    }
                }
                crate::config::lemma_project_index_none(before, key, 0);
                assert(after == before.push(new_project(f)));
                crate::config::lemma_project_index_is(after, key, 0, before.len() as int);
            }
        }
    }
}

/// Merging keeps keys unique.
pub proof fn lemma_merge_keeps_keys_unique(ps: Seq<ProjectConfig>, fetched: Seq<FetchedProject>)
    requires
        crate::config::keys_unique(ps),
    ensures
        crate::config::keys_unique(merged(ps, fetched)),
    decreases fetched.len(),
{
    if fetched.len() > 0 {
        let rest = fetched.drop_last();
        lemma_merge_keeps_keys_unique(ps, rest);
        let before = merged(ps, rest);
        let f = fetched.last();
        lemma_project_index_from(before, f.key@, 0);
        if project_index(before, f.key@) is None {
            let after = before.push(new_project(f));
            assert forall|i: int, j: int| 0 <= i < after.len() && 0 <= j < after.len() && i != j
                implies after[i].key@ != after[j].key@ by {
                if i < before.len() && j < before.len() {
                    assert(after[i] == before[i] && after[j] == before[j]);
                }
            }
        }
    }
}

// ---------------------------------------------------------------------------
// Small decisions
// ---------------------------------------------------------------------------

/// The provider that `provider` names (letter case ignored), or an invalid
/// request that says which providers there are.
pub fn parse_provider(provider: &str) -> (r: Result<EmbeddingProviderType, ServiceError>)
    ensures
        unicode_lower(provider@) == "openai"@ ==> r == Ok::<EmbeddingProviderType, ServiceError>(
            EmbeddingProviderType::OpenAI,
        ),
        unicode_lower(provider@) == "ollama"@ ==> r == Ok::<EmbeddingProviderType, ServiceError>(
            EmbeddingProviderType::Ollama,
        ),
        unicode_lower(provider@) == "cohere"@ ==> r == Ok::<EmbeddingProviderType, ServiceError>(
            EmbeddingProviderType::Cohere,
        ),
        unicode_lower(provider@) != "openai"@ && unicode_lower(provider@) != "ollama"@
            && unicode_lower(provider@) != "cohere"@ ==> (r matches Err(ServiceError::InvalidRequest(m))
            && m@ == unknown_provider_message(provider@)),
{
    match EmbeddingProviderType::parse_name(provider) {
        Ok(t) => Ok(t),
        Err(DomainError::Configuration(m)) => Err(ServiceError::InvalidRequest(m)),
        Err(DomainError::Repository(m)) => Err(ServiceError::InvalidRequest(m)),
        Err(DomainError::Validation(m)) => Err(ServiceError::InvalidRequest(m)),
        Err(DomainError::ExternalService(m)) => Err(ServiceError::InvalidRequest(m)),
    }
}

/// The database file the service opens when it is given a directory.
pub const DEFAULT_DB_FILENAME: &'static str = "jira.duckdb";

/// The characters of `p` after its last `/` (all of `p` when it has none).
pub open spec fn last_segment(p: Seq<char>) -> Seq<char>
    decreases p.len(),
{
    if p.len() == 0 || p.last() == '/' {
        seq![]
    } else {
        last_segment(p.drop_last()).push(p.last())
    }
}

/// The file name of `p` as `Path::file_name` finds it on Unix: the last
/// part of the path, trailing `/`s and `.` parts left out; `None` when no
/// part is left.
pub open spec fn file_name(p: Seq<char>) -> Option<Seq<char>>
    decreases p.len(),
{
    if p.len() == 0 {
        None
    } else if p.last() == '/' {
        file_name(p.drop_last())
    } else if last_segment(p) == seq!['.'] {
        file_name(p.drop_last())
    } else {
        Some(last_segment(p))
    }
}

/// Whether `Path::extension` finds an extension in `path` on Unix: its file
/// name is not `..` and has a `.` after its first character.
pub open spec fn path_has_extension(path: Seq<char>) -> bool {
    match file_name(path) {
        Some(n) => n != seq!['.', '.'] && exists|i: int| 0 < i < n.len() && n[i] == '.',
        None => false,
    }
}

/// `std::path::Path::extension(..).is_some()` (see [`path_has_extension`]).
#[verifier::external_body]
fn has_extension(path: &str) -> (r: bool)
    ensures
        r == path_has_extension(path@),
{
    std::path::Path::new(path).extension().is_some()
}

/// The database file for a configured path: in a directory (`is_dir`), or
/// in a path that names one (`.`, `..`, or ending in `/`, with no
/// extension), the file `jira.duckdb`; otherwise the path itself.
pub open spec fn db_file_path(path: Seq<char>, is_dir: bool) -> Seq<char> {
    if is_dir {
        joined_path(path, DEFAULT_DB_FILENAME@)
    } else if !path_has_extension(path) && !has_suffix(path, ".duckdb"@) && (path == "."@ || path
        == ".."@ || has_suffix(path, "/"@)) {
        joined_path(path, DEFAULT_DB_FILENAME@)
    } else {
        path
    }
}

/// Executable form of [`db_file_path`]; `is_dir` tells whether the path is
/// a directory on disk.
pub fn ensure_db_file_path(path: &str, is_dir: bool) -> (r: String)
    ensures
        r@ == db_file_path(path@, is_dir),
{
    if is_dir {
        return join_path(path, DEFAULT_DB_FILENAME);
    }
    let c = crate::text::chars_of(path);
    if !has_extension(path) && !crate::text::ends_with(&c, &crate::text::chars_of(".duckdb")) {
        if str_eq(path, ".") || str_eq(path, "..") || crate::text::ends_with(&c, &crate::text::chars_of("/")) {
            return join_path(path, DEFAULT_DB_FILENAME);
        }
    }
    owned(path)
}

// ---------------------------------------------------------------------------
// Syncing
// ---------------------------------------------------------------------------

/// A copy of a checkpoint.
pub fn copy_checkpoint(c: &Option<SyncCheckpoint>) -> (r: Option<SyncCheckpoint>)
    ensures
        r == *c,
{
    match c {
        Some(cp) => Some(
            SyncCheckpoint {
                last_issue_updated_at: cp.last_issue_updated_at,
                last_issue_key: cp.last_issue_key.clone(),
                items_processed: cp.items_processed,
                total_items: cp.total_items,
            },
        ),
        None => None,
    }
}

/// A project a sync works on: its key, its id and where an interrupted
/// sync of it stopped.
#[derive(Debug, Clone)]
pub struct SyncTarget {
    pub key: String,
    pub id: String,
    pub checkpoint: Option<SyncCheckpoint>,
}

/// The target for project `p`.
pub open spec fn target_of(p: ProjectConfig) -> SyncTarget {
    SyncTarget { key: p.key, id: p.id, checkpoint: p.sync_checkpoint }
}

/// The projects with key `key`, in order.
pub open spec fn projects_with_key(ps: Seq<ProjectConfig>, key: Seq<char>) -> Seq<ProjectConfig>
    decreases ps.len(),
{
    if ps.len() == 0 {
        seq![]
    } else if ps.last().key@ == key {
        projects_with_key(ps.drop_last(), key).push(ps.last())
    } else {
        projects_with_key(ps.drop_last(), key)
    }
}

/// The projects a sync works on: those with the requested key, or, when
/// none is requested, those enabled for sync.
pub open spec fn sync_selection(ps: Seq<ProjectConfig>, key: Option<Seq<char>>) -> Seq<ProjectConfig> {
    match key {
        Some(k) => projects_with_key(ps, k),
        None => enabled_projects(ps),
    }
}

/// The projects a sync works on (see [`sync_selection`]); an invalid
/// request when there are none.
pub fn projects_to_sync(settings: &Settings, project_key: Option<&str>) -> (r: Result<Vec<SyncTarget>, ServiceError>)
    ensures
        sync_selection(settings.projects@, match project_key { Some(k) => Some(k@), None => None }).len() == 0
            ==> (r matches Err(ServiceError::InvalidRequest(m)) && m@ == "No projects to sync"@),
        sync_selection(settings.projects@, match project_key { Some(k) => Some(k@), None => None }).len() > 0
            ==> (r matches Ok(ts) && ts@ == sync_selection(
            settings.projects@,
            match project_key {
                Some(k) => Some(k@),
                None => None,
            },
        ).map_values(|p: ProjectConfig| target_of(p))),
{
    let ghost key = match project_key {
        Some(k) => Some(k@),
        None => None,
    };
    let mut r: Vec<SyncTarget> = Vec::new();
    for i in 0..settings.projects.len()
        invariant
            key == match project_key {
                Some(k) => Some(k@),
                None => None::<Seq<char>>,
            },
            r@ == sync_selection(settings.projects@.take(i as int), key).map_values(
                |p: ProjectConfig| target_of(p),
            ),
    {
        let p = &settings.projects[i];
        proof {
            assert(settings.projects@.take(i + 1).drop_last() =~= settings.projects@.take(i as int));
            assert(settings.projects@.take(i + 1).last() == *p);
        }
        let chosen = match project_key {
            Some(k) => str_eq(p.key.as_str(), k),
            None => p.sync_enabled,
        };
        let ghost before = sync_selection(settings.projects@.take(i as int), key);
        if chosen {
            r.push(SyncTarget { key: p.key.clone(), id: p.id.clone(), checkpoint: copy_checkpoint(&p.sync_checkpoint) });
            assert(sync_selection(settings.projects@.take(i + 1), key) == before.push(*p));
            assert(before.push(*p).map_values(|p: ProjectConfig| target_of(p)) =~= before.map_values(
                |p: ProjectConfig| target_of(p),
            ).push(target_of(*p)));
        } else {
            assert(sync_selection(settings.projects@.take(i + 1), key) == before);
        }
    }
    assert(settings.projects@.take(settings.projects.len() as int) =~= settings.projects@);
    if r.len() == 0 {
        return Err(ServiceError::InvalidRequest(owned("No projects to sync")));
    }
    Ok(r)
}

/// A sync works on the projects with the requested key, or on those
/// enabled for sync when none is requested, in the order of the settings;
/// each target carries its project's key, id and checkpoint.
pub proof fn lemma_sync_targets(ps: Seq<ProjectConfig>, key: Option<Seq<char>>)
    ensures
        key matches Some(k) ==> sync_selection(ps, key) == ps.filter(|p: ProjectConfig| p.key@ == k),
        key is None ==> sync_selection(ps, key) == ps.filter(|p: ProjectConfig| p.sync_enabled),
        forall|i: int|
            0 <= i < sync_selection(ps, key).len() ==> {
                let t = sync_selection(ps, key).map_values(|p: ProjectConfig| target_of(p))[i];
                let p = #[trigger] sync_selection(ps, key)[i];
                &&& t.key == p.key
                &&& t.id == p.id
                &&& t.checkpoint == p.sync_checkpoint
            },
    decreases ps.len(),
{
    reveal(Seq::filter);
    if ps.len() > 0 {
        lemma_sync_targets(ps.drop_last(), key);
    }
}

/// The projects after the checkpoint of the first one with key `key` (if
/// any) is set to `checkpoint`.
pub open spec fn with_checkpoint(ps: Seq<ProjectConfig>, key: Seq<char>, checkpoint: Option<SyncCheckpoint>) -> Seq<ProjectConfig> {
    match project_index(ps, key) {
        Some(i) => ps.update(i, ProjectConfig { sync_checkpoint: checkpoint, ..ps[i] }),
        None => ps,
    }
}

/// Records where the sync of the project with key `key` stands.
pub fn set_checkpoint(settings: &mut Settings, key: &str, checkpoint: Option<SyncCheckpoint>)
    ensures
        final(settings).projects@ == with_checkpoint(old(settings).projects@, key@, checkpoint),
        final(settings).jira == old(settings).jira,
        final(settings).database == old(settings).database,
        final(settings).embeddings == old(settings).embeddings,
        final(settings).log == old(settings).log,
        final(settings).debug_mode == old(settings).debug_mode,
{
    match settings.find_project_mut(key) {
        Some(p) => {
            p.sync_checkpoint = checkpoint;
        },
        None => {},
    }
}

/// What the settings keep after a sync of a project: no checkpoint after a
/// success; after a failure, the checkpoint it left, if it left one.
pub fn record_sync_outcome(settings: &mut Settings, key: &str, success: bool, checkpoint: Option<SyncCheckpoint>)
    ensures
        final(settings).projects@ == if success {
            with_checkpoint(old(settings).projects@, key@, None)
        } else {
            match checkpoint {
                Some(c) => with_checkpoint(old(settings).projects@, key@, Some(c)),
                None => old(settings).projects@,
            }
        },
        final(settings).jira == old(settings).jira,
        final(settings).database == old(settings).database,
        final(settings).embeddings == old(settings).embeddings,
        final(settings).log == old(settings).log,
        final(settings).debug_mode == old(settings).debug_mode,
{
    if success {
        set_checkpoint(settings, key, None);
    } else {
        match checkpoint {
            Some(c) => set_checkpoint(settings, key, Some(c)),
            None => {},
        }
    }
}

/// No project of `qs` has key `key`: a search for it selects none.
proof fn lemma_no_project_with_key(qs: Seq<ProjectConfig>, key: Seq<char>)
    requires
        forall|j: int| 0 <= j < qs.len() ==> qs[j].key@ != key,
    ensures
        projects_with_key(qs, key) == Seq::<ProjectConfig>::empty(),
    decreases qs.len(),
{
    if qs.len() > 0 {
        let rest = qs.drop_last();
        assert forall|j: int| 0 <= j < rest.len() implies rest[j].key@ != key by {
            assert(rest[j] == qs[j]);
        }
        lemma_no_project_with_key(rest, key);
    }
}

/// Only position `i` of `qs` has key `key`: a search for it selects just
/// that project.
proof fn lemma_one_project_with_key(qs: Seq<ProjectConfig>, key: Seq<char>, i: int)
    requires
        0 <= i < qs.len(),
        qs[i].key@ == key,
        forall|j: int| 0 <= j < qs.len() && j != i ==> qs[j].key@ != key,
    ensures
        projects_with_key(qs, key) == seq![qs[i]],
    decreases qs.len(),
{
    let rest = qs.drop_last();
    if i == qs.len() - 1 {
        assert forall|j: int| 0 <= j < rest.len() implies rest[j].key@ != key by {
            assert(rest[j] == qs[j]);
        }
        lemma_no_project_with_key(rest, key);
        assert(projects_with_key(qs, key) =~= seq![qs[i]]);
    } else {
        assert forall|j: int| 0 <= j < rest.len() && j != i implies rest[j].key@ != key by {
            assert(rest[j] == qs[j]);
        }
        assert(rest[i] == qs[i]);
        lemma_one_project_with_key(rest, key, i);
    }
}

/// The checkpoint recorded for a project is where the next sync of that
/// project starts: after a failed sync that left a checkpoint, the sync
/// resumes from it; after a successful sync, it starts from the beginning
/// (no checkpoint). Keys are distinct, as the settings keep them.
pub proof fn lemma_next_sync_starts_at_checkpoint(ps: Seq<ProjectConfig>, key: Seq<char>, checkpoint: Option<SyncCheckpoint>)
    requires
        crate::config::keys_unique(ps),
        project_index(ps, key) is Some,
    ensures
        ({
            let selected = sync_selection(with_checkpoint(ps, key, checkpoint), Some(key));
            &&& selected.len() == 1
            &&& target_of(selected[0]).key@ == key
            &&& target_of(selected[0]).checkpoint == checkpoint
        }),
{
    lemma_project_index_from(ps, key, 0);
    let i = project_index(ps, key)->0;
    let qs = with_checkpoint(ps, key, checkpoint);
    assert(qs[i].key@ == key);
    assert forall|j: int| 0 <= j < qs.len() && j != i implies qs[j].key@ != key by {
        assert(qs[j] == ps[j]);
    }
    lemma_one_project_with_key(qs, key, i);
}

/// The projects after the projects named in `synced` were synced at
/// `now`: the first project with each of those keys has `now` as its last
/// sync; the others are unchanged.
pub open spec fn with_last_synced(ps: Seq<ProjectConfig>, synced: Seq<Seq<char>>, now: UtcTime) -> Seq<ProjectConfig> {
    Seq::new(
        ps.len(),
        |i: int|
            if exists|j: int| 0 <= j < synced.len() && project_index(ps, #[trigger] synced[j]) == Some(i) {
                ProjectConfig { last_synced: Some(now), ..ps[i] }
            } else {
                ps[i]
            },
    )
}

/// Marking one more key changes only the first project with that key.
proof fn lemma_marked_step(ps: Seq<ProjectConfig>, done: Seq<Seq<char>>, key: Seq<char>, now: UtcTime)
    ensures
        ({
            let before = with_last_synced(ps, done, now);
            let after = with_last_synced(ps, done.push(key), now);
            &&& after.len() == ps.len()
            &&& match project_index(ps, key) {
                Some(x) => after == before.update(x, ProjectConfig { last_synced: Some(now), ..before[x] }),
                None => after == before,
            }
        }),
{
    let before = with_last_synced(ps, done, now);
    let after = with_last_synced(ps, done.push(key), now);
    let d2 = done.push(key);
    assert forall|i: int| 0 <= i < ps.len() && project_index(ps, key) != Some(i) implies after[i] == before[i] by {
        if exists|j: int| 0 <= j < d2.len() && project_index(ps, #[trigger] d2[j]) == Some(i) {
            let j = choose|j: int| 0 <= j < d2.len() && project_index(ps, #[trigger] d2[j]) == Some(i);
            assert(j < done.len());
            assert(done[j] == d2[j]);
        } else {
            assert forall|j: int| 0 <= j < done.len() implies project_index(ps, #[trigger] done[j]) != Some(i) by {
                assert(d2[j] == done[j]);
            }
        }
    }
    match project_index(ps, key) {
        Some(x) => {
            lemma_project_index_from(ps, key, 0);
            assert(d2[done.len() as int] == key);
            assert(after =~= before.update(x, ProjectConfig { last_synced: Some(now), ..before[x] }));
        },
        None => {
            assert(after =~= before);
        },
    }
}

/// Records that the projects with the keys in `synced` (those whose sync
/// succeeded) were synced at `now`.
pub fn mark_synced(settings: &mut Settings, synced: &Vec<String>, now: UtcTime)
    ensures
        final(settings).projects@ == with_last_synced(old(settings).projects@, crate::text::string_views(synced@), now),
        final(settings).jira == old(settings).jira,
        final(settings).database == old(settings).database,
        final(settings).embeddings == old(settings).embeddings,
        final(settings).log == old(settings).log,
        final(settings).debug_mode == old(settings).debug_mode,
{
    let ghost ps = settings.projects@;
    let ghost keys = crate::text::string_views(synced@);
    for k in 0..synced.len()
        invariant
            keys == crate::text::string_views(synced@),
            settings.projects@.len() == ps.len(),
            forall|j: int| 0 <= j < ps.len() ==> (#[trigger] settings.projects@[j]).key == ps[j].key,
            settings.projects@ == with_last_synced(ps, keys.take(k as int), now),
            settings.jira == old(settings).jira,
            settings.database == old(settings).database,
            settings.embeddings == old(settings).embeddings,
            settings.log == old(settings).log,
            settings.debug_mode == old(settings).debug_mode,
            ps == old(settings).projects@,
    {
        let ghost before = settings.projects@;
        proof {
            lemma_same_keys_same_index(ps, before, keys[k as int], 0);
            assert(keys.take(k + 1) =~= keys.take(k as int).push(keys[k as int]));
        }
        match settings.find_project_mut(synced[k].as_str()) {
            Some(p) => {
                p.last_synced = Some(now);
            },
            None => {},
        }
        proof {
            lemma_marked_step(ps, keys.take(k as int), keys[k as int], now);
            let after = with_last_synced(ps, keys.take(k + 1), now);
            match project_index(ps, keys[k as int]) {
                Some(x) => {
                    assert(settings.projects@ =~= before.update(
                        x,
                        ProjectConfig { last_synced: Some(now), ..before[x] },
                    ));
                },
                None => {
                    assert(settings.projects@ == before);
                },
            }
            assert(settings.projects@ =~= after);
        }
    }
    proof {
        assert(keys.take(synced@.len() as int) =~= keys);
    }
}

/// After a successful sync of a project (its outcome recorded, then the
/// project marked as synced at `now`), the project is in the normal state:
/// it was last synced at `now` and has no checkpoint; every other project
/// is as it was.
pub proof fn lemma_successful_sync_leaves_normal_state(ps: Seq<ProjectConfig>, key: Seq<char>, now: UtcTime)
    requires
        project_index(ps, key) is Some,
    ensures
        ({
            let i = project_index(ps, key)->0;
            let qs = with_last_synced(with_checkpoint(ps, key, None), seq![key], now);
            &&& qs.len() == ps.len()
            &&& qs[i].key == ps[i].key
            &&& qs[i].last_synced == Some(now)
            &&& qs[i].sync_checkpoint is None
            &&& forall|j: int| 0 <= j < ps.len() && j != i ==> qs[j] == ps[j]
        }),
{
    lemma_project_index_from(ps, key, 0);
    let i = project_index(ps, key)->0;
    let cleared = with_checkpoint(ps, key, None);
    assert forall|j: int| 0 <= j < ps.len() implies cleared[j].key == ps[j].key by {}
    lemma_same_keys_same_index(ps, cleared, key, 0);
    let keys = seq![key];
    assert(keys[0] == key);
    let qs = with_last_synced(cleared, keys, now);
    assert forall|j: int| 0 <= j < ps.len() && j != i implies qs[j] == ps[j] by {
        if exists|k: int| 0 <= k < keys.len() && project_index(cleared, #[trigger] keys[k]) == Some(j) {
            let k = choose|k: int| 0 <= k < keys.len() && project_index(cleared, #[trigger] keys[k]) == Some(j);
            assert(k == 0);
        }
    }
}

} // verus!
