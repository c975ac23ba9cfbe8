//! Configuration of the MCP server: the database it serves, its HTTP
//! listener and the embeddings used for semantic search.
use vstd::prelude::*;

use crate::config::{join_path, joined_path};
use crate::text::owned;

verus! {

/// The name the MCP server gives itself when a client connects.
pub const SERVER_NAME: &'static str = "jira-db-mcp";

/// The port the HTTP listener uses when none is configured.
pub fn default_port() -> (r: u16)
    ensures
        r == 3000,
{
    3000
}

/// The host the HTTP listener binds to when none is configured.
pub fn default_host() -> (r: String)
    ensures
        r@ == "127.0.0.1"@,
{
    owned("127.0.0.1")
}

/// The embedding model used when none is configured.
pub fn default_embedding_model() -> (r: String)
    ensures
        r@ == "text-embedding-3-small"@,
{
    owned("text-embedding-3-small")
}

/// The HTTP listener.
#[derive(Debug, Clone)]
pub struct HttpConfig {
    /// Whether the server also listens on HTTP.
    pub enabled: bool,
    pub port: u16,
    pub host: String,
}

impl Default for HttpConfig {
    fn default() -> (r: Self)
        ensures
            !r.enabled,
            r.port == 3000,
            r.host@ == "127.0.0.1"@,
    {
        HttpConfig { enabled: false, port: default_port(), host: default_host() }
    }
}

/// The embedding services semantic search can use.
#[derive(Debug, Clone, Copy, PartialEq, Eq, Structural)]
pub enum EmbeddingProvider {
    OpenAI,
    AzureOpenAI,
    Ollama,
    Cohere,
    VoyageAI,
}

impl Default for EmbeddingProvider {
    fn default() -> (r: Self)
        ensures
            r == EmbeddingProvider::OpenAI,
    {
        EmbeddingProvider::OpenAI
    }
}

/// The embeddings used for semantic search.
#[derive(Debug, Clone)]
pub struct EmbeddingConfig {
    pub provider: EmbeddingProvider,
    pub api_key: Option<String>,
    pub model: String,
    /// The service's address, for providers that need one.
    pub endpoint: Option<String>,
}

impl Default for EmbeddingConfig {
    fn default() -> (r: Self)
        ensures
            r.provider == EmbeddingProvider::OpenAI,
            r.api_key is None,
            r.model@ == "text-embedding-3-small"@,
            r.endpoint is None,
    {
        EmbeddingConfig {
            provider: EmbeddingProvider::default(),
            api_key: None,
            model: default_embedding_model(),
            endpoint: None,
        }
    }
}

/// The configuration of the MCP server.
#[derive(Debug, Clone)]
pub struct McpConfig {
    /// The database file that is served.
    pub database_path: String,
    pub http: HttpConfig,
    pub embedding: EmbeddingConfig,
}

/// The directory of the user's configuration files, as the `dirs` crate
/// finds it for this machine and user (`dirs::config_dir`). Nothing is
/// stated of it: it depends on the environment.
#[verifier::external_body]
fn user_config_dir() -> (r: Option<String>) {
    match dirs::config_dir() {
        Some(p) => Some(p.to_string_lossy().into_owned()),
        None => None,
    }
}

/// Where the configuration file is, given the user's configuration
/// directory: `jira-db-mcp/config.json` in it, or `jira-db-mcp.json` in the
/// working directory when there is none.
pub open spec fn config_file_text(config_dir: Option<Seq<char>>) -> Seq<char> {
    match config_dir {
        Some(d) => joined_path(joined_path(d, "jira-db-mcp"@), "config.json"@),
        None => "jira-db-mcp.json"@,
    }
}

/// Executable form of [`config_file_text`].
pub fn config_file_path(config_dir: Option<&str>) -> (r: String)
    ensures
        r@ == config_file_text(
            match config_dir {
                Some(d) => Some(d@),
                None => None,
            },
        ),
{
    match config_dir {
        Some(d) => {
            let app_dir = join_path(d, "jira-db-mcp");
            join_path(app_dir.as_str(), "config.json")
        },
        None => owned("jira-db-mcp.json"),
    }
}

impl McpConfig {
    /// The configuration used when none is given: the database
    /// `./data/jira.duckdb` and the default listener and embeddings.
    pub fn default_config() -> (r: Self)
        ensures
            r.database_path@ == "./data/jira.duckdb"@,
            !r.http.enabled,
            r.http.port == 3000,
            r.http.host@ == "127.0.0.1"@,
            r.embedding.provider == EmbeddingProvider::OpenAI,
            r.embedding.api_key is None,
            r.embedding.model@ == "text-embedding-3-small"@,
            r.embedding.endpoint is None,
    {
        McpConfig {
            database_path: owned("./data/jira.duckdb"),
            http: HttpConfig::default(),
            embedding: EmbeddingConfig::default(),
        }
    }

    /// The configuration file's usual place (see [`config_file_path`]),
    /// for the configuration directory of this machine and user.
    pub fn default_path() -> (r: String)
        ensures
            exists|d: Option<Seq<char>>| r@ == #[trigger] config_file_text(d),
    {
        let dir = user_config_dir();
        let r = match &dir {
            Some(d) => config_file_path(Some(d.as_str())),
            None => config_file_path(None),
        };
        proof {
            let d = match dir {
                Some(s) => Some(s@),
                None => None,
            };
            assert(r@ == config_file_text(d));
        }
        r
    }
}

} // verus!
