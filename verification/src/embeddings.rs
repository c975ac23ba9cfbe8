//! Embedding providers: which provider is meant, how each is configured,
//! and the plan from which a provider client is built.
use vstd::prelude::*;

pub mod cohere_models;
pub mod ollama_models;
pub mod openai_models;

use crate::error::DomainError;
use crate::json::{is_object_of, is_text, item_at, member_at, JsonValue};
use crate::text::{
    all_ascii, ascii_lower, ascii_lower_text, ascii_upper_text, chars_of, concat3, contains, copy_opt, has_infix,
    owned, str_eq, string_views, to_lower, unicode_lower,
};

verus! {

// ---------------------------------------------------------------------------
// Provider type
// ---------------------------------------------------------------------------

/// The supported embedding providers.
#[derive(Debug, Clone, Copy, PartialEq, Eq, Structural)]
pub enum EmbeddingProviderType {
    /// OpenAI API (API key needed).
    OpenAI,
    /// Ollama (local).
    Ollama,
    /// Cohere API (API key needed).
    Cohere,
}

impl Default for EmbeddingProviderType {
    fn default() -> (r: Self)
        ensures
            r == EmbeddingProviderType::OpenAI,
    {
        EmbeddingProviderType::OpenAI
    }
}

/// The name of a provider as it is written in settings.
pub open spec fn provider_name(p: EmbeddingProviderType) -> Seq<char> {
    match p {
        EmbeddingProviderType::OpenAI => "openai"@,
        EmbeddingProviderType::Ollama => "ollama"@,
        EmbeddingProviderType::Cohere => "cohere"@,
    }
}

/// The provider whose name is `name` (in lower case), if any.
pub open spec fn provider_named(name: Seq<char>) -> Option<EmbeddingProviderType> {
    if name == "openai"@ {
        Some(EmbeddingProviderType::OpenAI)
    } else if name == "ollama"@ {
        Some(EmbeddingProviderType::Ollama)
    } else if name == "cohere"@ {
        Some(EmbeddingProviderType::Cohere)
    } else {
        None
    }
}

/// What parsing the ASCII text `s` gives: the provider that `s` names with
/// letter case ignored, or the error for an unknown name.
pub open spec fn ascii_parse_result(s: Seq<char>, r: Result<EmbeddingProviderType, DomainError>) -> bool {
    match provider_named(ascii_lower_text(s)) {
        Some(p) => r == Ok::<EmbeddingProviderType, DomainError>(p),
        None => r matches Err(DomainError::Configuration(m)) && m@ == unknown_provider_message(s),
    }
}

/// The error for a provider name that names no provider.
pub open spec fn unknown_provider_message(s: Seq<char>) -> Seq<char> {
    "Unknown embedding provider: "@ + s + ". Supported: openai, ollama, cohere"@
}

impl EmbeddingProviderType {
    /// The provider's name: "openai", "ollama" or "cohere".
    pub fn to_string(&self) -> (r: String)
        ensures
            r@ == provider_name(*self),
    {
        match self {
            EmbeddingProviderType::OpenAI => owned("openai"),
            EmbeddingProviderType::Ollama => owned("ollama"),
            EmbeddingProviderType::Cohere => owned("cohere"),
        }
    }

    /// The provider that `s` names, letter case ignored.
    pub fn parse_name(s: &str) -> (r: Result<EmbeddingProviderType, DomainError>)
        ensures
            unicode_lower(s@) == "openai"@ ==> r == Ok::<EmbeddingProviderType, DomainError>(
                EmbeddingProviderType::OpenAI,
            ),
            unicode_lower(s@) == "ollama"@ ==> r == Ok::<EmbeddingProviderType, DomainError>(
                EmbeddingProviderType::Ollama,
            ),
            unicode_lower(s@) == "cohere"@ ==> r == Ok::<EmbeddingProviderType, DomainError>(
                EmbeddingProviderType::Cohere,
            ),
            unicode_lower(s@) != "openai"@ && unicode_lower(s@) != "ollama"@ && unicode_lower(s@)
                != "cohere"@ ==> (r matches Err(DomainError::Configuration(m)) && m@
                == unknown_provider_message(s@)),
            all_ascii(s@) ==> ascii_parse_result(s@, r),
    {
        proof {
            reveal_strlit("openai");
            reveal_strlit("ollama");
            reveal_strlit("cohere");
            assert("openai"@[1] != "ollama"@[1]);
            assert("openai"@[1] != "cohere"@[1]);
            assert("ollama"@[1] != "cohere"@[1]);
        }
        let lower = to_lower(s);
        if str_eq(lower.as_str(), "openai") {
            Ok(EmbeddingProviderType::OpenAI)
        } else if str_eq(lower.as_str(), "ollama") {
            Ok(EmbeddingProviderType::Ollama)
        } else if str_eq(lower.as_str(), "cohere") {
            Ok(EmbeddingProviderType::Cohere)
        } else {
            Err(
                DomainError::Configuration(
                    concat3("Unknown embedding provider: ", s, ". Supported: openai, ollama, cohere"),
                ),
            )
        }
    }
}

impl std::str::FromStr for EmbeddingProviderType {
    type Err = DomainError;

    /// The provider that `s` names, letter case ignored (see
    /// [`EmbeddingProviderType::parse_name`]).
    fn from_str(s: &str) -> (r: Result<Self, Self::Err>)
        ensures
            unicode_lower(s@) == "openai"@ ==> r == Ok::<EmbeddingProviderType, DomainError>(
                EmbeddingProviderType::OpenAI,
            ),
            unicode_lower(s@) == "ollama"@ ==> r == Ok::<EmbeddingProviderType, DomainError>(
                EmbeddingProviderType::Ollama,
            ),
            unicode_lower(s@) == "cohere"@ ==> r == Ok::<EmbeddingProviderType, DomainError>(
                EmbeddingProviderType::Cohere,
            ),
            unicode_lower(s@) != "openai"@ && unicode_lower(s@) != "ollama"@ && unicode_lower(s@)
                != "cohere"@ ==> (r matches Err(DomainError::Configuration(m)) && m@
                == unknown_provider_message(s@)),
            all_ascii(s@) ==> ascii_parse_result(s@, r),
    {
        EmbeddingProviderType::parse_name(s)
    }
}

/// A provider's name parses back to the provider, and so does the name in
/// upper case: the name is ASCII text, and [`ascii_parse_result`] is what
/// [`EmbeddingProviderType::parse_name`] and `from_str` give for ASCII text
/// (`str::to_uppercase` of ASCII text is [`ascii_upper_text`]).
pub proof fn lemma_provider_name_round_trip(p: EmbeddingProviderType)
    ensures
        all_ascii(provider_name(p)),
        provider_named(ascii_lower_text(provider_name(p))) == Some(p),
        all_ascii(ascii_upper_text(provider_name(p))),
        provider_named(ascii_lower_text(ascii_upper_text(provider_name(p)))) == Some(p),
{
    reveal_strlit("openai");
    reveal_strlit("ollama");
    reveal_strlit("cohere");
    let n = provider_name(p);
    assert(n.len() == 6);
    assert(forall|i: int| 0 <= i < 6 ==> 'a' <= #[trigger] n[i] && n[i] <= 'z');
    assert(ascii_lower_text(n) =~= n);
    let u = ascii_upper_text(n);
    assert forall|i: int| 0 <= i < 6 implies ascii_lower(#[trigger] u[i]) == n[i] && (u[i] as u32) < 128 by {
        let c = n[i];
        assert(u[i] == ((c as u32) - 32) as char);
        assert((((c as u32) - 32) as char) as u32 == (c as u32) - 32);
    }
    assert(ascii_lower_text(u) =~= n);
    assert("openai"@ != "ollama"@ && "openai"@ != "cohere"@ && "ollama"@ != "cohere"@) by {
        assert("openai"@[1] != "ollama"@[1]);
        assert("openai"@[1] != "cohere"@[1]);
        assert("ollama"@[1] != "cohere"@[1]);
    }
}

// ---------------------------------------------------------------------------
// Provider configuration
// ---------------------------------------------------------------------------

/// What an embedding provider is created from.
#[derive(Debug, Clone)]
pub struct ProviderConfig {
    pub provider: EmbeddingProviderType,
    /// API key (OpenAI, Cohere).
    pub api_key: Option<String>,
    pub model: Option<String>,
    /// Endpoint URL (Ollama).
    pub endpoint: Option<String>,
}

impl Default for ProviderConfig {
    fn default() -> (r: Self)
        ensures
            r.provider == EmbeddingProviderType::OpenAI,
            r.api_key is None,
            r.model is None,
            r.endpoint is None,
    {
        ProviderConfig {
            provider: EmbeddingProviderType::OpenAI,
            api_key: None,
            model: None,
            endpoint: None,
        }
    }
}

impl ProviderConfig {
    /// OpenAI with the given API key.
    pub fn openai(api_key: &str) -> (r: Self)
        ensures
            r.provider == EmbeddingProviderType::OpenAI,
            r.api_key matches Some(k) && k@ == api_key@,
            r.model is None,
            r.endpoint is None,
    {
        ProviderConfig {
            provider: EmbeddingProviderType::OpenAI,
            api_key: Some(owned(api_key)),
            model: None,
            endpoint: None,
        }
    }

    /// Ollama with its defaults.
    pub fn ollama() -> (r: Self)
        ensures
            r.provider == EmbeddingProviderType::Ollama,
            r.api_key is None,
            r.model is None,
            r.endpoint is None,
    {
        ProviderConfig {
            provider: EmbeddingProviderType::Ollama,
            api_key: None,
            model: None,
            endpoint: None,
        }
    }

    /// Cohere with the given API key.
    pub fn cohere(api_key: &str) -> (r: Self)
        ensures
            r.provider == EmbeddingProviderType::Cohere,
            r.api_key matches Some(k) && k@ == api_key@,
            r.model is None,
            r.endpoint is None,
    {
        ProviderConfig {
            provider: EmbeddingProviderType::Cohere,
            api_key: Some(owned(api_key)),
            model: None,
            endpoint: None,
        }
    }

    /// The same configuration with the given model.
    pub fn with_model(self, model: &str) -> (r: Self)
        ensures
            r.model matches Some(m) && m@ == model@,
            r.provider == self.provider,
            r.api_key == self.api_key,
            r.endpoint == self.endpoint,
    {
        ProviderConfig { model: Some(owned(model)), ..self }
    }

    /// The same configuration with the given endpoint.
    pub fn with_endpoint(self, endpoint: &str) -> (r: Self)
        ensures
            r.endpoint matches Some(e) && e@ == endpoint@,
            r.provider == self.provider,
            r.api_key == self.api_key,
            r.model == self.model,
    {
        ProviderConfig { endpoint: Some(owned(endpoint)), ..self }
    }
}

// ---------------------------------------------------------------------------
// Cohere
// ---------------------------------------------------------------------------

/// How Cohere optimises an embedding.
#[derive(Debug, Clone, Copy, PartialEq, Eq, Structural)]
pub enum InputType {
    /// For search queries.
    SearchQuery,
    /// For documents that are searched.
    SearchDocument,
    /// For classification.
    Classification,
    /// For clustering.
    Clustering,
}

/// The name the Cohere API uses for input type `t`.
pub open spec fn input_type_name(t: InputType) -> Seq<char> {
    match t {
        InputType::SearchQuery => "search_query"@,
        InputType::SearchDocument => "search_document"@,
        InputType::Classification => "classification"@,
        InputType::Clustering => "clustering"@,
    }
}

impl InputType {
    /// The name the Cohere API uses for the input type.
    pub fn api_name(&self) -> (r: &'static str)
        ensures
            r@ == input_type_name(*self),
    {
        match self {
            InputType::SearchQuery => "search_query",
            InputType::SearchDocument => "search_document",
            InputType::Classification => "classification",
            InputType::Clustering => "clustering",
        }
    }
}

/// The largest batch the Cohere API accepts.
pub const COHERE_MAX_BATCH: usize = 96;

/// Configuration of the Cohere client.
#[derive(Debug, Clone)]
pub struct CohereConfig {
    pub api_key: String,
    pub model: String,
    /// Length of the embeddings the model gives.
    pub dimension: usize,
    pub input_type: InputType,
    pub api_base: String,
    /// Request timeout in seconds.
    pub timeout_secs: u64,
    /// Most texts sent in one request.
    pub batch_size: usize,
}

impl Default for CohereConfig {
    fn default() -> (r: Self)
        ensures
            r.api_key@.len() == 0,
            r.model@ == "embed-multilingual-v3.0"@,
            r.dimension == 1024,
            r.input_type == InputType::SearchDocument,
            r.api_base@ == "https://api.cohere.ai/v1"@,
            r.timeout_secs == 60,
            r.batch_size == 96,
    {
        CohereConfig {
            api_key: String::new(),
            model: owned("embed-multilingual-v3.0"),
            dimension: 1024,
            input_type: InputType::SearchDocument,
            api_base: owned("https://api.cohere.ai/v1"),
            timeout_secs: 60,
            batch_size: COHERE_MAX_BATCH,
        }
    }
}

/// The embedding length of a Cohere model named in provider settings:
/// 384 for the light models, 1024 otherwise.
pub open spec fn cohere_dimension(model: Seq<char>) -> usize {
    if model == "embed-multilingual-light-v3.0"@ || model == "embed-english-light-v3.0"@ {
        384
    } else {
        1024
    }
}

/// Executable form of [`cohere_dimension`].
pub fn cohere_model_dimension(model: &str) -> (r: usize)
    ensures
        r == cohere_dimension(model@),
{
    if str_eq(model, "embed-multilingual-light-v3.0") || str_eq(model, "embed-english-light-v3.0") {
        384
    } else {
        1024
    }
}

impl CohereConfig {
    /// The default configuration with the given API key.
    pub fn new(api_key: &str) -> (r: Self)
        ensures
            r.api_key@ == api_key@,
            r.model@ == "embed-multilingual-v3.0"@,
            r.dimension == 1024,
            r.input_type == InputType::SearchDocument,
            r.api_base@ == "https://api.cohere.ai/v1"@,
            r.timeout_secs == 60,
            r.batch_size == 96,
    {
        CohereConfig { api_key: owned(api_key), ..CohereConfig::default() }
    }

    /// Uses the multilingual model (1024 dimensions).
    pub fn with_multilingual_model(self) -> (r: Self)
        ensures
            r.model@ == "embed-multilingual-v3.0"@,
            r.dimension == 1024,
            r == (CohereConfig { model: r.model, dimension: r.dimension, ..self }),
    {
        CohereConfig { model: owned("embed-multilingual-v3.0"), dimension: 1024, ..self }
    }

    /// Uses the English model (1024 dimensions).
    pub fn with_english_model(self) -> (r: Self)
        ensures
            r.model@ == "embed-english-v3.0"@,
            r.dimension == 1024,
            r == (CohereConfig { model: r.model, dimension: r.dimension, ..self }),
    {
        CohereConfig { model: owned("embed-english-v3.0"), dimension: 1024, ..self }
    }

    /// Uses the light multilingual model (384 dimensions).
    pub fn with_light_multilingual_model(self) -> (r: Self)
        ensures
            r.model@ == "embed-multilingual-light-v3.0"@,
            r.dimension == 384,
            r == (CohereConfig { model: r.model, dimension: r.dimension, ..self }),
    {
        CohereConfig { model: owned("embed-multilingual-light-v3.0"), dimension: 384, ..self }
    }

    /// Uses the given model, whose embeddings have `dimension` entries.
    pub fn with_model(self, model: &str, dimension: usize) -> (r: Self)
        ensures
            r.model@ == model@,
            r.dimension == dimension,
            r == (CohereConfig { model: r.model, dimension, ..self }),
    {
        CohereConfig { model: owned(model), dimension, ..self }
    }

    /// Embeds search queries.
    pub fn for_search_query(self) -> (r: Self)
        ensures
            r == (CohereConfig { input_type: InputType::SearchQuery, ..self }),
    {
        CohereConfig { input_type: InputType::SearchQuery, ..self }
    }

    /// Embeds documents that are searched.
    pub fn for_search_document(self) -> (r: Self)
        ensures
            r == (CohereConfig { input_type: InputType::SearchDocument, ..self }),
    {
        CohereConfig { input_type: InputType::SearchDocument, ..self }
    }

    /// Sets the request timeout (seconds).
    pub fn with_timeout(self, timeout_secs: u64) -> (r: Self)
        ensures
            r == (CohereConfig { timeout_secs, ..self }),
    {
        CohereConfig { timeout_secs, ..self }
    }

    /// Sets the batch size, at most 96 (the API's limit).
    pub fn with_batch_size(self, batch_size: usize) -> (r: Self)
        ensures
            r == (CohereConfig {
                batch_size: if batch_size < 96 { batch_size } else { 96 },
                ..self
            }),
    {
        let b = if batch_size < COHERE_MAX_BATCH { batch_size } else { COHERE_MAX_BATCH };
        CohereConfig { batch_size: b, ..self }
    }

    /// Checks that the configuration can make requests: the API key must
    /// not be empty.
    pub fn check(&self) -> (r: Result<(), DomainError>)
        ensures
            self.api_key@.len() == 0 ==> (r matches Err(DomainError::Configuration(m)) && m@
                == "Cohere API key is required"@),
            self.api_key@.len() > 0 ==> r is Ok,
    {
        if self.api_key.as_str().is_empty() {
            return Err(DomainError::Configuration(owned("Cohere API key is required")));
        }
        Ok(())
    }
}

// ---------------------------------------------------------------------------
// Ollama
// ---------------------------------------------------------------------------

/// The embedding length of an Ollama model: 1024 for mxbai-embed-large and
/// snowflake-arctic-embed, 768 for nomic-embed-text and any other model.
pub open spec fn ollama_dimension(model: Seq<char>) -> usize {
    if model == "mxbai-embed-large"@ || model == "snowflake-arctic-embed"@ {
        1024
    } else {
        768
    }
}

/// Configuration of the Ollama client.
#[derive(Debug, Clone)]
pub struct OllamaConfig {
    /// Ollama endpoint.
    pub endpoint: String,
    pub model: String,
    /// Length of the embeddings the model gives.
    pub dimension: usize,
    /// Request timeout in seconds.
    pub timeout_secs: u64,
}

impl Default for OllamaConfig {
    fn default() -> (r: Self)
        ensures
            r.endpoint@ == "http://localhost:11434"@,
            r.model@ == "nomic-embed-text"@,
            r.dimension == 768,
            r.timeout_secs == 120,
    {
        OllamaConfig {
            endpoint: owned("http://localhost:11434"),
            model: owned("nomic-embed-text"),
            dimension: 768,
            timeout_secs: 120,
        }
    }
}

impl OllamaConfig {
    /// The default configuration with the given model and its dimension.
    pub fn new(model: &str) -> (r: Self)
        ensures
            r.model@ == model@,
            r.dimension == ollama_dimension(model@),
            r.endpoint@ == "http://localhost:11434"@,
            r.timeout_secs == 120,
    {
        proof {
            reveal_strlit("nomic-embed-text");
            reveal_strlit("mxbai-embed-large");
            reveal_strlit("snowflake-arctic-embed");
            assert("nomic-embed-text"@[0] != "mxbai-embed-large"@[0]);
            assert("nomic-embed-text"@[0] != "snowflake-arctic-embed"@[0]);
        }
        let dimension = if str_eq(model, "nomic-embed-text") {
            768
        } else if str_eq(model, "mxbai-embed-large") {
            1024
        } else if str_eq(model, "snowflake-arctic-embed") {
            1024
        } else {
            768
        };
        OllamaConfig { model: owned(model), dimension, ..OllamaConfig::default() }
    }

    /// Uses the given endpoint.
    pub fn with_endpoint(self, endpoint: &str) -> (r: Self)
        ensures
            r.endpoint@ == endpoint@,
            r == (OllamaConfig { endpoint: r.endpoint, ..self }),
    {
        OllamaConfig { endpoint: owned(endpoint), ..self }
    }

    /// Sets the request timeout (seconds).
    pub fn with_timeout(self, timeout_secs: u64) -> (r: Self)
        ensures
            r == (OllamaConfig { timeout_secs, ..self }),
    {
        OllamaConfig { timeout_secs, ..self }
    }

    /// Sets the embedding length (for models not known here).
    pub fn with_dimension(self, dimension: usize) -> (r: Self)
        ensures
            r == (OllamaConfig { dimension, ..self }),
    {
        OllamaConfig { dimension, ..self }
    }
}

// ---------------------------------------------------------------------------
// OpenAI and compatible servers
// ---------------------------------------------------------------------------

/// Embedding length of text-embedding-3-small (and of ada-002).
pub const OPENAI_SMALL_DIMENSION: usize = 1536;

/// Embedding length of text-embedding-3-large.
pub const OPENAI_LARGE_DIMENSION: usize = 3072;

/// Configuration of the OpenAI (or OpenAI-compatible) client.
#[derive(Debug, Clone)]
pub struct EmbeddingConfig {
    /// API key (local servers need none).
    pub api_key: Option<String>,
    pub model: String,
    /// Embedding length; `None` means: taken from the first response.
    pub dimension: Option<usize>,
    pub api_base: String,
    /// Request timeout in seconds.
    pub timeout_secs: u64,
    /// Most texts sent in one request.
    pub batch_size: usize,
}

impl Default for EmbeddingConfig {
    fn default() -> (r: Self)
        ensures
            r.api_key is None,
            r.model@ == "text-embedding-3-small"@,
            r.dimension == Some(1536usize),
            r.api_base@ == "https://api.openai.com/v1"@,
            r.timeout_secs == 60,
            r.batch_size == 100,
    {
        EmbeddingConfig {
            api_key: None,
            model: owned("text-embedding-3-small"),
            dimension: Some(OPENAI_SMALL_DIMENSION),
            api_base: owned("https://api.openai.com/v1"),
            timeout_secs: 60,
            batch_size: 100,
        }
    }
}

/// The API base names this machine: it mentions `localhost` or `127.0.0.1`.
pub open spec fn is_local_base(api_base: Seq<char>) -> bool {
    has_infix(api_base, "localhost"@) || has_infix(api_base, "127.0.0.1"@)
}

impl EmbeddingConfig {
    /// The default configuration with the given API key.
    pub fn new(api_key: &str) -> (r: Self)
        ensures
            r.api_key matches Some(k) && k@ == api_key@,
            r.model@ == "text-embedding-3-small"@,
            r.dimension == Some(1536usize),
            r.api_base@ == "https://api.openai.com/v1"@,
            r.timeout_secs == 60,
            r.batch_size == 100,
    {
        EmbeddingConfig { api_key: Some(owned(api_key)), ..EmbeddingConfig::default() }
    }

    /// A configuration for a local server: no API key, and the embedding
    /// length taken from the first response.
    pub fn local(api_base: &str) -> (r: Self)
        ensures
            r.api_key is None,
            r.api_base@ == api_base@,
            r.dimension is None,
            r.model@ == "text-embedding-3-small"@,
            r.timeout_secs == 60,
            r.batch_size == 100,
    {
        EmbeddingConfig { api_key: None, api_base: owned(api_base), dimension: None, ..EmbeddingConfig::default() }
    }

    /// Uses text-embedding-3-small (1536 dimensions).
    pub fn with_small_model(self) -> (r: Self)
        ensures
            r.model@ == "text-embedding-3-small"@,
            r == (EmbeddingConfig { model: r.model, dimension: Some(1536usize), ..self }),
    {
        EmbeddingConfig {
            model: owned("text-embedding-3-small"),
            dimension: Some(OPENAI_SMALL_DIMENSION),
            ..self
        }
    }

    /// Uses text-embedding-3-large (3072 dimensions).
    pub fn with_large_model(self) -> (r: Self)
        ensures
            r.model@ == "text-embedding-3-large"@,
            r == (EmbeddingConfig { model: r.model, dimension: Some(3072usize), ..self }),
    {
        EmbeddingConfig {
            model: owned("text-embedding-3-large"),
            dimension: Some(OPENAI_LARGE_DIMENSION),
            ..self
        }
    }

    /// Uses the given model and embedding length.
    pub fn with_model(self, model: &str, dimension: Option<usize>) -> (r: Self)
        ensures
            r.model@ == model@,
            r == (EmbeddingConfig { model: r.model, dimension, ..self }),
    {
        EmbeddingConfig { model: owned(model), dimension, ..self }
    }

    /// Uses the given API base URL.
    pub fn with_api_base(self, api_base: &str) -> (r: Self)
        ensures
            r.api_base@ == api_base@,
            r == (EmbeddingConfig { api_base: r.api_base, ..self }),
    {
        EmbeddingConfig { api_base: owned(api_base), ..self }
    }

    /// Uses the given API key.
    pub fn with_api_key(self, api_key: &str) -> (r: Self)
        ensures
            r.api_key matches Some(k) && k@ == api_key@,
            r == (EmbeddingConfig { api_key: r.api_key, ..self }),
    {
        EmbeddingConfig { api_key: Some(owned(api_key)), ..self }
    }

    /// Sets the request timeout (seconds).
    pub fn with_timeout(self, timeout_secs: u64) -> (r: Self)
        ensures
            r == (EmbeddingConfig { timeout_secs, ..self }),
    {
        EmbeddingConfig { timeout_secs, ..self }
    }

    /// Sets the batch size.
    pub fn with_batch_size(self, batch_size: usize) -> (r: Self)
        ensures
            r == (EmbeddingConfig { batch_size, ..self }),
    {
        EmbeddingConfig { batch_size, ..self }
    }

    /// Whether the API base is a server on this machine.
    pub fn is_local(&self) -> (r: bool)
        ensures
            r == is_local_base(self.api_base@),
    {
        let base = chars_of(self.api_base.as_str());
        let localhost = chars_of("localhost");
        let loopback = chars_of("127.0.0.1");
        contains(&base, &localhost) || contains(&base, &loopback)
    }

    /// Checks that the configuration can make requests: a server that is
    /// not local needs an API key.
    pub fn check(&self) -> (r: Result<(), DomainError>)
        ensures
            self.api_key is None && !is_local_base(self.api_base@) ==> (r matches Err(
                DomainError::Configuration(m),
            ) && m@ == "OpenAI API key is required for non-local servers"@),
            !(self.api_key is None && !is_local_base(self.api_base@)) ==> r is Ok,
    {
        if self.api_key.is_none() && !self.is_local() {
            return Err(
                DomainError::Configuration(owned("OpenAI API key is required for non-local servers")),
            );
        }
        Ok(())
    }
}

/// The embedding length an OpenAI client reports: the configured one, else
/// the one taken from the first response, else 1536.
pub fn effective_dimension(configured: Option<usize>, detected: Option<usize>) -> (r: usize)
    ensures
        r == match configured {
            Some(d) => d,
            None => match detected {
                Some(d) => d,
                None => 1536,
            },
        },
{
    match configured {
        Some(d) => d,
        None => match detected {
            Some(d) => d,
            None => OPENAI_SMALL_DIMENSION,
        },
    }
}

/// The tokens attributed to each text of a request: the prompt tokens the
/// server reports, divided evenly (0 when it reports none).
pub fn tokens_per_text(prompt_tokens: Option<usize>, text_count: usize) -> (r: usize)
    requires
        text_count > 0,
    ensures
        r == match prompt_tokens {
            Some(t) => t / text_count,
            None => 0,
        },
{
    match prompt_tokens {
        Some(t) => t / text_count,
        None => 0,
    }
}

// ---------------------------------------------------------------------------
// Batches
// ---------------------------------------------------------------------------

/// The batches `[start, end)` that `n` texts are sent in: consecutive, from
/// the first text to the last, each of `size` texts but the last, which may
/// be shorter (what `slice::chunks` gives).
pub open spec fn batches(n: nat, size: nat) -> Seq<(int, int)>
    decreases n,
{
    if size == 0 || n == 0 {
        seq![]
    } else if n <= size {
        seq![(0int, n as int)]
    } else {
        batches((n - size) as nat, size).map_values(|b: (int, int)| (b.0 + size, b.1 + size)).insert(
            0,
            (0int, size as int),
        )
    }
}

/// The batch of texts `[i * size, min((i + 1) * size, n))`.
pub open spec fn batch_at(n: nat, size: nat, i: int) -> (int, int) {
    (i * size, if (i + 1) * size < n { (i + 1) * size } else { n as int })
}

/// The batches split the texts without gap or overlap: each holds at least
/// one text and at most `size`, each starts where the one before ended,
/// the first starts at the first text and the last ends after the last.
pub proof fn lemma_batches_split_the_texts(n: nat, size: nat)
    requires
        size > 0,
    ensures
        forall|i: int|
            0 <= i < (n + size - 1) / (size as int) ==> #[trigger] batch_at(n, size, i).0 < batch_at(
                n,
                size,
                i,
            ).1 <= batch_at(n, size, i).0 + size,
        forall|i: int|
            0 <= i && i + 1 < (n + size - 1) / (size as int) ==> #[trigger] batch_at(n, size, i).1
                == batch_at(n, size, i + 1).0,
        batch_at(n, size, 0).0 == 0,
        n > 0 ==> batch_at(n, size, (n + size - 1) / (size as int) - 1).1 == n,
{
    let m = (n + size - 1) / (size as int);
    assert(m * size <= n + size - 1 && n + size - 1 < (m + 1) * size) by (nonlinear_arith)
        requires
            m == (n + size - 1) / (size as int),
            size > 0,
            n >= 0,
    ;
    assert forall|i: int| 0 <= i < m implies #[trigger] batch_at(n, size, i).0 < batch_at(
        n,
        size,
        i,
    ).1 <= batch_at(n, size, i).0 + size by {
        assert(i * size < n && (i + 1) * size == i * size + size) by (nonlinear_arith)
            requires
                0 <= i < m,
                m * size <= n + size - 1,
                size > 0,
        ;
    }
    assert forall|i: int| 0 <= i && i + 1 < m implies #[trigger] batch_at(n, size, i).1 == batch_at(
        n,
        size,
        i + 1,
    ).0 by {
        assert((i + 1) * size < n) by (nonlinear_arith)
            requires
                0 <= i,
                i + 1 < m,
                m * size <= n + size - 1,
                size > 0,
        ;
    }
    if n > 0 {
        assert(m >= 1 && (m - 1 + 1) * size >= n) by (nonlinear_arith)
            requires
                n + size - 1 < (m + 1) * size,
                m * size <= n + size - 1,
                n > 0,
                size > 0,
        ;
    }
}

/// The batches of `n` texts of at most `size` each, in order.
pub fn batch_ranges(n: usize, size: usize) -> (r: Vec<(usize, usize)>)
    requires
        size > 0,
    ensures
        r@.len() == (n + size - 1) / (size as int),
        forall|i: int|
            0 <= i < r@.len() ==> (#[trigger] r@[i]).0 == i * size && r@[i].1 == batch_at(
                n as nat,
                size as nat,
                i,
            ).1,
{
    let mut r: Vec<(usize, usize)> = Vec::new();
    let mut start: usize = 0;
    assert((size - 1) / (size as int) == 0) by (nonlinear_arith)
        requires
            size > 0,
    ;
    while start < n
        invariant
            size > 0,
            start <= n,
            start < n ==> start as int == r@.len() * size,
            r@.len() == (start + size - 1) / (size as int),
            forall|i: int|
                0 <= i < r@.len() ==> (#[trigger] r@[i]).0 == i * size && r@[i].1 == batch_at(
                    n as nat,
                    size as nat,
                    i,
                ).1,
        decreases n - start,
    {
        let end = if n - start > size { start + size } else { n };
        let ghost k = r@.len() as int;
        r.push((start, end));
        proof {
            assert((k + 1) * size == k * size + size) by (nonlinear_arith);
            assert(r@[k] == (start, end));
            assert((end + size - 1) / (size as int) == k + 1) by (nonlinear_arith)
                requires
                    start as int == k * size,
                    size > 0,
                    end > start,
                    end <= start + size,
            ;
        }
        start = end;
    }
    r
}

// ---------------------------------------------------------------------------
// Request bodies
// ---------------------------------------------------------------------------

/// `v` is an array of the strings `texts`, in order.
pub open spec fn is_text_list(v: JsonValue, texts: Seq<Seq<char>>) -> bool {
    &&& v matches JsonValue::Array(items)
    &&& item_count(v) == texts.len()
    &&& forall|i: int| 0 <= i < texts.len() ==> is_text(#[trigger] item_at(v, i), texts[i])
}

/// The number of items of array `v`.
pub open spec fn item_count(v: JsonValue) -> nat {
    match v {
        JsonValue::Array(items) => items@.len(),
        _ => 0,
    }
}

/// The array of the strings `texts`.
fn text_list(texts: &Vec<String>) -> (r: JsonValue)
    ensures
        is_text_list(r, string_views(texts@)),
{
    let mut items: Vec<JsonValue> = Vec::new();
    for i in 0..texts.len()
        invariant
            items@.len() == i,
            forall|j: int| 0 <= j < i ==> is_text(#[trigger] items@[j], texts@[j]@),
    {
        items.push(JsonValue::Str(texts[i].clone()));
    }
    JsonValue::Array(items)
}

/// The body of an OpenAI embedding request: the model, the texts and the
/// `float` encoding.
pub fn openai_request_body(model: &str, texts: &Vec<String>) -> (r: JsonValue)
    ensures
        is_object_of(r, seq!["model"@, "input"@, "encoding_format"@]),
        is_text(member_at(r, 0), model@),
        is_text_list(member_at(r, 1), string_views(texts@)),
        is_text(member_at(r, 2), "float"@),
{
    let members: Vec<(String, JsonValue)> = vec![
        (owned("model"), JsonValue::Str(owned(model))),
        (owned("input"), text_list(texts)),
        (owned("encoding_format"), JsonValue::Str(owned("float"))),
    ];
    assert(members@.map_values(|p: (String, JsonValue)| p.0@) =~= seq!["model"@, "input"@, "encoding_format"@]);
    JsonValue::Object(members)
}

/// The body of a Cohere embedding request: the model, the texts, the input
/// type and truncation at the end of a text that is too long.
pub fn cohere_request_body(model: &str, texts: &Vec<String>, input_type: InputType) -> (r: JsonValue)
    ensures
        is_object_of(r, seq!["model"@, "texts"@, "input_type"@, "truncate"@]),
        is_text(member_at(r, 0), model@),
        is_text_list(member_at(r, 1), string_views(texts@)),
        is_text(member_at(r, 2), input_type_name(input_type)),
        is_text(member_at(r, 3), "END"@),
{
    let members: Vec<(String, JsonValue)> = vec![
        (owned("model"), JsonValue::Str(owned(model))),
        (owned("texts"), text_list(texts)),
        (owned("input_type"), JsonValue::Str(owned(input_type.api_name()))),
        (owned("truncate"), JsonValue::Str(owned("END"))),
    ];
    assert(members@.map_values(|p: (String, JsonValue)| p.0@) =~= seq![
        "model"@,
        "texts"@,
        "input_type"@,
        "truncate"@,
    ]);
    JsonValue::Object(members)
}

/// The body of an Ollama embedding request: the model and the one text.
pub fn ollama_request_body(model: &str, prompt: &str) -> (r: JsonValue)
    ensures
        is_object_of(r, seq!["model"@, "prompt"@]),
        is_text(member_at(r, 0), model@),
        is_text(member_at(r, 1), prompt@),
{
    let members: Vec<(String, JsonValue)> = vec![
        (owned("model"), JsonValue::Str(owned(model))),
        (owned("prompt"), JsonValue::Str(owned(prompt))),
    ];
    assert(members@.map_values(|p: (String, JsonValue)| p.0@) =~= seq!["model"@, "prompt"@]);
    JsonValue::Object(members)
}

// ---------------------------------------------------------------------------
// Choosing and configuring a provider
// ---------------------------------------------------------------------------

/// The client configuration a provider is built from.
#[derive(Debug, Clone)]
pub enum ProviderPlan {
    OpenAI(EmbeddingConfig),
    Ollama(OllamaConfig),
    Cohere(CohereConfig),
}

/// The environment variable that holds the API key of a provider, if it
/// takes one.
pub fn api_key_variable(provider: EmbeddingProviderType) -> (r: Option<&'static str>)
    ensures
        provider == EmbeddingProviderType::OpenAI ==> (r matches Some(v) && v@
            == "OPENAI_API_KEY"@),
        provider == EmbeddingProviderType::Cohere ==> (r matches Some(v) && v@
            == "COHERE_API_KEY"@),
        provider == EmbeddingProviderType::Ollama ==> r is None,
{
    match provider {
        EmbeddingProviderType::OpenAI => Some("OPENAI_API_KEY"),
        EmbeddingProviderType::Ollama => None,
        EmbeddingProviderType::Cohere => Some("COHERE_API_KEY"),
    }
}

/// The configuration a provider is created with, from the provider
/// settings and the API key found in the environment (`env_api_key`, the
/// value of [`api_key_variable`]; consulted only when the settings hold no
/// key):
/// - OpenAI: the default OpenAI configuration with the key and, if given,
///   the model; an error when there is no key.
/// - Ollama: the default configuration, or the one of the given model, with
///   the given endpoint if any.
/// - Cohere: the default Cohere configuration with the key and, if given,
///   the model with its [`cohere_dimension`]; an error when there is no
///   key, or when the key is empty.
pub fn plan_provider(config: ProviderConfig, env_api_key: Option<String>) -> (r: Result<
    ProviderPlan,
    DomainError,
>)
    ensures
        config.provider == EmbeddingProviderType::OpenAI ==> match (
            match config.api_key {
                Some(k) => Some(k),
                None => env_api_key,
            }
        ) {
            Some(k) => r matches Ok(ProviderPlan::OpenAI(c)) && c.api_key == Some(k) && c.model@
                == (match config.model {
                Some(m) => m@,
                None => "text-embedding-3-small"@,
            }) && c.dimension == Some(1536usize) && c.api_base@ == "https://api.openai.com/v1"@
                && c.timeout_secs == 60 && c.batch_size == 100,
            None => r matches Err(DomainError::Configuration(m)) && m@
                == "OpenAI API key not found. Set OPENAI_API_KEY environment variable or provide api_key"@,
        },
        config.provider == EmbeddingProviderType::Ollama ==> (r matches Ok(ProviderPlan::Ollama(c))
            && c.model@ == (match config.model {
            Some(m) => m@,
            None => "nomic-embed-text"@,
        }) && c.dimension == ollama_dimension(c.model@) && c.endpoint@ == (match config.endpoint {
            Some(e) => e@,
            None => "http://localhost:11434"@,
        }) && c.timeout_secs == 120),
        config.provider == EmbeddingProviderType::Cohere ==> match (
            match config.api_key {
                Some(k) => Some(k),
                None => env_api_key,
            }
        ) {
            Some(k) => if k@.len() == 0 {
                r matches Err(DomainError::Configuration(m)) && m@ == "Cohere API key is required"@
            } else {
                r matches Ok(ProviderPlan::Cohere(c)) && c.api_key@ == k@ && c.model@ == (
                match config.model {
                    Some(m) => m@,
                    None => "embed-multilingual-v3.0"@,
                }) && c.dimension == cohere_dimension(c.model@) && c.input_type
                    == InputType::SearchDocument && c.api_base@ == "https://api.cohere.ai/v1"@
                    && c.timeout_secs == 60 && c.batch_size == 96
            },
            None => r matches Err(DomainError::Configuration(m)) && m@
                == "Cohere API key not found. Set COHERE_API_KEY environment variable or provide api_key"@,
        },
{
    let key = match config.api_key {
        Some(k) => Some(k),
        None => env_api_key,
    };
    match config.provider {
        EmbeddingProviderType::OpenAI => {
            let k = match key {
                Some(k) => k,
                None => {
                    return Err(
                        DomainError::Configuration(
                            owned(
                                "OpenAI API key not found. Set OPENAI_API_KEY environment variable or provide api_key",
                            ),
                        ),
                    );
                },
            };
            let mut c = EmbeddingConfig::default();
            c.api_key = Some(k);
            match config.model {
                Some(m) => {
                    c.model = m;
                },
                None => {},
            }
            Ok(ProviderPlan::OpenAI(c))
        },
        EmbeddingProviderType::Ollama => {
            let mut c = match &config.model {
                Some(m) => OllamaConfig::new(m.as_str()),
                None => {
                    proof {
                        reveal_strlit("nomic-embed-text");
                        reveal_strlit("mxbai-embed-large");
                        reveal_strlit("snowflake-arctic-embed");
                        assert("nomic-embed-text"@[0] != "mxbai-embed-large"@[0]);
                        assert("nomic-embed-text"@[0] != "snowflake-arctic-embed"@[0]);
                    }
                    OllamaConfig::default()
                },
            };
            match &config.endpoint {
                Some(e) => {
                    c = c.with_endpoint(e.as_str());
                },
                None => {},
            }
            Ok(ProviderPlan::Ollama(c))
        },
        EmbeddingProviderType::Cohere => {
            let k = match key {
                Some(k) => k,
                None => {
                    return Err(
                        DomainError::Configuration(
                            owned(
                                "Cohere API key not found. Set COHERE_API_KEY environment variable or provide api_key",
                            ),
                        ),
                    );
                },
            };
            let mut c = CohereConfig::new(k.as_str());
            match &config.model {
                Some(m) => {
                    let d = cohere_model_dimension(m.as_str());
                    c = c.with_model(m.as_str(), d);
                },
                None => {
                    proof {
                        reveal_strlit("embed-multilingual-v3.0");
                        reveal_strlit("embed-multilingual-light-v3.0");
                        reveal_strlit("embed-english-light-v3.0");
                        assert("embed-multilingual-v3.0"@.len() != "embed-multilingual-light-v3.0"@.len());
                        assert("embed-multilingual-v3.0"@[6] != "embed-english-light-v3.0"@[6]);
                    }
                },
            }
            match c.check() {
                Ok(()) => Ok(ProviderPlan::Cohere(c)),
                Err(e) => Err(e),
            }
        },
    }
}

} // verus!
