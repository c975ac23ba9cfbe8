//! The Ollama embedding models and the length of their embeddings.
use vstd::prelude::*;

verus! {

/// nomic-embed-text: the default.
pub const NOMIC_EMBED_TEXT: &'static str = "nomic-embed-text";
pub const NOMIC_EMBED_TEXT_DIM: usize = 768;

/// mxbai-embed-large.
pub const MXBAI_EMBED_LARGE: &'static str = "mxbai-embed-large";
pub const MXBAI_EMBED_LARGE_DIM: usize = 1024;

/// snowflake-arctic-embed.
pub const SNOWFLAKE_ARCTIC_EMBED: &'static str = "snowflake-arctic-embed";
pub const SNOWFLAKE_ARCTIC_EMBED_DIM: usize = 1024;

} // verus!
