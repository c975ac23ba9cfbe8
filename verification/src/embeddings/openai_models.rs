//! The OpenAI embedding models and the length of their embeddings.
use vstd::prelude::*;

verus! {

/// text-embedding-3-small: the default model.
pub const TEXT_EMBEDDING_3_SMALL: &'static str = "text-embedding-3-small";
pub const TEXT_EMBEDDING_3_SMALL_DIM: usize = 1536;

/// text-embedding-3-large: better, and costlier.
pub const TEXT_EMBEDDING_3_LARGE: &'static str = "text-embedding-3-large";
pub const TEXT_EMBEDDING_3_LARGE_DIM: usize = 3072;

/// text-embedding-ada-002: the older model.
pub const TEXT_EMBEDDING_ADA_002: &'static str = "text-embedding-ada-002";
pub const TEXT_EMBEDDING_ADA_002_DIM: usize = 1536;

/// nomic-embed-text, common among local models.
pub const NOMIC_EMBED_TEXT_DIM: usize = 768;

} // verus!
