//! The Cohere embedding models and the length of their embeddings.
use vstd::prelude::*;

verus! {

/// The multilingual model: the default.
pub const EMBED_MULTILINGUAL_V3: &'static str = "embed-multilingual-v3.0";
pub const EMBED_MULTILINGUAL_V3_DIM: usize = 1024;

/// The English model.
pub const EMBED_ENGLISH_V3: &'static str = "embed-english-v3.0";
pub const EMBED_ENGLISH_V3_DIM: usize = 1024;

/// The light multilingual model.
pub const EMBED_MULTILINGUAL_LIGHT_V3: &'static str = "embed-multilingual-light-v3.0";
pub const EMBED_MULTILINGUAL_LIGHT_V3_DIM: usize = 384;

/// The light English model.
pub const EMBED_ENGLISH_LIGHT_V3: &'static str = "embed-english-light-v3.0";
pub const EMBED_ENGLISH_LIGHT_V3_DIM: usize = 384;

} // verus!
