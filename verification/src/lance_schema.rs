//! The table of memory embeddings.
//!
//! Embeddings are kept on the node, outside the state store. A state record refers to them by id.

use vstd::prelude::*;

verus! {

/// Distance between embeddings in a nearest-neighbour search.
#[derive(Debug, Clone, Copy, PartialEq, Eq, Structural)]
pub enum DistanceMetric {
    /// Normalised dot product.
    Cosine,
    /// Euclidean distance.
    L2,
    /// Dot product.
    Dot,
}

/// The model that computes embeddings.
#[derive(Debug)]
pub struct EmbeddingModelConfig {
    /// Name of the model, as the embedding library knows it.
    pub model_name: &'static str,
    /// Length of an embedding.
    pub dimensions: usize,
    /// Distance used in searches.
    pub distance_metric: DistanceMetric,
}

/// Name of the table.
pub const AGENTS_MEMORY_TABLE: &'static str = "agents_memory_index";

/// Length of an embedding.
pub const EMBEDDING_DIMENSIONS: usize = 384;

/// The model behind all memory entries.
pub fn agent_memory_embedding_model() -> (model: EmbeddingModelConfig)
    ensures
        model.model_name@ == "sentence-transformers/all-MiniLM-L6-v2"@,
        model.dimensions == EMBEDDING_DIMENSIONS,
        model.distance_metric == DistanceMetric::Cosine,
{
    EmbeddingModelConfig {
        model_name: "sentence-transformers/all-MiniLM-L6-v2",
        dimensions: EMBEDDING_DIMENSIONS,
        distance_metric: DistanceMetric::Cosine,
    }
}

} // verus!
