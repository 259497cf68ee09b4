//! How the outputs of a loaded model are to be read.

use vstd::prelude::*;
use crate::pool::Pool;

verus! {

/// The kind of a loaded model. It is fixed when the model is loaded and
/// decides which backend operation is the valid one: `predict` for a
/// classifier, `embed` for an embedding model.
#[derive(Debug, PartialEq, Eq, Clone, Copy, Structural)]
pub enum ModelType {
    /// The outputs are per-sequence class scores.
    Classifier,
    /// The outputs are pooled into embeddings with the carried strategy.
    Embedding(Pool),
}

/// Equality of model types is structural: two embedding models are equal
/// exactly when their pooling strategies are, and no embedding model equals
/// the classifier.
pub proof fn lemma_model_type_equality(a: Pool, b: Pool)
    ensures
        ModelType::Embedding(a) == ModelType::Embedding(b) <==> a == b,
        ModelType::Embedding(a) != ModelType::Classifier,
{
}

} // verus!
