//! The capability interface that every inference engine implements.

use vstd::prelude::*;
use crate::batch::Batch;
use crate::error::BackendError;

verus! {

/// The pooled vector of one input sequence, over the number type `S`.
pub type Embedding<S> = Vec<S>;

/// All vectors of a result have the same length.
pub open spec fn uniform_width<T>(rows: Seq<Vec<T>>) -> bool {
    forall|i: int, j: int|
        0 <= i < rows.len() && 0 <= j < rows.len() ==> #[trigger] rows[i].len()
            == #[trigger] rows[j].len()
}

/// An inference engine for one loaded model.
///
/// Calls are synchronous and run to completion. The interface performs no
/// retry and no batching of its own: a batch is handed to the engine whole.
///
/// The contracts below are obligations on every implementation. Verus holds
/// a verified implementation to them; one written outside verified code is
/// held to them by its author alone, and what callers prove from these
/// contracts is only as good as that.
pub trait Backend {
    /// The number type of the vectors that the engine produces.
    type Scalar;

    /// Cheap readiness probe. A live backend reports either that it can serve
    /// requests or that it is unhealthy, and nothing else.
    fn health(&self) -> (status: Result<(), BackendError>)
        ensures
            status matches Err(e) ==> e is Unhealthy,
    ;

    /// The largest number of sequences that the engine accepts in one call,
    /// where it declares one. The hint is advisory; by default there is no
    /// limit.
    fn max_batch_size(&self) -> (limit: Option<usize>)
        default_ensures
            limit is None,
    {
        None
    }

    /// Runs inference and pooling: one embedding per sequence of the batch,
    /// in the order of the sequences, all of one width.
    fn embed(&self, batch: Batch) -> (result: Result<Vec<Embedding<Self::Scalar>>, BackendError>)
        requires
            batch.wf(),
        ensures
            match result {
                Ok(embeddings) => {
                    &&& embeddings.len() == batch@.num_sequences()
                    &&& uniform_width(embeddings@)
                },
                Err(e) => e@.from_live_backend(),
            },
    ;

    /// Runs inference: one vector of raw class scores per sequence of the
    /// batch, in the order of the sequences, all of one width.
    fn predict(&self, batch: Batch) -> (result: Result<Vec<Vec<Self::Scalar>>, BackendError>)
        requires
            batch.wf(),
        ensures
            match result {
                Ok(scores) => {
                    &&& scores.len() == batch@.num_sequences()
                    &&& uniform_width(scores@)
                },
                Err(e) => e@.from_live_backend(),
            },
    ;
}

} // verus!
