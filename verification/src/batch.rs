//! The flattened batch of token sequences handed to a backend.

use vstd::prelude::*;

verus! {

/// One or more tokenized sequences packed into parallel flat arrays.
///
/// The sequences are concatenated in order; `cumulative_seq_lengths` holds the
/// prefix sums of their lengths, so that sequence `i` occupies the positions
/// `cumulative_seq_lengths[i] .. cumulative_seq_lengths[i + 1]` of each flat
/// array.
#[derive(Debug)]
pub struct Batch {
    /// Token identifiers of all sequences, concatenated.
    pub input_ids: Vec<u32>,
    /// One type id per token, aligned with `input_ids`.
    pub token_type_ids: Vec<u32>,
    /// One position id per token, aligned with `input_ids`.
    pub position_ids: Vec<u32>,
    /// Prefix sums of the sequence lengths, starting with 0.
    pub cumulative_seq_lengths: Vec<u32>,
    /// Token count of the longest sequence.
    pub max_length: u32,
}

/// The mathematical content of a [`Batch`].
pub struct BatchView {
    pub input_ids: Seq<u32>,
    pub token_type_ids: Seq<u32>,
    pub position_ids: Seq<u32>,
    pub cumulative_seq_lengths: Seq<u32>,
    pub max_length: u32,
}

impl BatchView {
    /// Number of tokens over all sequences.
    pub open spec fn num_tokens(self) -> nat {
        self.input_ids.len()
    }

    /// Number of sequences that the boundaries delimit.
    pub open spec fn num_sequences(self) -> int {
        self.cumulative_seq_lengths.len() - 1
    }

    /// Token count of sequence `i`.
    pub open spec fn seq_len(self, i: int) -> int
        recommends
            0 <= i < self.num_sequences(),
    {
        self.cumulative_seq_lengths[i + 1] - self.cumulative_seq_lengths[i]
    }

    /// The three per-token arrays have the same length.
    pub open spec fn aligned(self) -> bool {
        &&& self.token_type_ids.len() == self.input_ids.len()
        &&& self.position_ids.len() == self.input_ids.len()
    }

    /// The boundaries start at 0, never decrease, and end at the token count.
    pub open spec fn delimited(self) -> bool {
        let bounds = self.cumulative_seq_lengths;
        &&& bounds.len() >= 1
        &&& bounds[0] == 0
        &&& forall|i: int, j: int| 0 <= i <= j < bounds.len() ==> bounds[i] <= bounds[j]
        &&& bounds.last() == self.num_tokens()
    }

    /// `max_length` is the largest sequence length: no sequence is longer,
    /// and some sequence is exactly that long.
    pub open spec fn max_length_exact(self) -> bool {
        &&& forall|i: int|
            0 <= i < self.num_sequences() ==> #[trigger] self.seq_len(i) <= self.max_length
        &&& exists|i: int|
            0 <= i < self.num_sequences() && #[trigger] self.seq_len(i) == self.max_length
    }

    /// The batch invariant: aligned arrays, at least one sequence, consistent
    /// boundaries and an exact `max_length`.
    pub open spec fn wf(self) -> bool {
        &&& self.aligned()
        &&& self.num_sequences() >= 1
        &&& self.delimited()
        &&& self.max_length_exact()
    }
}

impl View for Batch {
    type V = BatchView;

    open spec fn view(&self) -> BatchView {
        BatchView {
            input_ids: self.input_ids@,
            token_type_ids: self.token_type_ids@,
            position_ids: self.position_ids@,
            cumulative_seq_lengths: self.cumulative_seq_lengths@,
            max_length: self.max_length,
        }
    }
}

impl Batch {
    /// The batch satisfies the batch invariant.
    pub open spec fn wf(&self) -> bool {
        self@.wf()
    }

    /// Decides whether the batch satisfies the batch invariant.
    pub fn is_well_formed(&self) -> (ok: bool)
        ensures
            ok == self.wf(),
    {
        let tokens = self.input_ids.len();
        if self.token_type_ids.len() != tokens || self.position_ids.len() != tokens {
            return false;
        }
        let bounds = &self.cumulative_seq_lengths;
        let count = bounds.len();
        if count < 2 {
            return false;
        }
        if bounds[0] != 0 {
            return false;
        }
        let mut longest: u32 = 0;
        let mut k: usize = 1;
        while k < count
            invariant
                1 <= k <= count,
                count == bounds.len(),
                bounds@ == self@.cumulative_seq_lengths,
                forall|i: int, j: int| 0 <= i <= j < k ==> bounds[i] <= bounds[j],
                forall|i: int| 0 <= i < k - 1 ==> #[trigger] self@.seq_len(i) <= longest,
                k == 1 ==> longest == 0,
                k > 1 ==> exists|i: int| 0 <= i < k - 1 && #[trigger] self@.seq_len(i) == longest,
            decreases count - k,
        {
            let low = bounds[k - 1];
            let high = bounds[k];
            if high < low {
                return false;
            }
            let len = high - low;
            assert(self@.seq_len(k - 1) == len);
            if len > longest {
                longest = len;
            }
            k += 1;
        }
        bounds[count - 1] as usize == tokens && longest == self.max_length
    }
}

/// In a well-formed batch the first boundary is 0 and the last boundary is the
/// number of tokens.
pub proof fn lemma_boundaries_span_tokens(batch: Batch)
    requires
        batch.wf(),
    ensures
        batch@.cumulative_seq_lengths[0] == 0,
        batch@.cumulative_seq_lengths.last() == batch@.input_ids.len(),
{
}

/// In a well-formed batch every sequence occupies a span that lies inside
/// each of the flat arrays, no sequence is longer than `max_length`, and
/// `max_length` is at most the number of tokens.
pub proof fn lemma_spans_in_bounds(batch: Batch, i: int)
    requires
        batch.wf(),
        0 <= i < batch@.num_sequences(),
    ensures
        0 <= batch@.cumulative_seq_lengths[i] <= batch@.cumulative_seq_lengths[i + 1]
            <= batch@.num_tokens(),
        batch@.cumulative_seq_lengths[i + 1] <= batch@.token_type_ids.len(),
        batch@.cumulative_seq_lengths[i + 1] <= batch@.position_ids.len(),
        0 <= batch@.seq_len(i) <= batch@.max_length <= batch@.num_tokens(),
{
}

} // verus!
