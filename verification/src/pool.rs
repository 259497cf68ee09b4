//! Pooling strategies and their textual names.

use vstd::prelude::*;
use vstd::string::*;
use vstd::utf8::encode_utf8_decode_utf8;

verus! {

/// How the per-token outputs of one sequence are reduced to a single
/// fixed-size embedding.
///
/// The strategy is configuration of a loaded model; the arithmetic itself is
/// the backend's.
#[derive(Debug, PartialEq, Eq, Clone, Copy, Structural)]
pub enum Pool {
    /// Take the representation of the leading classification token.
    Cls,
    /// Take the arithmetic mean of all token representations.
    Mean,
}

impl Pool {
    /// The stable lowercase name of the strategy.
    pub open spec fn name(self) -> Seq<char> {
        match self {
            Pool::Cls => "cls"@,
            Pool::Mean => "mean"@,
        }
    }

    /// The strategy that a name denotes, if any. Names are matched exactly.
    pub open spec fn from_name(name: Seq<char>) -> Option<Pool> {
        if name == "cls"@ {
            Some(Pool::Cls)
        } else if name == "mean"@ {
            Some(Pool::Mean)
        } else {
            None
        }
    }

    /// Renders the strategy as its lowercase name.
    pub fn to_string(&self) -> (s: String)
        ensures
            s@ == self.name(),
    {
        match self {
            Pool::Cls => String::from_str("cls"),
            Pool::Mean => String::from_str("mean"),
        }
    }

    /// Reads a strategy from its lowercase name; any other text gives `None`.
    pub fn parse(name: &str) -> (pool: Option<Pool>)
        ensures
            pool == Pool::from_name(name@),
    {
        if same_text(name, "cls") {
            Some(Pool::Cls)
        } else if same_text(name, "mean") {
            Some(Pool::Mean)
        } else {
            None
        }
    }
}

/// Decides whether two strings hold the same characters, by comparing their
/// UTF-8 bytes.
fn same_text(a: &str, b: &str) -> (same: bool)
    ensures
        same == (a@ == b@),
{
    let x = a.as_bytes();
    let y = b.as_bytes();
    if x.len() != y.len() {
        return false;
    }
    let mut i: usize = 0;
    while i < x.len()
        invariant
            i <= x.len(),
            x.len() == y.len(),
            x@ == a.spec_bytes(),
            y@ == b.spec_bytes(),
            forall|j: int| 0 <= j < i ==> x[j] == y[j],
        decreases x.len() - i,
    {
        if x[i] != y[i] {
            return false;
        }
        i += 1;
    }
    proof {
        assert(x@ =~= y@);
        encode_utf8_decode_utf8(a@);
        encode_utf8_decode_utf8(b@);
    }
    true
}

/// Rendering a strategy and reading the text back gives the same strategy.
pub proof fn lemma_name_round_trip(pool: Pool)
    ensures
        Pool::from_name(pool.name()) == Some(pool),
{
    reveal_strlit("cls");
    reveal_strlit("mean");
    assert("cls"@.len() != "mean"@.len());
}

/// Only the name of a strategy is read as that strategy.
pub proof fn lemma_from_name_exact(name: Seq<char>, pool: Pool)
    ensures
        Pool::from_name(name) == Some(pool) <==> name == pool.name(),
{
    lemma_name_round_trip(pool);
}

/// The two strategies have different names.
pub proof fn lemma_names_distinct(a: Pool, b: Pool)
    ensures
        a.name() == b.name() <==> a == b,
{
    lemma_name_round_trip(a);
    lemma_name_round_trip(b);
}

} // verus!
