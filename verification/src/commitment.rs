use vstd::prelude::*;

verus! {

/// Confirmation strength of a block or of a signature observation.
/// `Confirmed` is the weaker tier, `Finalized` the stronger, terminal one.
#[derive(Clone, Copy, PartialEq, Eq, Structural, Debug, Hash)]
pub enum CommitmentLevel {
    Confirmed,
    Finalized,
}

impl CommitmentLevel {
    /// Numeric strength used to order commitment levels in specifications.
    pub open spec fn strength(self) -> nat {
        match self {
            CommitmentLevel::Confirmed => 1,
            CommitmentLevel::Finalized => 2,
        }
    }

    /// A level is terminal when no stronger confirmation can follow it.
    pub open spec fn is_terminal(self) -> bool {
        self == CommitmentLevel::Finalized
    }
}

} // verus!
