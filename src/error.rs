use vstd::prelude::*;

verus! {

/// Why a range proof was rejected.
#[derive(Clone, Copy, Debug, PartialEq, Eq, Structural)]
pub enum RangeProofError {
    /// An empty leaf list was given for a proof that is not the proof of the empty tree.
    NoLeavesProvided,
    /// The number of leaves differs from the length of the proven range.
    WrongAmountOfLeavesProvided,
    /// The proof's shape does not fit the operation or the claimed indices.
    MalformedProof,
    /// The reconstructed root differs from the trusted root.
    InvalidRoot,
}

} // verus!
