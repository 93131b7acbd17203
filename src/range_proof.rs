use vstd::prelude::*;

use crate::error::RangeProofError;
use crate::namespaced_hash::{views, HashView, NamespacedHash, NamespacedSha2Hasher};
use crate::tree::{check_range_proof, spec_check_range_proof};
use crate::utils::{compute_num_left_siblings, popcount};

verus! {

/// A Merkle audit path for the contiguous leaf range `[start, end)`: the sibling digests,
/// left to right, that rebuild the root from the leaves of the range.
#[derive(Clone, Debug)]
pub struct Proof {
    pub siblings: Vec<NamespacedHash>,
    pub start: u32,
    /// One past the last leaf of the range.
    pub end: u32,
}

/// The number of leaves of `[start, end)`, zero where `end < start`.
pub open spec fn spec_range_len(start: u32, end: u32) -> nat {
    if start <= end {
        (end - start) as nat
    } else {
        0
    }
}

/// The sibling right after the range: the one at index `popcount(start)`.
pub open spec fn spec_leftmost_right_sibling(siblings: Seq<NamespacedHash>, start: u32) -> Option<
    NamespacedHash,
> {
    if siblings.len() > popcount(start as nat) {
        Some(siblings[popcount(start as nat) as int])
    } else {
        None
    }
}

/// The sibling right before the range: the one at index `popcount(start) - 1`.
pub open spec fn spec_rightmost_left_sibling(siblings: Seq<NamespacedHash>, start: u32) -> Option<
    NamespacedHash,
> {
    if popcount(start as nat) != 0 && popcount(start as nat) <= siblings.len() {
        Some(siblings[popcount(start as nat) - 1])
    } else {
        None
    }
}

/// Whether a returned reference holds the value that a spec option names.
pub open spec fn same_option(r: Option<&NamespacedHash>, s: Option<NamespacedHash>) -> bool {
    match r {
        Some(h) => s == Some(*h),
        None => s is None,
    }
}

/// The outcome of checking a range proof of leaf digests against `root`, in the mode
/// `ignore_max_ns`.
pub open spec fn spec_verify_leaf_hashes(
    ignore_max_ns: bool,
    siblings: Seq<HashView>,
    start: u32,
    end: u32,
    root: HashView,
    leaf_hashes: Seq<HashView>,
) -> Result<(), RangeProofError> {
    if leaf_hashes.len() != spec_range_len(start, end) {
        Err(RangeProofError::WrongAmountOfLeavesProvided)
    } else {
        spec_check_range_proof(ignore_max_ns, root, leaf_hashes, siblings, start as nat)
    }
}

impl Default for Proof {
    /// The proof of no leaves: no siblings and the range `[0, 0)`.
    fn default() -> (r: Self)
        ensures
            r.siblings@.len() == 0,
            r.start == 0,
            r.end == 0,
    {
        Proof { siblings: Vec::new(), start: 0, end: 0 }
    }
}

impl Proof {
    /// Checks that `leaf_hashes` are the leaves of the range and hash up to `root` with this
    /// proof's siblings, with the default hasher, which ignores the largest namespace.
    pub fn verify_range(&self, root: &NamespacedHash, leaf_hashes: &Vec<NamespacedHash>) -> (r:
        Result<(), RangeProofError>)
        ensures
            r == spec_verify_leaf_hashes(
                true,
                views(self.siblings@),
                self.start,
                self.end,
                root@,
                views(leaf_hashes@),
            ),
            leaf_hashes@.len() != spec_range_len(self.start, self.end) ==> r == Err::<
                (),
                RangeProofError,
            >(RangeProofError::WrongAmountOfLeavesProvided),
    {
        let hasher = NamespacedSha2Hasher::with_ignore_max_ns(true);
        verify_leaf_hashes(&hasher, self, root, leaf_hashes)
    }

    pub fn siblings(&self) -> (r: &Vec<NamespacedHash>)
        ensures
            r == &self.siblings,
    {
        &self.siblings
    }

    pub fn start_idx(&self) -> (r: u32)
        ensures
            r == self.start,
    {
        self.start
    }

    pub fn end_idx(&self) -> (r: u32)
        ensures
            r == self.end,
    {
        self.end
    }

    /// `end - start`, or zero where `end < start`.
    pub fn range_len(&self) -> (r: usize)
        ensures
            r == spec_range_len(self.start, self.end),
    {
        self.end.saturating_sub(self.start) as usize
    }

    /// The sibling that covers the leaves right after the range, if the proof has one.
    pub fn leftmost_right_sibling(&self) -> (r: Option<&NamespacedHash>)
        ensures
            same_option(r, spec_leftmost_right_sibling(self.siblings@, self.start)),
    {
        let num_left_siblings = compute_num_left_siblings(self.start as usize);
        if self.siblings.len() > num_left_siblings {
            return Some(&self.siblings[num_left_siblings]);
        }
        None
    }

    /// The sibling that covers the leaves right before the range, if the proof has one.
    pub fn rightmost_left_sibling(&self) -> (r: Option<&NamespacedHash>)
        ensures
            same_option(r, spec_rightmost_left_sibling(self.siblings@, self.start)),
    {
        let num_left_siblings = compute_num_left_siblings(self.start as usize);
        if num_left_siblings != 0 && num_left_siblings <= self.siblings.len() {
            return Some(&self.siblings[num_left_siblings - 1]);
        }
        None
    }
}

/// Checks a range proof of leaf digests with the given hasher.
pub fn verify_leaf_hashes(
    hasher: &NamespacedSha2Hasher,
    proof: &Proof,
    root: &NamespacedHash,
    leaf_hashes: &Vec<NamespacedHash>,
) -> (r: Result<(), RangeProofError>)
    ensures
        r == spec_verify_leaf_hashes(
            hasher.ignore_max_ns,
            views(proof.siblings@),
            proof.start,
            proof.end,
            root@,
            views(leaf_hashes@),
        ),
{
    if leaf_hashes.len() != proof.range_len() {
        return Err(RangeProofError::WrongAmountOfLeavesProvided);
    }
    check_range_proof(hasher, root, leaf_hashes, &proof.siblings, proof.start)
}

/// A proof of no leaves verifies no nonempty list of leaf digests.
pub proof fn lemma_default_rejects_leaves(
    ignore_max_ns: bool,
    root: HashView,
    leaf_hashes: Seq<HashView>,
)
    requires
        leaf_hashes.len() > 0,
    ensures
        spec_verify_leaf_hashes(ignore_max_ns, Seq::empty(), 0, 0, root, leaf_hashes) == Err::<
            (),
            RangeProofError,
        >(RangeProofError::WrongAmountOfLeavesProvided),
{
}

} // verus!
