use vstd::prelude::*;

use crate::error::RangeProofError;
use crate::namespaced_hash::{HashView, NamespacedHash};
use crate::nmt_proof::{
    converted, spec_verify_complete_namespace, spec_verify_range, NamespaceProof,
};
use crate::range_proof::{
    spec_leftmost_right_sibling, spec_range_len, spec_rightmost_left_sibling,
    spec_verify_leaf_hashes,
};
use crate::utils::popcount;

verus! {

/// A range proof given a number of leaf digests other than the length of its range rejects
/// them as the wrong amount of leaves, in either hashing mode and against any root.
pub proof fn lemma_range_proof_wrong_leaf_count(
    ignore_max_ns: bool,
    siblings: Seq<HashView>,
    start: u32,
    end: u32,
    root: HashView,
    leaf_hashes: Seq<HashView>,
)
    requires
        leaf_hashes.len() != spec_range_len(start, end),
    ensures
        spec_verify_leaf_hashes(ignore_max_ns, siblings, start, end, root, leaf_hashes) == Err::<
            (),
            RangeProofError,
        >(RangeProofError::WrongAmountOfLeavesProvided),
{
}

/// A presence proof given a number of raw leaves other than the length of its range rejects
/// them as the wrong amount of leaves, on both verification paths.
pub proof fn lemma_presence_wrong_leaf_count(
    p: NamespaceProof,
    root: HashView,
    raw: Seq<Seq<u8>>,
    ns: u64,
)
    requires
        p is PresenceProof,
        raw.len() != spec_range_len(p.inner().start, p.inner().end),
    ensures
        spec_verify_range(p, root, raw, ns) == Err::<(), RangeProofError>(
            RangeProofError::WrongAmountOfLeavesProvided,
        ),
        spec_verify_complete_namespace(p, root, raw, ns) == Err::<(), RangeProofError>(
            RangeProofError::WrongAmountOfLeavesProvided,
        ),
{
}

/// The range path rejects every absence proof as malformed, and so every proof once it has
/// been converted to absence, whatever the root, leaves and namespace.
pub proof fn lemma_absence_rejected_by_range_path(
    p: NamespaceProof,
    leaf: NamespacedHash,
    root: HashView,
    raw: Seq<Seq<u8>>,
    ns: u64,
)
    ensures
        converted(p, leaf) is AbsenceProof,
        spec_verify_range(converted(p, leaf), root, raw, ns) == Err::<(), RangeProofError>(
            RangeProofError::MalformedProof,
        ),
        p is AbsenceProof ==> spec_verify_range(p, root, raw, ns) == Err::<(), RangeProofError>(
            RangeProofError::MalformedProof,
        ),
{
}

/// Converting to absence twice is converting once: the boundary leaf stays the one of the
/// first conversion, and the range proof and hashing mode are kept throughout.
pub proof fn lemma_convert_idempotent(p: NamespaceProof, first: NamespacedHash, second: NamespacedHash)
    ensures
        converted(converted(p, first), second) == converted(p, first),
        converted(p, first).spec_ignores_max_ns() == p.spec_ignores_max_ns(),
        converted(p, first).inner() == p.inner(),
        p is PresenceProof ==> converted(p, first) == (NamespaceProof::AbsenceProof {
            proof: p.inner(),
            ignore_max_ns: p.spec_ignores_max_ns(),
            leaf: Some(first),
        }),
{
}

/// A range that starts at the first leaf has no sibling to its left, and a proof with no more
/// siblings than lie left of its range has none to its right.
pub proof fn lemma_boundary_siblings_at_edges(siblings: Seq<NamespacedHash>, start: u32)
    ensures
        start == 0 ==> spec_rightmost_left_sibling(siblings, start) is None,
        siblings.len() == popcount(start as nat) ==> spec_leftmost_right_sibling(
            siblings,
            start,
        ) is None,
{
}

} // verus!
