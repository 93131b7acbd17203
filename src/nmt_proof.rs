use vstd::prelude::*;

use crate::error::RangeProofError;
use crate::namespaced_hash::{
    spec_contains, spec_hash_leaf, views, HashView, NamespaceId, NamespacedHash,
    NamespacedSha2Hasher,
};
use crate::range_proof::{
    same_option, spec_leftmost_right_sibling, spec_range_len, spec_rightmost_left_sibling,
    spec_verify_leaf_hashes, verify_leaf_hashes, Proof,
};
use crate::tree::{check_range_proof, spec_check_range_proof};
use crate::utils::{compute_num_left_siblings, popcount};

verus! {

/// A proof about a namespaced Merkle tree: that a range of leaves is all of a namespace
/// (presence), or that a namespace has no leaf at all (absence).
#[derive(Clone, Debug)]
pub enum NamespaceProof {
    AbsenceProof {
        proof: Proof,
        ignore_max_ns: bool,
        /// The digest of the leaf that stands where the namespace would begin.
        leaf: Option<NamespacedHash>,
    },
    PresenceProof { proof: Proof, ignore_max_ns: bool },
}

/// The byte sequences of a list of raw leaves.
pub open spec fn byte_views(raw: Seq<Vec<u8>>) -> Seq<Seq<u8>> {
    raw.map_values(|d: Vec<u8>| d@)
}

/// The digests of raw leaves hashed in namespace `ns`.
pub open spec fn leaf_views(raw: Seq<Seq<u8>>, ns: u64) -> Seq<HashView> {
    raw.map_values(|d: Seq<u8>| spec_hash_leaf(d, ns))
}

/// Whether the first `k` siblings lie wholly before namespace `ns` and the others wholly
/// after it, so that no leaf of `ns` stands outside what they enclose.
pub open spec fn bounded_siblings(siblings: Seq<HashView>, k: nat, ns: u64) -> bool {
    &&& forall|i: int| 0 <= i < k && i < siblings.len() ==> #[trigger] siblings[i].1 < ns
    &&& forall|i: int| k <= i < siblings.len() ==> #[trigger] siblings[i].0 > ns
}

impl NamespaceProof {
    /// The range proof inside, whatever the variant.
    pub open spec fn inner(&self) -> Proof {
        match self {
            NamespaceProof::AbsenceProof { proof, .. } => *proof,
            NamespaceProof::PresenceProof { proof, .. } => *proof,
        }
    }

    /// The hashing mode inside, whatever the variant.
    pub open spec fn spec_ignores_max_ns(&self) -> bool {
        match self {
            NamespaceProof::AbsenceProof { ignore_max_ns, .. } => *ignore_max_ns,
            NamespaceProof::PresenceProof { ignore_max_ns, .. } => *ignore_max_ns,
        }
    }
}

/// The outcome of checking raw leaves of namespace `ns` against `root` through the range path.
pub open spec fn spec_verify_range(
    p: NamespaceProof,
    root: HashView,
    raw: Seq<Seq<u8>>,
    ns: u64,
) -> Result<(), RangeProofError> {
    if p is AbsenceProof {
        Err(RangeProofError::MalformedProof)
    } else {
        spec_verify_leaf_hashes(
            p.spec_ignores_max_ns(),
            views(p.inner().siblings@),
            p.inner().start,
            p.inner().end,
            root,
            leaf_views(raw, ns),
        )
    }
}

/// The outcome of checking that `raw` is every leaf of namespace `ns` under `root`, or, for
/// an absence proof, that `ns` has no leaf there. An absence proof holds at once where the
/// root's namespaces do not include `ns`; otherwise it needs the digest of the single leaf of
/// its range, which must come after `ns`, and siblings that enclose it.
pub open spec fn spec_verify_complete_namespace(
    p: NamespaceProof,
    root: HashView,
    raw: Seq<Seq<u8>>,
    ns: u64,
) -> Result<(), RangeProofError> {
    let pf = p.inner();
    let siblings = views(pf.siblings@);
    match p {
        NamespaceProof::PresenceProof { ignore_max_ns, .. } => {
            if raw.len() != spec_range_len(pf.start, pf.end) {
                Err(RangeProofError::WrongAmountOfLeavesProvided)
            } else if !bounded_siblings(siblings, popcount(pf.start as nat), ns) {
                Err(RangeProofError::MalformedProof)
            } else {
                spec_check_range_proof(
                    ignore_max_ns,
                    root,
                    leaf_views(raw, ns),
                    siblings,
                    pf.start as nat,
                )
            }
        },
        NamespaceProof::AbsenceProof { ignore_max_ns, leaf, .. } => {
            if !spec_contains(root, ns) {
                Ok(())
            } else {
                match leaf {
                    None => Err(RangeProofError::MalformedProof),
                    Some(l) => if spec_range_len(pf.start, pf.end) != 1 || l@.0 <= ns
                        || !bounded_siblings(siblings, popcount(pf.start as nat), ns) {
                        Err(RangeProofError::MalformedProof)
                    } else {
                        spec_check_range_proof(
                            ignore_max_ns,
                            root,
                            seq![l@],
                            siblings,
                            pf.start as nat,
                        )
                    },
                }
            }
        },
    }
}

/// The proof after its conversion to absence with boundary leaf `leaf`: an absence proof is
/// left as it is; a presence proof keeps its range proof and mode and takes `leaf`.
pub open spec fn converted(p: NamespaceProof, leaf: NamespacedHash) -> NamespaceProof {
    match p {
        NamespaceProof::AbsenceProof { .. } => p,
        NamespaceProof::PresenceProof { proof, ignore_max_ns } => NamespaceProof::AbsenceProof {
            proof,
            ignore_max_ns,
            leaf: Some(leaf),
        },
    }
}

/// Hashes each raw leaf in namespace `ns`.
fn hash_leaves(raw: &Vec<Vec<u8>>, ns: NamespaceId) -> (r: Vec<NamespacedHash>)
    ensures
        views(r@) == leaf_views(byte_views(raw@), ns.0),
{
    let mut out: Vec<NamespacedHash> = Vec::new();
    let mut i: usize = 0;
    while i < raw.len()
        invariant
            i <= raw@.len(),
            out@.len() == i,
            forall|j: int| 0 <= j < i ==> #[trigger] out@[j]@ == spec_hash_leaf(raw@[j]@, ns.0),
        decreases raw@.len() - i,
    {
        out.push(NamespacedHash::hash_leaf(&raw[i], ns));
        i = i + 1;
    }
    assert(views(out@) =~= leaf_views(byte_views(raw@), ns.0));
    out
}

/// Whether the first `k` siblings lie before `ns` and the others after it.
fn siblings_bound_namespace(siblings: &Vec<NamespacedHash>, k: usize, ns: NamespaceId) -> (r:
    bool)
    ensures
        r == bounded_siblings(views(siblings@), k as nat, ns.0),
{
    let mut i: usize = 0;
    while i < siblings.len()
        invariant
            i <= siblings@.len(),
            forall|j: int| 0 <= j < k && j < i ==> #[trigger] siblings@[j]@.1 < ns.0,
            forall|j: int| k <= j < i ==> #[trigger] siblings@[j]@.0 > ns.0,
        decreases siblings@.len() - i,
    {
        if i < k {
            if siblings[i].max_ns.0 >= ns.0 {
                assert(views(siblings@)[i as int].1 >= ns.0);
                return false;
            }
        } else {
            if siblings[i].min_ns.0 <= ns.0 {
                assert(views(siblings@)[i as int].0 <= ns.0);
                return false;
            }
        }
        i = i + 1;
    }
    true
}

impl NamespaceProof {
    /// Checks that `raw_leaves` are every leaf of `namespace` under `root`; for an absence
    /// proof, that `namespace` has no leaf there, whatever `raw_leaves` holds.
    pub fn verify_complete_namespace(
        &self,
        root: &NamespacedHash,
        raw_leaves: &Vec<Vec<u8>>,
        namespace: NamespaceId,
    ) -> (r: Result<(), RangeProofError>)
        ensures
            r == spec_verify_complete_namespace(*self, root@, byte_views(raw_leaves@), namespace.0),
            self is PresenceProof && raw_leaves@.len() != spec_range_len(
                self.inner().start,
                self.inner().end,
            ) ==> r == Err::<(), RangeProofError>(RangeProofError::WrongAmountOfLeavesProvided),
    {
        let hasher = NamespacedSha2Hasher::with_ignore_max_ns(self.ignores_max_ns());
        let pf = self.merkle_proof();
        let num_left = compute_num_left_siblings(pf.start as usize);
        match self {
            NamespaceProof::PresenceProof { .. } => {
                if raw_leaves.len() != self.range_len() {
                    return Err(RangeProofError::WrongAmountOfLeavesProvided);
                }
                if !siblings_bound_namespace(&pf.siblings, num_left, namespace) {
                    return Err(RangeProofError::MalformedProof);
                }
                let leaf_hashes = hash_leaves(raw_leaves, namespace);
                check_range_proof(&hasher, root, &leaf_hashes, &pf.siblings, pf.start)
            },
            NamespaceProof::AbsenceProof { leaf, .. } => {
                if !root.contains(namespace) {
                    return Ok(());
                }
                match leaf {
                    None => Err(RangeProofError::MalformedProof),
                    Some(l) => {
                        if self.range_len() != 1 || l.min_ns.0 <= namespace.0
                            || !siblings_bound_namespace(&pf.siblings, num_left, namespace) {
                            return Err(RangeProofError::MalformedProof);
                        }
                        let mut leaf_hashes: Vec<NamespacedHash> = Vec::new();
                        leaf_hashes.push(l.duplicate());
                        assert(views(leaf_hashes@) =~= seq![l@]);
                        check_range_proof(&hasher, root, &leaf_hashes, &pf.siblings, pf.start)
                    },
                }
            },
        }
    }

    /// Checks that `raw_leaves`, hashed in `leaf_namespace`, are the leaves of this presence
    /// proof's range under `root`. An absence proof is never checked this way.
    pub fn verify_range(
        &self,
        root: &NamespacedHash,
        raw_leaves: &Vec<Vec<u8>>,
        leaf_namespace: NamespaceId,
    ) -> (r: Result<(), RangeProofError>)
        ensures
            r == spec_verify_range(*self, root@, byte_views(raw_leaves@), leaf_namespace.0),
            self is AbsenceProof ==> r == Err::<(), RangeProofError>(
                RangeProofError::MalformedProof,
            ),
            self is PresenceProof && raw_leaves@.len() != spec_range_len(
                self.inner().start,
                self.inner().end,
            ) ==> r == Err::<(), RangeProofError>(RangeProofError::WrongAmountOfLeavesProvided),
    {
        if self.is_of_absence() {
            return Err(RangeProofError::MalformedProof);
        }
        if raw_leaves.len() != self.range_len() {
            return Err(RangeProofError::WrongAmountOfLeavesProvided);
        }
        let leaf_hashes = hash_leaves(raw_leaves, leaf_namespace);
        let hasher = NamespacedSha2Hasher::with_ignore_max_ns(self.ignores_max_ns());
        verify_leaf_hashes(&hasher, self.merkle_proof(), root, &leaf_hashes)
    }

    /// Turns a presence proof into an absence proof with boundary leaf `leaf`, moving its range
    /// proof and keeping its mode; an absence proof is left as it is.
    pub fn convert_to_absence_proof(&mut self, leaf: NamespacedHash)
        ensures
            *final(self) == converted(*old(self), leaf),
    {
        if self.is_of_absence() {
            return;
        }
        let mut taken = NamespaceProof::PresenceProof {
            proof: Proof::default(),
            ignore_max_ns: false,
        };
        std::mem::swap(self, &mut taken);
        match taken {
            NamespaceProof::PresenceProof { proof, ignore_max_ns } => {
                *self = NamespaceProof::AbsenceProof { proof, ignore_max_ns, leaf: Some(leaf) };
            },
            NamespaceProof::AbsenceProof { proof, ignore_max_ns, leaf: kept } => {
                *self = NamespaceProof::AbsenceProof { proof, ignore_max_ns, leaf: kept };
            },
        }
    }

    fn merkle_proof(&self) -> (r: &Proof)
        ensures
            *r == self.inner(),
    {
        match self {
            NamespaceProof::AbsenceProof { proof, .. } => proof,
            NamespaceProof::PresenceProof { proof, .. } => proof,
        }
    }

    pub fn siblings(&self) -> (r: &Vec<NamespacedHash>)
        ensures
            *r == self.inner().siblings,
    {
        self.merkle_proof().siblings()
    }

    pub fn start_idx(&self) -> (r: u32)
        ensures
            r == self.inner().start,
    {
        self.merkle_proof().start_idx()
    }

    pub fn end_idx(&self) -> (r: u32)
        ensures
            r == self.inner().end,
    {
        self.merkle_proof().end_idx()
    }

    fn range_len(&self) -> (r: usize)
        ensures
            r == spec_range_len(self.inner().start, self.inner().end),
    {
        self.merkle_proof().range_len()
    }

    /// The sibling that covers the leaves right after the range, if the proof has one.
    pub fn leftmost_right_sibling(&self) -> (r: Option<&NamespacedHash>)
        ensures
            same_option(
                r,
                spec_leftmost_right_sibling(self.inner().siblings@, self.inner().start),
            ),
    {
        self.merkle_proof().leftmost_right_sibling()
    }

    /// The sibling that covers the leaves right before the range, if the proof has one.
    pub fn rightmost_left_sibling(&self) -> (r: Option<&NamespacedHash>)
        ensures
            same_option(
                r,
                spec_rightmost_left_sibling(self.inner().siblings@, self.inner().start),
            ),
    {
        self.merkle_proof().rightmost_left_sibling()
    }

    fn ignores_max_ns(&self) -> (r: bool)
        ensures
            r == self.spec_ignores_max_ns(),
    {
        match self {
            NamespaceProof::AbsenceProof { ignore_max_ns, .. } => *ignore_max_ns,
            NamespaceProof::PresenceProof { ignore_max_ns, .. } => *ignore_max_ns,
        }
    }

    pub fn is_of_absence(&self) -> (r: bool)
        ensures
            r == self is AbsenceProof,
    {
        match self {
            NamespaceProof::AbsenceProof { .. } => true,
            NamespaceProof::PresenceProof { .. } => false,
        }
    }

    pub fn is_of_presence(&self) -> (r: bool)
        ensures
            r == self is PresenceProof,
    {
        !self.is_of_absence()
    }
}

} // verus!
