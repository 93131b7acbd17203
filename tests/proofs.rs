use nmt_proof::error::RangeProofError;
use nmt_proof::namespaced_hash::{NamespaceId, NamespacedHash, NamespacedSha2Hasher};
use nmt_proof::nmt_proof::NamespaceProof;
use nmt_proof::range_proof::Proof;
use nmt_proof::utils::compute_num_left_siblings;

fn ns(n: u64) -> NamespaceId {
    NamespaceId(n)
}

fn raw(items: &[&[u8]]) -> Vec<Vec<u8>> {
    items.iter().map(|d| d.to_vec()).collect()
}

fn hasher() -> NamespacedSha2Hasher {
    NamespacedSha2Hasher::with_ignore_max_ns(false)
}

fn leaf(data: &[u8], n: u64) -> NamespacedHash {
    NamespacedHash::hash_leaf(&data.to_vec(), ns(n))
}

fn node(l: &NamespacedHash, r: &NamespacedHash) -> NamespacedHash {
    hasher().hash_nodes(l, r)
}

// Four leaves in namespaces 1, 1, 2, 2.
fn four_leaf_tree() -> (Vec<NamespacedHash>, NamespacedHash) {
    let leaves = vec![
        leaf(b"L0", 1),
        leaf(b"L1", 1),
        leaf(b"L2", 2),
        leaf(b"L3", 2),
    ];
    let root = node(&node(&leaves[0], &leaves[1]), &node(&leaves[2], &leaves[3]));
    (leaves, root)
}

fn presence(siblings: Vec<NamespacedHash>, start: u32, end: u32) -> NamespaceProof {
    NamespaceProof::PresenceProof {
        proof: Proof { siblings, start, end },
        ignore_max_ns: false,
    }
}

fn ns2_presence() -> (NamespaceProof, NamespacedHash) {
    let (leaves, root) = four_leaf_tree();
    let proof = presence(vec![node(&leaves[0], &leaves[1])], 2, 4);
    (proof, root)
}

fn flip_byte(h: &NamespacedHash, i: usize) -> NamespacedHash {
    let mut bytes = h.hash.clone();
    bytes[i] ^= 1;
    NamespacedHash::with_min_and_max_ns(h.min_ns, h.max_ns, bytes)
}

#[test]
fn presence_proof_for_namespace_two_verifies() {
    let (proof, root) = ns2_presence();
    assert_eq!(proof.verify_range(&root, &raw(&[b"L2", b"L3"]), ns(2)), Ok(()));
    assert_eq!(proof.verify_complete_namespace(&root, &raw(&[b"L2", b"L3"]), ns(2)), Ok(()));
}

#[test]
fn presence_proof_with_one_leaf_too_few_is_rejected() {
    let (proof, root) = ns2_presence();
    assert_eq!(
        proof.verify_range(&root, &raw(&[b"L2"]), ns(2)),
        Err(RangeProofError::WrongAmountOfLeavesProvided)
    );
    assert_eq!(
        proof.verify_complete_namespace(&root, &raw(&[b"L2"]), ns(2)),
        Err(RangeProofError::WrongAmountOfLeavesProvided)
    );
}

#[test]
fn presence_proof_with_too_many_or_no_leaves_is_rejected() {
    let (proof, root) = ns2_presence();
    assert_eq!(
        proof.verify_range(&root, &raw(&[b"L2", b"L3", b"L4"]), ns(2)),
        Err(RangeProofError::WrongAmountOfLeavesProvided)
    );
    assert_eq!(
        proof.verify_range(&root, &raw(&[]), ns(2)),
        Err(RangeProofError::WrongAmountOfLeavesProvided)
    );
}

#[test]
fn presence_proof_against_flipped_root_is_rejected() {
    let (proof, root) = ns2_presence();
    let bad = flip_byte(&root, 0);
    assert_eq!(
        proof.verify_range(&bad, &raw(&[b"L2", b"L3"]), ns(2)),
        Err(RangeProofError::InvalidRoot)
    );
}

#[test]
fn tampering_root_sibling_or_namespace_is_rejected() {
    let (proof, root) = ns2_presence();
    let leaves = raw(&[b"L2", b"L3"]);
    assert_eq!(proof.verify_range(&root, &leaves, ns(2)), Ok(()));
    for i in 0..32 {
        assert!(proof.verify_range(&flip_byte(&root, i), &leaves, ns(2)).is_err());
    }
    let (tree_leaves, _) = four_leaf_tree();
    let sibling = node(&tree_leaves[0], &tree_leaves[1]);
    for i in 0..32 {
        let tampered = presence(vec![flip_byte(&sibling, i)], 2, 4);
        assert!(tampered.verify_range(&root, &leaves, ns(2)).is_err());
    }
    assert!(proof.verify_range(&root, &leaves, ns(3)).is_err());
    assert!(proof.verify_range(&root, &leaves, ns(1)).is_err());
}

#[test]
fn converted_proof_is_rejected_by_range_path() {
    let (mut proof, root) = ns2_presence();
    proof.convert_to_absence_proof(leaf(b"L2", 2));
    assert!(proof.is_of_absence());
    assert!(!proof.is_of_presence());
    assert_eq!(
        proof.verify_range(&root, &raw(&[b"L2", b"L3"]), ns(2)),
        Err(RangeProofError::MalformedProof)
    );
}

#[test]
fn conversion_is_idempotent_and_keeps_mode() {
    let (leaves, _) = four_leaf_tree();
    let mut proof = NamespaceProof::PresenceProof {
        proof: Proof { siblings: vec![node(&leaves[0], &leaves[1])], start: 2, end: 4 },
        ignore_max_ns: true,
    };
    let first = leaf(b"first", 2);
    let second = leaf(b"second", 2);
    proof.convert_to_absence_proof(first.clone());
    proof.convert_to_absence_proof(second);
    match &proof {
        NamespaceProof::AbsenceProof { proof: inner, ignore_max_ns, leaf: kept } => {
            assert!(*ignore_max_ns);
            assert!(kept.as_ref().unwrap() == &first);
            assert_eq!(inner.start, 2);
            assert_eq!(inner.end, 4);
            assert_eq!(inner.siblings.len(), 1);
        }
        NamespaceProof::PresenceProof { .. } => panic!("still a presence proof"),
    }
    assert_eq!(proof.start_idx(), 2);
    assert_eq!(proof.end_idx(), 4);
}

// Leaves in namespaces 1, 2, 4, 4: namespace 3 would sit between the second and third.
fn absence_tree() -> (Vec<NamespacedHash>, NamespacedHash) {
    let leaves = vec![leaf(b"A", 1), leaf(b"B", 2), leaf(b"C", 4), leaf(b"D", 4)];
    let root = node(&node(&leaves[0], &leaves[1]), &node(&leaves[2], &leaves[3]));
    (leaves, root)
}

fn ns3_absence() -> (NamespaceProof, NamespacedHash) {
    let (leaves, root) = absence_tree();
    let proof = NamespaceProof::AbsenceProof {
        proof: Proof {
            siblings: vec![node(&leaves[0], &leaves[1]), leaves[3].clone()],
            start: 2,
            end: 3,
        },
        ignore_max_ns: false,
        leaf: Some(leaves[2].clone()),
    };
    (proof, root)
}

#[test]
fn absence_proof_for_namespace_three_verifies() {
    let (proof, root) = ns3_absence();
    assert_eq!(proof.verify_complete_namespace(&root, &raw(&[]), ns(3)), Ok(()));
}

#[test]
fn absence_proof_ignores_raw_leaves() {
    let (proof, root) = ns3_absence();
    assert_eq!(
        proof.verify_complete_namespace(&root, &raw(&[b"unrelated", b"bytes"]), ns(3)),
        Ok(())
    );
}

#[test]
fn absence_proof_is_rejected_by_range_path() {
    let (proof, root) = ns3_absence();
    assert_eq!(
        proof.verify_range(&root, &raw(&[b"C"]), ns(4)),
        Err(RangeProofError::MalformedProof)
    );
}

#[test]
fn absence_proof_for_present_namespace_is_rejected() {
    let (proof, root) = ns3_absence();
    assert_eq!(
        proof.verify_complete_namespace(&root, &raw(&[]), ns(4)),
        Err(RangeProofError::MalformedProof)
    );
    assert_eq!(
        proof.verify_complete_namespace(&root, &raw(&[]), ns(2)),
        Err(RangeProofError::MalformedProof)
    );
}

#[test]
fn absence_proof_without_leaf_is_malformed() {
    let (leaves, root) = absence_tree();
    let proof = NamespaceProof::AbsenceProof {
        proof: Proof {
            siblings: vec![node(&leaves[0], &leaves[1]), leaves[3].clone()],
            start: 2,
            end: 3,
        },
        ignore_max_ns: false,
        leaf: None,
    };
    assert_eq!(
        proof.verify_complete_namespace(&root, &raw(&[]), ns(3)),
        Err(RangeProofError::MalformedProof)
    );
}

#[test]
fn absence_outside_root_range_holds_at_once() {
    let (proof, root) = ns3_absence();
    assert_eq!(proof.verify_complete_namespace(&root, &raw(&[]), ns(9)), Ok(()));
    assert_eq!(proof.verify_complete_namespace(&root, &raw(&[]), ns(0)), Ok(()));
}

#[test]
fn incomplete_presence_proof_is_rejected() {
    // Only the first leaf of namespace 2 is claimed: the right sibling still holds namespace 2.
    let (leaves, root) = four_leaf_tree();
    let proof = presence(vec![node(&leaves[0], &leaves[1]), leaves[3].clone()], 2, 3);
    assert_eq!(proof.verify_range(&root, &raw(&[b"L2"]), ns(2)), Ok(()));
    assert_eq!(
        proof.verify_complete_namespace(&root, &raw(&[b"L2"]), ns(2)),
        Err(RangeProofError::MalformedProof)
    );
}

#[test]
fn boundary_siblings_of_a_middle_range() {
    let (proof, _) = ns3_absence();
    let (leaves, _) = absence_tree();
    assert!(proof.rightmost_left_sibling().unwrap() == &node(&leaves[0], &leaves[1]));
    assert!(proof.leftmost_right_sibling().unwrap() == &leaves[3]);
    assert_eq!(proof.siblings().len(), 2);
}

#[test]
fn boundary_siblings_at_the_edges() {
    let (leaves, _) = four_leaf_tree();
    let first = Proof { siblings: vec![leaves[1].clone(), node(&leaves[2], &leaves[3])], start: 0, end: 1 };
    assert!(first.rightmost_left_sibling().is_none());
    assert!(first.leftmost_right_sibling().unwrap() == &leaves[1]);
    let (proof, _) = ns2_presence();
    assert_eq!(compute_num_left_siblings(2), proof.siblings().len());
    assert!(proof.leftmost_right_sibling().is_none());
    assert!(proof.rightmost_left_sibling().is_some());
}

#[test]
fn num_left_siblings_counts_set_bits() {
    assert_eq!(compute_num_left_siblings(0), 0);
    assert_eq!(compute_num_left_siblings(1), 1);
    assert_eq!(compute_num_left_siblings(2), 1);
    assert_eq!(compute_num_left_siblings(7), 3);
    assert_eq!(compute_num_left_siblings(8), 1);
    assert_eq!(compute_num_left_siblings(13), 3);
}

#[test]
fn range_proof_of_leaf_hashes_verifies() {
    let leaves: Vec<NamespacedHash> = (0u64..3).map(|i| leaf(&[i as u8], i + 1)).collect();
    let h = NamespacedSha2Hasher::with_ignore_max_ns(true);
    let root = h.hash_nodes(&h.hash_nodes(&leaves[0], &leaves[1]), &leaves[2]);
    let last = Proof { siblings: vec![h.hash_nodes(&leaves[0], &leaves[1])], start: 2, end: 3 };
    assert_eq!(last.verify_range(&root, &vec![leaves[2].clone()]), Ok(()));
    let first = Proof { siblings: vec![leaves[1].clone(), leaves[2].clone()], start: 0, end: 1 };
    assert_eq!(first.verify_range(&root, &vec![leaves[0].clone()]), Ok(()));
    let all = Proof { siblings: vec![], start: 0, end: 3 };
    assert_eq!(all.verify_range(&root, &leaves), Ok(()));
    assert_eq!(
        all.verify_range(&root, &vec![leaves[0].clone()]),
        Err(RangeProofError::WrongAmountOfLeavesProvided)
    );
}

#[test]
fn range_len_saturates() {
    let p = Proof { siblings: vec![], start: 5, end: 3 };
    assert_eq!(p.range_len(), 0);
    let q = Proof { siblings: vec![], start: 3, end: 5 };
    assert_eq!(q.range_len(), 2);
    assert_eq!(q.start_idx(), 3);
    assert_eq!(q.end_idx(), 5);
    assert!(q.siblings().is_empty());
}

#[test]
fn default_proof_rejects_leaves() {
    let p = Proof::default();
    assert_eq!(p.range_len(), 0);
    let l = leaf(b"x", 1);
    assert_eq!(
        p.verify_range(&l, &vec![l.clone()]),
        Err(RangeProofError::WrongAmountOfLeavesProvided)
    );
}

#[test]
fn default_proof_and_empty_root() {
    let p = Proof::default();
    assert_eq!(p.verify_range(&NamespacedHash::empty_root(), &vec![]), Ok(()));
    assert_eq!(
        p.verify_range(&leaf(b"x", 1), &vec![]),
        Err(RangeProofError::NoLeavesProvided)
    );
}

#[test]
fn missing_siblings_is_malformed() {
    let (leaves, root) = four_leaf_tree();
    let p = Proof { siblings: vec![], start: 2, end: 4 };
    assert_eq!(
        p.verify_range(&root, &vec![leaves[2].clone(), leaves[3].clone()]),
        Err(RangeProofError::MalformedProof)
    );
    let extra = Proof { siblings: vec![root.clone(), root.clone(), root.clone()], start: 2, end: 4 };
    assert_eq!(
        extra.verify_range(&root, &vec![leaves[2].clone(), leaves[3].clone()]),
        Err(RangeProofError::MalformedProof)
    );
}

#[test]
fn empty_root_is_sha256_of_nothing() {
    let e = NamespacedHash::empty_root();
    assert_eq!(e.hash.len(), 32);
    assert_eq!(&e.hash[..4], &[0xe3, 0xb0, 0xc4, 0x42]);
    assert_eq!(e.hash[31], 0x55);
}

#[test]
fn leaf_digest_carries_namespace_and_hash() {
    let l = leaf(b"data", 7);
    assert_eq!(l.min_namespace(), ns(7));
    assert_eq!(l.max_namespace(), ns(7));
    assert_eq!(l.hash.len(), 32);
    assert!(l != leaf(b"data", 8));
    assert!(l != leaf(b"datb", 7));
    assert!(l == leaf(b"data", 7));
    assert!(l.contains(ns(7)));
    assert!(!l.contains(ns(6)));
}

#[test]
fn parent_namespace_range_aggregates_children() {
    let a = leaf(b"a", 1);
    let b = leaf(b"b", 5);
    let p = hasher().hash_nodes(&a, &b);
    assert_eq!(p.min_ns, ns(1));
    assert_eq!(p.max_ns, ns(5));
    let parity = leaf(b"p", u64::MAX);
    let ignoring = NamespacedSha2Hasher::with_ignore_max_ns(true).hash_nodes(&a, &parity);
    assert_eq!(ignoring.max_ns, ns(1));
    let counting = hasher().hash_nodes(&a, &parity);
    assert_eq!(counting.max_ns, ns(u64::MAX));
}

#[test]
fn hashing_mode_must_match() {
    // A tree whose last leaf is in the largest namespace hashes differently in the two modes.
    let a = leaf(b"a", 1);
    let parity = leaf(b"p", u64::MAX);
    let root = hasher().hash_nodes(&a, &parity);
    let good = presence(vec![parity.clone()], 0, 1);
    assert_eq!(good.verify_range(&root, &raw(&[b"a"]), ns(1)), Ok(()));
    let wrong_mode = NamespaceProof::PresenceProof {
        proof: Proof { siblings: vec![parity], start: 0, end: 1 },
        ignore_max_ns: true,
    };
    assert_eq!(
        wrong_mode.verify_range(&root, &raw(&[b"a"]), ns(1)),
        Err(RangeProofError::InvalidRoot)
    );
}
