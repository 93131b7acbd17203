use vstd::prelude::*;

verus! {

/// The largest namespace; some trees reserve it for a trailing region such as parity data.
pub const MAX_NS: u64 = 0xffff_ffff_ffff_ffff;

/// A namespace identifier. Namespaces are ordered as their big-endian bytes are, which is
/// the order of the integer.
#[derive(Clone, Copy, Debug, PartialEq, Eq, Structural)]
pub struct NamespaceId(pub u64);

/// The mathematical value of a digest: its minimum namespace, its maximum namespace and
/// the bytes of the hash.
pub type HashView = (u64, u64, Seq<u8>);

/// A digest of a namespaced Merkle tree node, with the range of namespaces below it.
#[derive(Clone, Debug)]
pub struct NamespacedHash {
    pub min_ns: NamespaceId,
    pub max_ns: NamespaceId,
    pub hash: Vec<u8>,
}

impl View for NamespacedHash {
    type V = HashView;

    open spec fn view(&self) -> HashView {
        (self.min_ns.0, self.max_ns.0, self.hash@)
    }
}

/// The views of a sequence of digests.
pub open spec fn views(s: Seq<NamespacedHash>) -> Seq<HashView> {
    s.map_values(|h: NamespacedHash| h@)
}

/// The bytes of SHA-256 applied to `data`.
pub uninterp spec fn sha256_of(data: Seq<u8>) -> Seq<u8>;

/// Relies on sha2::Sha256::digest: a 32-byte digest that depends on the input bytes alone.
#[verifier::external_body]
pub(crate) fn sha256(data: &Vec<u8>) -> (r: Vec<u8>)
    ensures
        r@ == sha256_of(data@),
        r@.len() == 32,
{
    <sha2::Sha256 as sha2::Digest>::digest(data.as_slice()).to_vec()
}

/// The eight big-endian bytes of `x`.
pub open spec fn be_bytes(x: u64) -> Seq<u8> {
    seq![
        (x >> 56u64) as u8,
        (x >> 48u64) as u8,
        (x >> 40u64) as u8,
        (x >> 32u64) as u8,
        (x >> 24u64) as u8,
        (x >> 16u64) as u8,
        (x >> 8u64) as u8,
        x as u8,
    ]
}

/// A digest written out as bytes: minimum namespace, maximum namespace, hash.
pub open spec fn serialized(h: HashView) -> Seq<u8> {
    be_bytes(h.0) + be_bytes(h.1) + h.2
}

/// Domain separator that precedes the bytes of a leaf.
pub const LEAF_DOMAIN_SEPARATOR: u8 = 0;

/// Domain separator that precedes the two children of an internal node.
pub const INTERNAL_NODE_DOMAIN_SEPARATOR: u8 = 1;

/// The digest of a leaf holding `data` in namespace `ns`.
pub open spec fn spec_hash_leaf(data: Seq<u8>, ns: u64) -> HashView {
    (ns, ns, sha256_of(seq![LEAF_DOMAIN_SEPARATOR] + be_bytes(ns) + data))
}

/// The maximum namespace of a parent. In the mode that ignores the largest namespace, a
/// right child made only of that namespace does not raise the parent's maximum.
pub open spec fn parent_max_ns(ignore_max_ns: bool, left: HashView, right: HashView) -> u64 {
    if ignore_max_ns && left.0 == MAX_NS {
        MAX_NS
    } else if ignore_max_ns && right.0 == MAX_NS {
        left.1
    } else if left.1 >= right.1 {
        left.1
    } else {
        right.1
    }
}

/// The digest of an internal node with children `left` and `right`.
pub open spec fn spec_hash_nodes(ignore_max_ns: bool, left: HashView, right: HashView) -> HashView {
    (
        if left.0 <= right.0 { left.0 } else { right.0 },
        parent_max_ns(ignore_max_ns, left, right),
        sha256_of(seq![INTERNAL_NODE_DOMAIN_SEPARATOR] + serialized(left) + serialized(right)),
    )
}

/// Whether namespace `ns` lies in the range of namespaces of `h`.
pub open spec fn spec_contains(h: HashView, ns: u64) -> bool {
    h.0 <= ns && ns <= h.1
}

/// Appends the eight big-endian bytes of `x`.
fn push_be_bytes(out: &mut Vec<u8>, x: u64)
    ensures
        final(out)@ == old(out)@ + be_bytes(x),
{
    out.push((x >> 56u64) as u8);
    out.push((x >> 48u64) as u8);
    out.push((x >> 40u64) as u8);
    out.push((x >> 32u64) as u8);
    out.push((x >> 24u64) as u8);
    out.push((x >> 16u64) as u8);
    out.push((x >> 8u64) as u8);
    out.push(x as u8);
    assert(final(out)@ =~= old(out)@ + be_bytes(x));
}

/// Appends every byte of `bytes`.
fn push_all(out: &mut Vec<u8>, bytes: &Vec<u8>)
    ensures
        final(out)@ == old(out)@ + bytes@,
{
    let mut i: usize = 0;
    while i < bytes.len()
        invariant
            i <= bytes@.len(),
            out@ == old(out)@ + bytes@.subrange(0, i as int),
        decreases bytes@.len() - i,
    {
        out.push(bytes[i]);
        i = i + 1;
        assert(out@ =~= old(out)@ + bytes@.subrange(0, i as int));
    }
    assert(bytes@.subrange(0, i as int) =~= bytes@);
}

/// Appends a digest written out as bytes.
fn push_serialized(out: &mut Vec<u8>, h: &NamespacedHash)
    ensures
        final(out)@ == old(out)@ + serialized(h@),
{
    push_be_bytes(out, h.min_ns.0);
    push_be_bytes(out, h.max_ns.0);
    push_all(out, &h.hash);
    assert(final(out)@ =~= old(out)@ + serialized(h@));
}

impl NamespacedHash {
    /// A digest with the given namespace range and hash bytes.
    pub fn with_min_and_max_ns(min_ns: NamespaceId, max_ns: NamespaceId, hash: Vec<u8>) -> (r: Self)
        ensures
            r@ == (min_ns.0, max_ns.0, hash@),
    {
        NamespacedHash { min_ns, max_ns, hash }
    }

    pub fn min_namespace(&self) -> (r: NamespaceId)
        ensures
            r == self.min_ns,
    {
        self.min_ns
    }

    pub fn max_namespace(&self) -> (r: NamespaceId)
        ensures
            r == self.max_ns,
    {
        self.max_ns
    }

    /// A copy with the same view.
    pub fn duplicate(&self) -> (r: Self)
        ensures
            r@ == self@,
    {
        let mut hash: Vec<u8> = Vec::new();
        push_all(&mut hash, &self.hash);
        NamespacedHash { min_ns: self.min_ns, max_ns: self.max_ns, hash }
    }

    /// Whether `ns` lies in this digest's range of namespaces.
    pub fn contains(&self, ns: NamespaceId) -> (r: bool)
        ensures
            r == spec_contains(self@, ns.0),
    {
        self.min_ns.0 <= ns.0 && ns.0 <= self.max_ns.0
    }

    /// The digest of the empty tree: no namespace and the hash of no bytes.
    pub fn empty_root() -> (r: Self)
        ensures
            r@ == empty_root_view(),
    {
        let none: Vec<u8> = Vec::new();
        NamespacedHash { min_ns: NamespaceId(0), max_ns: NamespaceId(0), hash: sha256(&none) }
    }

    /// The digest of a leaf holding `data` in namespace `ns`.
    pub fn hash_leaf(data: &Vec<u8>, ns: NamespaceId) -> (r: Self)
        ensures
            r@ == spec_hash_leaf(data@, ns.0),
    {
        let mut pre: Vec<u8> = Vec::new();
        pre.push(LEAF_DOMAIN_SEPARATOR);
        push_be_bytes(&mut pre, ns.0);
        push_all(&mut pre, data);
        assert(pre@ =~= seq![LEAF_DOMAIN_SEPARATOR] + be_bytes(ns.0) + data@);
        NamespacedHash { min_ns: ns, max_ns: ns, hash: sha256(&pre) }
    }
}

/// The view of the digest of the empty tree.
pub open spec fn empty_root_view() -> HashView {
    (0, 0, sha256_of(Seq::empty()))
}

impl PartialEq for NamespacedHash {
    fn eq(&self, o: &NamespacedHash) -> (r: bool) {
        if self.min_ns.0 != o.min_ns.0 || self.max_ns.0 != o.max_ns.0 || self.hash.len() != o.hash.len() {
            return false;
        }
        let mut i: usize = 0;
        while i < self.hash.len()
            invariant
                i <= self.hash@.len(),
                self.hash@.len() == o.hash@.len(),
                self.hash@.subrange(0, i as int) == o.hash@.subrange(0, i as int),
            decreases self.hash@.len() - i,
        {
            if self.hash[i] != o.hash[i] {
                assert(self.hash@[i as int] != o.hash@[i as int]);
                return false;
            }
            assert(self.hash@.subrange(0, i + 1) =~= self.hash@.subrange(0, i as int).push(self.hash@[i as int]));
            assert(o.hash@.subrange(0, i + 1) =~= o.hash@.subrange(0, i as int).push(o.hash@[i as int]));
            i = i + 1;
        }
        assert(self.hash@ =~= self.hash@.subrange(0, i as int));
        assert(o.hash@ =~= o.hash@.subrange(0, i as int));
        true
    }
}

impl vstd::std_specs::cmp::PartialEqSpecImpl for NamespacedHash {
    open spec fn obeys_eq_spec() -> bool {
        true
    }

    open spec fn eq_spec(&self, o: &NamespacedHash) -> bool {
        self@ == o@
    }
}

/// A hasher for namespaced trees, configured for one treatment of the largest namespace.
#[derive(Clone, Copy, Debug, PartialEq, Eq, Structural)]
pub struct NamespacedSha2Hasher {
    pub ignore_max_ns: bool,
}

impl NamespacedSha2Hasher {
    pub fn with_ignore_max_ns(ignore_max_ns: bool) -> (r: Self)
        ensures
            r.ignore_max_ns == ignore_max_ns,
    {
        NamespacedSha2Hasher { ignore_max_ns }
    }

    /// The digest of an internal node. The children must be in namespace order.
    pub fn hash_nodes(&self, left: &NamespacedHash, right: &NamespacedHash) -> (r: NamespacedHash)
        requires
            left.max_ns.0 <= right.min_ns.0,
        ensures
            r@ == spec_hash_nodes(self.ignore_max_ns, left@, right@),
    {
        let min_ns = if left.min_ns.0 <= right.min_ns.0 { left.min_ns } else { right.min_ns };
        let max_ns = if self.ignore_max_ns && left.min_ns.0 == MAX_NS {
            NamespaceId(MAX_NS)
        } else if self.ignore_max_ns && right.min_ns.0 == MAX_NS {
            left.max_ns
        } else if left.max_ns.0 >= right.max_ns.0 {
            left.max_ns
        } else {
            right.max_ns
        };
        let mut pre: Vec<u8> = Vec::new();
        pre.push(INTERNAL_NODE_DOMAIN_SEPARATOR);
        push_serialized(&mut pre, left);
        push_serialized(&mut pre, right);
        assert(pre@ =~= seq![INTERNAL_NODE_DOMAIN_SEPARATOR] + serialized(left@) + serialized(right@));
        NamespacedHash { min_ns, max_ns, hash: sha256(&pre) }
    }
}

} // verus!
