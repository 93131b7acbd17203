use vstd::prelude::*;

use crate::error::RangeProofError;
use crate::namespaced_hash::{
    empty_root_view, spec_hash_nodes, views, HashView, NamespacedHash, NamespacedSha2Hasher,
};
use crate::utils::{compute_num_left_siblings, popcount};

verus! {

/// Past this bit no tree of a range proof reaches.
pub const FILL_LIMIT: u64 = 0x100_0000_0000;

/// Sets the `r` lowest clear bits of `x` from bit `b` upward (`b` a power of two), where
/// the right siblings of a range ending at leaf `x` stand; `None` once `b` reaches the limit.
pub open spec fn fill_zero_bits(x: nat, b: nat, r: nat) -> Option<nat>
    decreases (if b < FILL_LIMIT { FILL_LIMIT - b } else { 0 }),
{
    if r == 0 {
        Some(x)
    } else if b == 0 || b >= FILL_LIMIT {
        None
    } else if (x / b) % 2 == 0 {
        fill_zero_bits(x + b, 2 * b, (r - 1) as nat)
    } else {
        fill_zero_bits(x, 2 * b, r)
    }
}

/// The first power of two from `s` (itself a power of two) upward that is at least `n`.
pub open spec fn cover_size(n: nat, s: nat) -> nat
    decreases (if s < n { n - s } else { 0 }),
{
    if s == 0 || s >= n {
        s
    } else {
        cover_size(n, 2 * s)
    }
}

/// The digest of the node of a tree of `n` leaves that covers `[lo, lo + size)`, rebuilt from
/// the leaves of `[start, end)` and the siblings from index `next` on, with the index of the
/// first sibling left unused. A node outside the range is the next sibling; a node whose right
/// half holds no leaf of the tree is its left half.
pub open spec fn spec_node(
    ignore_max_ns: bool,
    leaves: Seq<HashView>,
    siblings: Seq<HashView>,
    next: nat,
    start: nat,
    end: nat,
    n: nat,
    lo: nat,
    size: nat,
) -> Result<(HashView, nat), RangeProofError>
    decreases size,
{
    if end <= lo || lo + size <= start {
        if next < siblings.len() {
            Ok((siblings[next as int], next + 1))
        } else {
            Err(RangeProofError::MalformedProof)
        }
    } else if size <= 1 {
        Ok((leaves[lo - start], next))
    } else {
        let half = size / 2;
        match spec_node(ignore_max_ns, leaves, siblings, next, start, end, n, lo, half) {
            Err(e) => Err(e),
            Ok((left, after_left)) => if n <= lo + half {
                Ok((left, after_left))
            } else {
                match spec_node(
                    ignore_max_ns,
                    leaves,
                    siblings,
                    after_left,
                    start,
                    end,
                    n,
                    lo + half,
                    half,
                ) {
                    Err(e) => Err(e),
                    Ok((right, after_right)) => if left.1 <= right.0 {
                        Ok((spec_hash_nodes(ignore_max_ns, left, right), after_right))
                    } else {
                        Err(RangeProofError::MalformedProof)
                    },
                }
            },
        }
    }
}

/// Whether an executable node result has the view of a spec node result.
pub open spec fn node_matches(
    r: Result<(NamespacedHash, usize), RangeProofError>,
    s: Result<(HashView, nat), RangeProofError>,
) -> bool {
    match r {
        Ok((h, next)) => s == Ok::<(HashView, nat), RangeProofError>((h@, next as nat)),
        Err(e) => s == Err::<(HashView, nat), RangeProofError>(e),
    }
}

/// The outcome of checking that `leaves`, starting at leaf `start`, hash up to `root` with
/// `siblings`, in the mode `ignore_max_ns`. The tree is sized from the number of right
/// siblings, which take the lowest clear bits of the index of the last leaf.
pub open spec fn spec_check_range_proof(
    ignore_max_ns: bool,
    root: HashView,
    leaves: Seq<HashView>,
    siblings: Seq<HashView>,
    start: nat,
) -> Result<(), RangeProofError> {
    if leaves.len() == 0 {
        if siblings.len() == 0 && root == empty_root_view() {
            Ok(())
        } else {
            Err(RangeProofError::NoLeavesProvided)
        }
    } else if siblings.len() < popcount(start) {
        Err(RangeProofError::MalformedProof)
    } else {
        match fill_zero_bits(
            (start + leaves.len() - 1) as nat,
            1,
            (siblings.len() - popcount(start)) as nat,
        ) {
            None => Err(RangeProofError::MalformedProof),
            Some(last) => match spec_node(
                ignore_max_ns,
                leaves,
                siblings,
                0,
                start,
                start + leaves.len(),
                last + 1,
                0,
                cover_size(last + 1, 1),
            ) {
                Err(e) => Err(e),
                Ok((computed, used)) => if used != siblings.len() {
                    Err(RangeProofError::MalformedProof)
                } else if computed == root {
                    Ok(())
                } else {
                    Err(RangeProofError::InvalidRoot)
                },
            },
        }
    }
}

fn compute_node(
    hasher: &NamespacedSha2Hasher,
    leaves: &Vec<NamespacedHash>,
    siblings: &Vec<NamespacedHash>,
    next: usize,
    start: u64,
    end: u64,
    n: u64,
    lo: u64,
    size: u64,
) -> (r: Result<(NamespacedHash, usize), RangeProofError>)
    requires
        next <= siblings@.len(),
        start <= end,
        end - start == leaves@.len(),
        lo < n,
        n <= 4 * FILL_LIMIT,
        size <= 8 * FILL_LIMIT,
    ensures
        node_matches(
            r,
            spec_node(
                hasher.ignore_max_ns,
                views(leaves@),
                views(siblings@),
                next as nat,
                start as nat,
                end as nat,
                n as nat,
                lo as nat,
                size as nat,
            ),
        ),
        r matches Ok((_, after)) ==> after <= siblings@.len(),
    decreases size,
{
    if end <= lo || lo + size <= start {
        if next < siblings.len() {
            assert(views(siblings@)[next as int] == siblings@[next as int]@);
            Ok((siblings[next].duplicate(), next + 1))
        } else {
            Err(RangeProofError::MalformedProof)
        }
    } else if size <= 1 {
        assert(start <= lo < end);
        let d: u64 = lo - start;
        let count: usize = leaves.len();
        assert(d < count);
        let i: usize = d as usize;
        assert(i == d);
        assert(views(leaves@)[i as int] == leaves@[i as int]@);
        Ok((leaves[i].duplicate(), next))
    } else {
        let half = size / 2;
        match compute_node(hasher, leaves, siblings, next, start, end, n, lo, half) {
            Err(e) => Err(e),
            Ok((left, after_left)) => if n <= lo + half {
                Ok((left, after_left))
            } else {
                match compute_node(hasher, leaves, siblings, after_left, start, end, n, lo + half, half) {
                    Err(e) => Err(e),
                    Ok((right, after_right)) => if left.max_ns.0 <= right.min_ns.0 {
                        Ok((hasher.hash_nodes(&left, &right), after_right))
                    } else {
                        Err(RangeProofError::MalformedProof)
                    },
                }
            },
        }
    }
}

/// Sets the `r` lowest clear bits of `x`; `None` where they do not all lie below the limit.
fn fill_lowest_zero_bits(x: u64, r: usize) -> (res: Option<u64>)
    requires
        x < 0x1_0000_0000,
    ensures
        match res {
            Some(v) => fill_zero_bits(x as nat, 1, r as nat) == Some(v as nat) && v < 4 * FILL_LIMIT,
            None => fill_zero_bits(x as nat, 1, r as nat) is None,
        },
{
    let mut v: u64 = x;
    let mut b: u64 = 1;
    let mut rem: usize = r;
    while rem > 0
        invariant
            x < 0x1_0000_0000,
            b >= 1,
            b < 2 * FILL_LIMIT,
            v + 1 <= x + b,
            fill_zero_bits(x as nat, 1, r as nat) == fill_zero_bits(v as nat, b as nat, rem as nat),
        decreases 2 * FILL_LIMIT - b,
    {
        if b >= FILL_LIMIT {
            return None;
        }
        if (v / b) % 2 == 0 {
            v = v + b;
            rem = rem - 1;
        }
        b = b * 2;
    }
    Some(v)
}

/// The first power of two that is at least `n`.
fn cover(n: u64) -> (s: u64)
    requires
        1 <= n <= 4 * FILL_LIMIT,
    ensures
        s == cover_size(n as nat, 1),
        s <= 8 * FILL_LIMIT,
{
    let mut s: u64 = 1;
    while s < n
        invariant
            1 <= s,
            n <= 4 * FILL_LIMIT,
            s < 2 * n,
            cover_size(n as nat, 1) == cover_size(n as nat, s as nat),
        decreases 8 * FILL_LIMIT - s,
    {
        s = s * 2;
    }
    s
}

/// Checks that `leaves`, starting at leaf `start`, hash up to `root` with `siblings`.
pub fn check_range_proof(
    hasher: &NamespacedSha2Hasher,
    root: &NamespacedHash,
    leaves: &Vec<NamespacedHash>,
    siblings: &Vec<NamespacedHash>,
    start: u32,
) -> (r: Result<(), RangeProofError>)
    requires
        start + leaves@.len() <= u32::MAX,
    ensures
        r == spec_check_range_proof(
            hasher.ignore_max_ns,
            root@,
            views(leaves@),
            views(siblings@),
            start as nat,
        ),
{
    if leaves.len() == 0 {
        let empty = NamespacedHash::empty_root();
        if siblings.len() == 0 && *root == empty {
            return Ok(());
        } else {
            return Err(RangeProofError::NoLeavesProvided);
        }
    }
    let num_left = compute_num_left_siblings(start as usize);
    if siblings.len() < num_left {
        return Err(RangeProofError::MalformedProof);
    }
    let end: u64 = start as u64 + leaves.len() as u64;
    match fill_lowest_zero_bits(end - 1, siblings.len() - num_left) {
        None => Err(RangeProofError::MalformedProof),
        Some(last) => {
            let size = cover(last + 1);
            match compute_node(hasher, leaves, siblings, 0, start as u64, end, last + 1, 0, size) {
                Err(e) => Err(e),
                Ok((computed, used)) => if used != siblings.len() {
                    Err(RangeProofError::MalformedProof)
                } else if computed == *root {
                    Ok(())
                } else {
                    Err(RangeProofError::InvalidRoot)
                },
            }
        },
    }
}

} // verus!
