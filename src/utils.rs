use vstd::prelude::*;

verus! {

/// The number of set bits in `n`.
pub open spec fn popcount(n: nat) -> nat
    decreases n,
{
    if n == 0 {
        0
    } else {
        n % 2 + popcount(n / 2)
    }
}

/// A number has no more set bits than its value.
pub proof fn lemma_popcount_le(n: nat)
    ensures
        popcount(n) <= n,
    decreases n,
{
    if n > 0 {
        lemma_popcount_le(n / 2);
    }
}

/// The number of siblings of a range proof that lie left of a range starting at `start`:
/// one for each set bit of `start`.
pub fn compute_num_left_siblings(start: usize) -> (r: usize)
    ensures
        r == popcount(start as nat),
{
    proof {
        lemma_popcount_le(start as nat);
    }
    let mut count: usize = 0;
    let mut rest: usize = start;
    while rest != 0
        invariant
            count + popcount(rest as nat) == popcount(start as nat),
            popcount(start as nat) <= start,
        decreases rest,
    {
        if rest % 2 == 1 {
            count = count + 1;
        }
        rest = rest / 2;
    }
    count
}

} // verus!
