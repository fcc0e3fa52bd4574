//! The memory workload: a zeroed buffer of `u64` slots, overwritten with
//! each slot's own index in increasing order.
use vstd::prelude::*;

verus! {

/// The buffer of length `n` whose slot `i` holds `i`.
pub open spec fn index_seq(n: nat) -> Seq<u64> {
    Seq::new(n, |i: int| i as u64)
}

/// A buffer of `size` slots, each holding zero.
pub fn zeroed_buffer(size: usize) -> (r: Vec<u64>)
    ensures
        r@ == Seq::new(size as nat, |i: int| 0u64),
{
    let r = vec![0u64; size];
    assert(r@ =~= Seq::new(size as nat, |i: int| 0u64));
    r
}

/// Writes `i` into slot `i` of `buf`, for every slot from the first to the
/// last; the length is unchanged.
pub fn fill_sequential(buf: &mut Vec<u64>)
    ensures
        final(buf)@ == index_seq(old(buf)@.len()),
{
    let n = buf.len();
    let mut i: usize = 0;
    while i < n
        invariant
            buf@.len() == n,
            n == old(buf)@.len(),
            i <= n,
            forall|j: int| 0 <= j < i ==> buf@[j] == j as u64,
        decreases n - i,
    {
        buf.set(i, i as u64);
        i = i + 1;
    }
    assert(buf@ =~= index_seq(n as nat));
}

/// Filling a buffer that is already filled leaves it as it was, so the
/// workload gives the same buffer however often it runs.
pub proof fn lemma_fill_idempotent(n: nat)
    ensures
        index_seq(index_seq(n).len()) == index_seq(n),
{
}

} // verus!
