//! The same range sum as `fibonacci_sum`, with the terms computed on rayon's
//! thread pool and the partial results combined by addition.
use rayon::iter::IntoParallelIterator;
use rayon::iter::ParallelIterator;
use vstd::prelude::*;

use crate::workload::fib_sum;
use crate::workload::fibonacci;

verus! {

/// Relies on rayon's `into_par_iter` over a `u64` range, `map` and `sum`:
/// every `i` with `lo <= i < hi` is mapped exactly once and the mapped values
/// are added up (in an unspecified grouping), so the result is the plain sum.
/// When the whole sum fits in a `u64`, so does every partial sum, and no
/// addition overflows.
#[verifier::external_body]
fn par_sum_fibonacci(lo: u64, hi: u64) -> (r: u64)
    requires
        fib_sum(lo as nat, hi as nat) <= u64::MAX,
    ensures
        r == fib_sum(lo as nat, hi as nat),
{
    (lo..hi).into_par_iter().map(|n| fibonacci(n)).sum()
}

/// The sum of `fibonacci(i)` for `lo <= i < hi`, with the terms spread over
/// the worker threads; the caller blocks until all of them are done.
pub fn parallel_fibonacci_sum(lo: u64, hi: u64) -> (r: u64)
    requires
        fib_sum(lo as nat, hi as nat) <= u64::MAX,
    ensures
        r == fib_sum(lo as nat, hi as nat),
{
    par_sum_fibonacci(lo, hi)
}

} // verus!
