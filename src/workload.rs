//! The recursive workload: the Fibonacci term computed by plain recursion,
//! and its sum over a half-open range of inputs.
use vstd::prelude::*;

verus! {

/// The n-th term: `fib(0) == 0`, `fib(1) == 1`, `fib(n) == fib(n - 1) + fib(n - 2)`.
pub open spec fn fib(n: nat) -> nat
    decreases n,
{
    if n == 0 {
        0
    } else if n == 1 {
        1
    } else {
        fib((n - 1) as nat) + fib((n - 2) as nat)
    }
}

/// The sum of `fib(i)` for every `i` with `lo <= i < hi` (zero when `hi <= lo`).
pub open spec fn fib_sum(lo: nat, hi: nat) -> nat
    decreases hi,
{
    if hi <= lo {
        0
    } else {
        fib_sum(lo, (hi - 1) as nat) + fib((hi - 1) as nat)
    }
}

/// The terms never decrease.
pub proof fn lemma_fib_monotone(m: nat, n: nat)
    requires
        m <= n,
    ensures
        fib(m) <= fib(n),
    decreases n,
{
    if m < n {
        lemma_fib_monotone(m, (n - 1) as nat);
        if n >= 2 {
            assert(fib(n) == fib((n - 1) as nat) + fib((n - 2) as nat));
        }
    }
}

/// A sum over a range never exceeds a sum over a longer range with the same start.
pub proof fn lemma_fib_sum_prefix(lo: nat, mid: nat, hi: nat)
    requires
        mid <= hi,
    ensures
        fib_sum(lo, mid) <= fib_sum(lo, hi),
    decreases hi,
{
    if mid < hi {
        lemma_fib_sum_prefix(lo, mid, (hi - 1) as nat);
    }
}

/// Splitting a range anywhere and adding the two partial sums gives the sum
/// over the whole range: a reduction may partition the work as it likes.
pub proof fn lemma_fib_sum_split(lo: nat, mid: nat, hi: nat)
    requires
        lo <= mid <= hi,
    ensures
        fib_sum(lo, hi) == fib_sum(lo, mid) + fib_sum(mid, hi),
    decreases hi,
{
    if mid < hi {
        lemma_fib_sum_split(lo, mid, (hi - 1) as nat);
    }
}

/// The n-th Fibonacci term, by direct recursion without memoization; the cost
/// grows exponentially with `n` on purpose.
pub fn fibonacci(n: u64) -> (r: u64)
    requires
        fib(n as nat) <= u64::MAX,
    ensures
        r == fib(n as nat),
    decreases n,
{
    match n {
        0 => 0,
        1 => 1,
        _ => {
            proof {
                lemma_fib_monotone((n - 1) as nat, n as nat);
                lemma_fib_monotone((n - 2) as nat, n as nat);
            }
            fibonacci(n - 1) + fibonacci(n - 2)
        },
    }
}

/// The sum of `fibonacci(i)` for `lo <= i < hi`, computed in order on the
/// calling thread.
pub fn fibonacci_sum(lo: u64, hi: u64) -> (r: u64)
    requires
        fib_sum(lo as nat, hi as nat) <= u64::MAX,
    ensures
        r == fib_sum(lo as nat, hi as nat),
{
    let mut total: u64 = 0;
    let mut i: u64 = lo;
    while i < hi
        invariant
            lo <= i,
            i <= hi || i == lo,
            total == fib_sum(lo as nat, i as nat),
            fib_sum(lo as nat, hi as nat) <= u64::MAX,
        decreases hi - i,
    {
        proof {
            lemma_fib_sum_prefix(lo as nat, (i + 1) as nat, hi as nat);
            assert(fib_sum(lo as nat, (i + 1) as nat) == fib_sum(lo as nat, i as nat) + fib(
                i as nat,
            ));
        }
        let term = fibonacci(i);
        total = total + term;
        i = i + 1;
    }
    total
}

} // verus!
