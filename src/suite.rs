//! The fixed inputs of the benchmarks, and what is proved of their results.
use vstd::prelude::*;

use crate::parallel::parallel_fibonacci_sum;
use crate::workload::fib;
use crate::workload::fib_sum;
use crate::workload::fibonacci_sum;

verus! {

/// First input of the recursive benchmarks.
pub const RANGE_START: u64 = 30;

/// One past the last input of the recursive benchmarks.
pub const RANGE_END: u64 = 35;

/// Number of `u64` slots written by the memory benchmark.
pub const MEMORY_BUFFER_LEN: usize = 100_000_000;

/// The terms of the sequence up to the last benchmark input, one step at a time.
pub proof fn lemma_fib_table()
    ensures
        fib(30) == 832040,
        fib(31) == 1346269,
        fib(32) == 2178309,
        fib(33) == 3524578,
        fib(34) == 5702887,
{
    reveal_with_fuel(fib, 3);
    assert(fib(2) == 1);
    assert(fib(3) == 2);
    assert(fib(4) == 3);
    assert(fib(5) == 5);
    assert(fib(6) == 8);
    assert(fib(7) == 13);
    assert(fib(8) == 21);
    assert(fib(9) == 34);
    assert(fib(10) == 55);
    assert(fib(11) == 89);
    assert(fib(12) == 144);
    assert(fib(13) == 233);
    assert(fib(14) == 377);
    assert(fib(15) == 610);
    assert(fib(16) == 987);
    assert(fib(17) == 1597);
    assert(fib(18) == 2584);
    assert(fib(19) == 4181);
    assert(fib(20) == 6765);
    assert(fib(21) == 10946);
    assert(fib(22) == 17711);
    assert(fib(23) == 28657);
    assert(fib(24) == 46368);
    assert(fib(25) == 75025);
    assert(fib(26) == 121393);
    assert(fib(27) == 196418);
    assert(fib(28) == 317811);
    assert(fib(29) == 514229);
    assert(fib(30) == 832040);
    assert(fib(31) == 1346269);
    assert(fib(32) == 2178309);
    assert(fib(33) == 3524578);
    assert(fib(34) == 5702887);
}

/// The sum over the benchmark range.
pub proof fn lemma_benchmark_sum()
    ensures
        fib_sum(RANGE_START as nat, RANGE_END as nat) == 13584083,
{
    lemma_fib_table();
    assert(fib_sum(30, 30) == 0);
    assert(fib_sum(30, 31) == 832040);
    assert(fib_sum(30, 32) == 2178309);
    assert(fib_sum(30, 33) == 4356618);
    assert(fib_sum(30, 34) == 7881196);
    assert(fib_sum(30, 35) == 13584083);
}

/// The result of the single-threaded benchmark: the range sum computed in order.
pub fn single_thread_result() -> (r: u64)
    ensures
        r == fib_sum(RANGE_START as nat, RANGE_END as nat),
        r == 13584083,
{
    proof {
        lemma_benchmark_sum();
    }
    fibonacci_sum(RANGE_START, RANGE_END)
}

/// The result of the multi-threaded benchmark: the range sum computed on the pool.
pub fn multi_thread_result() -> (r: u64)
    ensures
        r == fib_sum(RANGE_START as nat, RANGE_END as nat),
        r == 13584083,
{
    proof {
        lemma_benchmark_sum();
    }
    parallel_fibonacci_sum(RANGE_START, RANGE_END)
}

/// The sequential and the parallel range sums agree on every range whose sum fits.
pub proof fn lemma_sequential_matches_parallel(lo: u64, hi: u64, seq_r: u64, par_r: u64)
    requires
        call_ensures(fibonacci_sum, (lo, hi), seq_r),
        call_ensures(parallel_fibonacci_sum, (lo, hi), par_r),
    ensures
        seq_r == par_r,
{
}

/// Running the sequential range sum twice on one range gives one result.
pub proof fn lemma_fibonacci_sum_repeatable(lo: u64, hi: u64, first: u64, second: u64)
    requires
        call_ensures(fibonacci_sum, (lo, hi), first),
        call_ensures(fibonacci_sum, (lo, hi), second),
    ensures
        first == second,
{
}

/// Running the parallel range sum twice on one range gives one result,
/// however the worker threads were scheduled each time.
pub proof fn lemma_parallel_fibonacci_sum_repeatable(lo: u64, hi: u64, first: u64, second: u64)
    requires
        call_ensures(parallel_fibonacci_sum, (lo, hi), first),
        call_ensures(parallel_fibonacci_sum, (lo, hi), second),
    ensures
        first == second,
{
}

} // verus!
