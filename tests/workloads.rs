use bench_harness::memory::fill_sequential;
use bench_harness::memory::zeroed_buffer;
use bench_harness::parallel::parallel_fibonacci_sum;
use bench_harness::suite::multi_thread_result;
use bench_harness::suite::single_thread_result;
use bench_harness::suite::MEMORY_BUFFER_LEN;
use bench_harness::suite::RANGE_END;
use bench_harness::suite::RANGE_START;
use bench_harness::workload::fibonacci;
use bench_harness::workload::fibonacci_sum;

#[test]
fn fibonacci_base_cases() {
    assert_eq!(fibonacci(0), 0);
    assert_eq!(fibonacci(1), 1);
}

#[test]
fn fibonacci_small_terms() {
    let expected: [u64; 11] = [0, 1, 1, 2, 3, 5, 8, 13, 21, 34, 55];
    for (n, want) in expected.iter().enumerate() {
        assert_eq!(fibonacci(n as u64), *want);
    }
}

#[test]
fn fibonacci_benchmark_inputs_match_reference() {
    let expected: [(u64, u64); 5] = [
        (30, 832040),
        (31, 1346269),
        (32, 2178309),
        (33, 3524578),
        (34, 5702887),
    ];
    for (n, want) in expected.iter() {
        let first = fibonacci(*n);
        let second = fibonacci(*n);
        assert_eq!(first, *want);
        assert_eq!(first, second);
    }
}

#[test]
fn benchmark_range_is_thirty_to_thirty_four() {
    assert_eq!(RANGE_START, 30);
    assert_eq!(RANGE_END, 35);
    assert_eq!(MEMORY_BUFFER_LEN, 100_000_000);
}

#[test]
fn sequential_sum_over_small_range() {
    assert_eq!(fibonacci_sum(0, 10), 88);
    assert_eq!(fibonacci_sum(5, 8), 5 + 8 + 13);
}

#[test]
fn sums_over_empty_and_reversed_ranges_are_zero() {
    assert_eq!(fibonacci_sum(7, 7), 0);
    assert_eq!(fibonacci_sum(9, 3), 0);
    assert_eq!(parallel_fibonacci_sum(7, 7), 0);
    assert_eq!(parallel_fibonacci_sum(9, 3), 0);
}

#[test]
fn parallel_sum_over_small_range() {
    assert_eq!(parallel_fibonacci_sum(0, 10), 88);
    assert_eq!(parallel_fibonacci_sum(5, 8), 5 + 8 + 13);
}

#[test]
fn sequential_and_parallel_sums_agree() {
    for lo in 0..25u64 {
        for hi in lo..26u64 {
            assert_eq!(fibonacci_sum(lo, hi), parallel_fibonacci_sum(lo, hi));
        }
    }
}

#[test]
fn single_and_multi_thread_results_agree() {
    let single = single_thread_result();
    let multi = multi_thread_result();
    assert_eq!(single, 13584083);
    assert_eq!(multi, 13584083);
    assert_eq!(single, multi);
}

#[test]
fn benchmark_results_repeat() {
    assert_eq!(single_thread_result(), single_thread_result());
    assert_eq!(multi_thread_result(), multi_thread_result());
    assert_eq!(fibonacci_sum(10, 20), fibonacci_sum(10, 20));
}

#[test]
fn zeroed_buffer_is_all_zero() {
    let buf = zeroed_buffer(1000);
    assert_eq!(buf.len(), 1000);
    assert!(buf.iter().all(|x| *x == 0));
    assert!(zeroed_buffer(0).is_empty());
}

#[test]
fn fill_writes_each_index() {
    let mut buf = zeroed_buffer(100_000);
    fill_sequential(&mut buf);
    assert_eq!(buf.len(), 100_000);
    for (i, x) in buf.iter().enumerate() {
        assert_eq!(*x, i as u64);
    }
}

#[test]
fn fill_overwrites_previous_contents() {
    let mut buf = vec![7u64; 5];
    fill_sequential(&mut buf);
    assert_eq!(buf, vec![0, 1, 2, 3, 4]);
}

#[test]
fn fill_of_empty_buffer_stays_empty() {
    let mut buf: Vec<u64> = Vec::new();
    fill_sequential(&mut buf);
    assert!(buf.is_empty());
}

#[test]
fn fill_twice_gives_same_buffer() {
    let mut buf = zeroed_buffer(1000);
    fill_sequential(&mut buf);
    let first = buf.clone();
    fill_sequential(&mut buf);
    assert_eq!(buf, first);
}
