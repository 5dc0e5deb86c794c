//! Performance ceilings, and what happens when one is crossed.
//!
//! Timing the body is the runner's part; what a contract makes of the measurements it is
//! handed is checked here, with the measurements written out.

use dokimi_assert::bench::{mean, per_iteration, percentile, sort_samples, Contract, CountingAllocator};
use dokimi_assert::failure::Where;

fn here() -> Where {
    Where { file: "bench.rs", line: 11 }
}

const MILLI: u128 = 1_000_000;

#[test]
fn checking_without_running_says_nothing_was_measured() {
    let held = Contract::new("get stays quick").max_latency(10_000 * MILLI).check(here());

    let said = held.expect_err("a contract nobody ran proves nothing");
    assert!(said.contains("nothing was measured"), "{said}");
}

#[test]
fn a_ceiling_nobody_stated_is_not_checked() {
    let held = Contract::new("get runs").measured(10, vec![5; 10], None, None).check(here());
    assert_eq!(held, Ok(vec![]), "a contract with no ceiling has nothing to cross");
}

#[test]
fn a_run_inside_every_ceiling_reports_nothing() {
    let held = Contract::new("get stays quick")
        .max_latency(10_000 * MILLI)
        .max_mean(10_000 * MILLI)
        .measured(100, vec![MILLI; 100], None, None)
        .check(here());
    assert_eq!(held, Ok(vec![]));
}

#[test]
fn a_crossed_latency_ceiling_names_the_p99_and_a_crossed_mean_is_separate() {
    let held = Contract::new("get stays quick")
        .max_latency(1)
        .max_mean(1)
        .measured(100, vec![1_234_567; 100], None, None)
        .check(here())
        .expect("the run was measured");
    assert_eq!(held.len(), 2);
    assert_eq!(held[0].assertion, "bench-max-latency");
    assert_eq!(held[0].render(), "get stays quick: p99 1.235ms, want 0ms, iterations 100");
    assert_eq!(held[1].assertion, "bench-max-mean");
    assert_eq!(held[1].where_at, here());
}

#[test]
fn allocation_ceilings_read_what_each_iteration_allocated() {
    let crossed = Contract::new("get allocates little")
        .max_allocs(0)
        .max_bytes(8)
        .measured(1_000, vec![1; 1_000], Some(1), Some(64))
        .check(here())
        .expect("the run was measured");
    assert_eq!(crossed.len(), 2);
    assert_eq!(crossed[0].assertion, "bench-max-allocs");
    assert_eq!(crossed[0].render(), "get allocates little: got 1 allocations per iteration, want 0, iterations 1000");
    assert!(crossed[0].render().contains("1 allocations per iteration"));
    assert!(crossed[1].render().contains("64 bytes per iteration"), "{}", crossed[1].render());
    assert_eq!(crossed[1].assertion, "bench-max-bytes");

    let within = Contract::new("get allocates little")
        .max_allocs(4)
        .measured(1_000, vec![1; 1_000], Some(1), Some(64))
        .check(here());
    assert_eq!(within, Ok(vec![]));

    let uncounted = Contract::new("get allocates little")
        .max_bytes(8)
        .measured(10, vec![1; 10], None, None)
        .check(here())
        .expect("the run was measured");
    assert_eq!(uncounted[0].assertion, "bench-max-bytes");
    assert!(uncounted[0].render().contains("CountingAllocator"), "{}", uncounted[0].render());
}

#[test]
fn the_p99_is_the_slowest_of_few_samples_and_a_percentile_of_many() {
    assert_eq!(percentile(&vec![]), 0);
    assert_eq!(percentile(&sort_samples(&vec![3, 9, 1])), 9);
    let many: Vec<u128> = (1..=200).collect();
    assert_eq!(percentile(&many), 198);
    let hundred: Vec<u128> = (1..=100).collect();
    assert_eq!(percentile(&hundred), 99);
    assert_eq!(sort_samples(&vec![5, 1, 4, 1]), vec![1, 1, 4, 5]);
}

#[test]
fn the_mean_rounds_down_to_the_nanosecond() {
    assert_eq!(mean(&vec![]), 0);
    assert_eq!(mean(&vec![1, 2]), 1);
    assert_eq!(mean(&vec![10, 20, 31]), 20);
}

#[test]
fn what_each_iteration_allocated_needs_a_counter_and_a_run() {
    assert_eq!(per_iteration(true, 10, 110, 25), Some(4));
    assert_eq!(per_iteration(false, 10, 110, 25), None);
    assert_eq!(per_iteration(true, 10, 110, 0), None);
    assert_eq!(CountingAllocator::grown_by(8, 24), 16);
    assert_eq!(CountingAllocator::grown_by(24, 8), 0);
}

#[test]
fn a_long_run_sorts_quickly_and_keeps_every_sample() {
    let samples: Vec<u128> = (0..200_000u128).map(|n| (n * 7_919) % 100_003).collect();
    let sorted = sort_samples(&samples);
    assert_eq!(sorted.len(), samples.len());
    assert!(sorted.windows(2).all(|pair| pair[0] <= pair[1]));
    let mut expected = samples.clone();
    expected.sort_unstable();
    assert_eq!(sorted, expected);
}

#[test]
fn the_mean_divides_by_the_count_of_samples() {
    let held = Contract::new("get stays quick")
        .max_mean(10)
        .measured(4, vec![10, 10, 11, 12], None, None)
        .check(here())
        .expect("the run was measured");
    assert_eq!(held.len(), 0, "the mean is 43 / 4, which rounds down to 10");
}
