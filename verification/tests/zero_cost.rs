use rust_demos::clock::{add_nanos, bump_tick, period_reached, report_nanos, saturate_nanos};
use rust_demos::demos::d03_zero_cost::{
    bench_sum_fits, iterator_code_lines, loop_code_lines,
    run_iterator_bench, run_loop_bench, BenchPhase, ZeroCostDemo, HISTORY_LEN,
};
use std::time::Duration;

#[test]
fn test_run_iterator_bench_correctness() {
    let (result, ns) = run_iterator_bench(100);
    // sum of squares of even numbers 0..100: 0+4+16+...+9604
    let expected: u64 = (0u64..100)
        .filter(|x| x.is_multiple_of(2))
        .map(|x| x * x)
        .sum();
    assert_eq!(result, expected);
    assert!(ns >= 1);
}

#[test]
fn test_run_loop_bench_correctness() {
    let (result, ns) = run_loop_bench(100);
    let expected: u64 = (0u64..100)
        .filter(|x| x.is_multiple_of(2))
        .map(|x| x * x)
        .sum();
    assert_eq!(result, expected);
    assert!(ns >= 1);
}

#[test]
fn test_iter_and_loop_results_match() {
    let (ir, _) = run_iterator_bench(500);
    let (lr, _) = run_loop_bench(500);
    assert_eq!(ir, lr);
}

#[test]
fn test_new_runs_bench() {
    let d = ZeroCostDemo::new();
    assert_eq!(d.run_count, 1);
    assert!(d.results_match());
}

#[test]
fn test_is_paused_initially_false() {
    assert!(!ZeroCostDemo::new().is_paused());
}

#[test]
fn test_toggle_pause() {
    let mut d = ZeroCostDemo::new();
    d.toggle_pause();
    assert!(d.is_paused());
    d.toggle_pause();
    assert!(!d.is_paused());
}

#[test]
fn test_set_speed_clamp() {
    let mut d = ZeroCostDemo::new();
    d.set_speed(0);
    assert_eq!(d.speed(), 1);
    d.set_speed(100);
    assert_eq!(d.speed(), 10);
    d.set_speed(5);
    assert_eq!(d.speed(), 5);
}

#[test]
fn test_reset() {
    let mut d = ZeroCostDemo::new();
    d.tick_count = 100;
    d.reset();
    assert_eq!(d.tick_count, 0);
    assert_eq!(d.bench_n, 1_000);
    assert!(d.results_match());
}

#[test]
fn test_tick_paused_no_change() {
    let mut d = ZeroCostDemo::new();
    let count = d.run_count;
    d.paused = true;
    d.tick(Duration::from_secs(100));
    assert_eq!(d.run_count, count);
}

#[test]
fn test_bench_phases() {
    let mut d = ZeroCostDemo::new();
    assert_eq!(d.phase, BenchPhase::Running);
    let speed = d.speed;
    let period = 3.0 / speed as f64;
    d.tick(Duration::from_secs_f64(period + 0.1));
    // After period, should have switched to Displaying
    assert_eq!(d.phase, BenchPhase::Displaying);
    d.tick(Duration::from_secs_f64(period + 0.1));
    assert_eq!(d.phase, BenchPhase::Running);
}

#[test]
fn test_cycle_n() {
    let mut d = ZeroCostDemo::new();
    d.bench_n = 100;
    d.cycle_n();
    assert_eq!(d.bench_n, 1_000);
    d.cycle_n();
    assert_eq!(d.bench_n, 10_000);
    d.cycle_n();
    assert_eq!(d.bench_n, 100);
}

#[test]
fn test_name_description_explanation() {
    let d = ZeroCostDemo::new();
    assert_eq!(d.name(), "Zero-Cost Abstractions");
    assert!(!d.description().is_empty());
    assert!(!d.explanation().is_empty());
}

#[test]
fn test_default() {
    let d = ZeroCostDemo::default();
    assert_eq!(d.run_count, 1);
}

#[test]
fn test_ns_history_builds_up() {
    let mut d = ZeroCostDemo::new();
    assert_eq!(d.ns_history_iter.len(), 1); // new() calls run_bench once
    d.run_bench();
    assert_eq!(d.ns_history_iter.len(), 2);
}

// ---------------------------------------------------------------------------
// Further cases
// ---------------------------------------------------------------------------

#[test]
fn iterator_and_loop_agree_on_many_sizes() {
    for n in [0u64, 1, 2, 3, 7, 10, 99, 100, 1000, 10000] {
        assert_eq!(run_iterator_bench(n).0, run_loop_bench(n).0);
    }
}

#[test]
fn bench_sums_exact_values() {
    // 0 + 4 + 16 + 36 + 64
    assert_eq!(run_loop_bench(10).0, 120);
    assert_eq!(run_iterator_bench(10).0, 120);
    assert_eq!(run_iterator_bench(0).0, 0);
    assert_eq!(run_loop_bench(1).0, 0);
    assert_eq!(run_loop_bench(3).0, 4);
    // 4 * (0^2 + 1^2 + ... + 4999^2)
    assert_eq!(run_loop_bench(10000).0, 166_616_670_000);
}

#[test]
fn history_keeps_at_most_thirty_runs() {
    let mut d = ZeroCostDemo::new();
    for _ in 0..40 {
        d.run_bench();
    }
    assert_eq!(d.run_count, 41);
    assert_eq!(d.ns_history_iter.len(), HISTORY_LEN);
    assert_eq!(d.ns_history_loop.len(), HISTORY_LEN);
    assert_eq!(*d.ns_history_iter.last().unwrap(), d.iter_ns);
    assert_eq!(*d.ns_history_loop.last().unwrap(), d.loop_ns);
}

#[test]
fn reset_matches_a_fresh_demo_but_keeps_speed() {
    let mut d = ZeroCostDemo::new();
    d.set_speed(7);
    d.bench_n = 100;
    d.phase = BenchPhase::Displaying;
    d.phase_timer_ns = 5;
    d.paused = true;
    for _ in 0..3 {
        d.run_bench();
    }
    d.reset();
    assert_eq!(d.speed(), 7);
    assert!(!d.is_paused());
    assert_eq!(d.phase, BenchPhase::Running);
    assert_eq!(d.phase_timer_ns, 0);
    assert_eq!(d.run_count, 1);
    assert_eq!(d.bench_n, 1000);
    assert_eq!(d.ns_history_iter, vec![d.iter_ns]);
    assert_eq!(d.ns_history_loop, vec![d.loop_ns]);
    assert_eq!(d.iter_result, run_loop_bench(1000).0);
}

#[test]
fn bench_sizes_cycle_every_three() {
    let mut d = ZeroCostDemo::new();
    for start in [100u64, 1000, 10000] {
        d.bench_n = start;
        d.cycle_n();
        d.cycle_n();
        d.cycle_n();
        assert_eq!(d.bench_n, start);
    }
    d.bench_n = 7;
    d.cycle_n();
    assert_eq!(d.bench_n, 100);
}

#[test]
fn tick_before_period_only_counts() {
    let mut d = ZeroCostDemo::new();
    d.set_speed(3);
    d.tick_nanos(999_999_999);
    assert_eq!(d.phase, BenchPhase::Running);
    assert_eq!(d.tick_count, 1);
    assert_eq!(d.phase_timer_ns, 999_999_999);
    assert_eq!(d.run_count, 1);
    d.tick_nanos(1);
    assert_eq!(d.phase, BenchPhase::Displaying);
    assert_eq!(d.phase_timer_ns, 0);
    assert_eq!(d.run_count, 2);
    assert!(d.results_match());
}

#[test]
fn tick_count_wraps() {
    let mut d = ZeroCostDemo::new();
    d.tick_count = u64::MAX;
    d.tick_nanos(0);
    assert_eq!(d.tick_count, 0);
}

#[test]
fn toggling_twice_restores_pause_flag() {
    let mut d = ZeroCostDemo::new();
    let before = d.is_paused();
    d.toggle_pause();
    d.toggle_pause();
    assert_eq!(d.is_paused(), before);
}

#[test]
fn zero_cost_quiz_answer() {
    let d = ZeroCostDemo::new();
    let (question, answers, right) = d.quiz().unwrap();
    assert_eq!(question, "What does 'zero-cost abstraction' mean in Rust?");
    assert_eq!(answers[right], "High-level code compiles to optimal assembly");
}

#[test]
fn clock_helpers_exact_values() {
    assert_eq!(report_nanos(0), 1);
    assert_eq!(report_nanos(5), 5);
    assert_eq!(report_nanos(1u128 << 64), 1);
    assert_eq!(report_nanos((1u128 << 64) + 9), 9);
    assert_eq!(saturate_nanos(42), 42);
    assert_eq!(saturate_nanos(u128::MAX), u64::MAX);
    assert_eq!(add_nanos(2, 3), 5);
    assert_eq!(add_nanos(u64::MAX - 1, 5), u64::MAX);
    assert_eq!(bump_tick(4), 5);
    assert_eq!(bump_tick(u64::MAX), 0);
    assert!(period_reached(1_000_000_000, 3, 3_000_000_000));
    assert!(!period_reached(999_999_999, 3, 3_000_000_000));
    assert!(!period_reached(u64::MAX, 0, 1));
}

#[test]
fn measured_times_are_positive() {
    let d = ZeroCostDemo::new();
    assert!(d.iter_ns >= 1);
    assert!(d.loop_ns >= 1);
    assert_eq!(d.ns_history_iter, vec![d.iter_ns]);
}

#[test]
fn bench_sum_fits_exactly_where_the_sum_fits() {
    assert!(bench_sum_fits(0));
    assert!(bench_sum_fits(10000));
    assert!(bench_sum_fits(1_000_000));
    assert!(!bench_sum_fits(u64::MAX));
    assert!(!bench_sum_fits(10_000_000));
}

#[test]
fn view_values_of_the_zero_cost_pane() {
    let mut d = ZeroCostDemo::new();
    assert_eq!(d.title_status(), "● Running benchmark…  ");
    d.phase = BenchPhase::Displaying;
    assert_eq!(d.title_status(), "✓ Complete — next: ");
    assert_eq!(d.match_label(), "✓ match");
    d.loop_result += 1;
    assert_eq!(d.match_label(), "✗ mismatch");
    d.iter_ns = 0;
    d.loop_ns = 0;
    assert_eq!(d.bar_max(), 1);
    d.iter_ns = 70;
    d.loop_ns = 40;
    assert_eq!(d.bar_max(), 70);
    d.ns_history_iter = vec![3, 9, 2];
    d.ns_history_loop = vec![4, 12];
    assert_eq!(d.history_max(), 12);
    d.ns_history_iter.clear();
    d.ns_history_loop.clear();
    assert_eq!(d.history_max(), 1);
    assert_eq!(iterator_code_lines(), vec!["(0..n).filter(|x| x%2==0)", "    .map(|x| x*x).sum()"]);
    assert_eq!(loop_code_lines().len(), 3);
}

#[test]
fn try_tick_refuses_an_overflowing_run() {
    let mut d = ZeroCostDemo::new();
    d.run_count = u64::MAX;
    assert!(!d.try_tick(Duration::from_secs(4)));
    assert_eq!(d.tick_count, 0);
    assert_eq!(d.phase, BenchPhase::Running);
    // a tick that does not end the phase runs nothing and goes through
    assert!(d.try_tick(Duration::from_secs(1)));
    assert_eq!(d.tick_count, 1);
    assert!(!d.tick_runs_bench(1));
    assert!(d.tick_runs_bench(2_000_000_000));
}
