//! Zero-cost abstractions: an iterator chain and a hand-written loop compute
//! the same sum of squares, and the demo alternates between running both
//! and showing their results.

use crate::clock;
use std::time::Duration;
use vstd::prelude::*;

verus! {

// ---------------------------------------------------------------------------
// The benchmarked computation
// ---------------------------------------------------------------------------

/// The numbers `0, 1, ..., n - 1`.
pub open spec fn range_seq(n: nat) -> Seq<int> {
    Seq::new(n, |i: int| i)
}

/// The filter of the iterator chain: `|x| x % 2 == 0`.
pub open spec fn keep_even() -> spec_fn(int) -> bool {
    |x: int| x % 2 == 0
}

/// The map of the iterator chain: `|x| x * x`.
pub open spec fn square() -> spec_fn(int) -> int {
    |x: int| x * x
}

/// The fold behind `sum()`.
pub open spec fn plus() -> spec_fn(int, int) -> int {
    |acc: int, v: int| acc + v
}

/// What `(0..n).filter(|x| x % 2 == 0).map(|x| x * x).sum()` denotes.
pub open spec fn spec_iterator_sum(n: nat) -> int {
    range_seq(n).filter(keep_even()).map_values(square()).fold_left(0, plus())
}

/// What the manual loop accumulates: `x * x` for every even `x < n`.
pub open spec fn spec_loop_sum(n: nat) -> int
    decreases n,
{
    if n == 0 {
        0
    } else {
        let x = n - 1;
        spec_loop_sum((n - 1) as nat) + if x % 2 == 0 {
            x * x
        } else {
            0
        }
    }
}

proof fn lemma_iterator_sum_step(n: nat)
    ensures
        spec_iterator_sum(n + 1) == spec_iterator_sum(n) + if n % 2 == 0 {
            n * n
        } else {
            0
        },
{
    let s1 = range_seq(n + 1);
    let s0 = range_seq(n);
    assert(s1.drop_last() =~= s0);
    assert(s1.last() == n);
    reveal_with_fuel(Seq::<_>::filter, 1);
    let f0 = s0.filter(keep_even());
    let m0 = f0.map_values(square());
    if n % 2 == 0 {
        assert(s1.filter(keep_even()) == f0.push(n as int));
        assert(f0.push(n as int).map_values(square()) =~= m0.push((n * n) as int));
        assert(m0.push((n * n) as int).drop_last() =~= m0);
    } else {
        assert(s1.filter(keep_even()) == f0);
    }
}

/// The iterator chain and the manual loop denote the same number, for every `n`.
pub proof fn lemma_iterator_equals_loop(n: nat)
    ensures
        spec_iterator_sum(n) == spec_loop_sum(n),
    decreases n,
{
    if n == 0 {
        reveal_with_fuel(Seq::<_>::filter, 1);
        assert(range_seq(0).filter(keep_even()).map_values(square()) =~= Seq::<int>::empty());
    } else {
        lemma_iterator_equals_loop((n - 1) as nat);
        lemma_iterator_sum_step((n - 1) as nat);
    }
}

/// The loop sum is never negative.
proof fn lemma_loop_sum_nonneg(n: nat)
    ensures
        spec_loop_sum(n) >= 0,
    decreases n,
{
    if n > 0 {
        lemma_loop_sum_nonneg((n - 1) as nat);
        let x = n - 1;
        assert(x * x >= 0) by (nonlinear_arith);
    }
}

/// The loop sum never decreases as `n` grows.
pub proof fn lemma_loop_sum_monotone(a: nat, b: nat)
    requires
        a <= b,
    ensures
        0 <= spec_loop_sum(a) <= spec_loop_sum(b),
    decreases b,
{
    lemma_loop_sum_nonneg(a);
    if a < b {
        lemma_loop_sum_monotone(a, (b - 1) as nat);
        let x = b - 1;
        assert(x * x >= 0) by (nonlinear_arith);
    }
}

/// Every term is below `n * n` and there are fewer than `n` of them.
proof fn lemma_loop_sum_cubic_bound(n: nat)
    ensures
        spec_loop_sum(n) <= n * n * n,
    decreases n,
{
    if n > 0 {
        let m = (n - 1) as nat;
        lemma_loop_sum_cubic_bound(m);
        assert(m * m * m + m * m <= n * n * n) by (nonlinear_arith)
            requires
                n == m + 1,
        ;
        assert(m * m >= 0) by (nonlinear_arith);
    }
}

/// The sums for the three benchmark sizes the demo cycles through fit in a `u64`.
pub proof fn lemma_cycle_sizes_fit(n: u64)
    requires
        n == 100 || n == 1000 || n == 10000,
    ensures
        spec_loop_sum(n as nat) <= u64::MAX,
{
    lemma_loop_sum_cubic_bound(n as nat);
    assert(n * n * n <= 10000 * 10000 * 10000) by (nonlinear_arith)
        requires
            n <= 10000,
    ;
}

/// Whether the benchmark sum for `n` fits in a `u64`, i.e. whether both
/// benchmarks can run on `n` without overflowing.
pub fn bench_sum_fits(n: u64) -> (r: bool)
    ensures
        r == (spec_loop_sum(n as nat) <= u64::MAX),
{
    let mut sum: u64 = 0;
    for x in 0..n
        invariant
            sum == spec_loop_sum(x as nat),
    {
        proof {
            lemma_loop_sum_monotone((x + 1) as nat, n as nat);
            lemma_loop_sum_nonneg(x as nat);
            assert(x * x >= 0) by (nonlinear_arith);
        }
        if x % 2 == 0 {
            match x.checked_mul(x) {
                None => {
                    return false;
                },
                Some(sq) => match sum.checked_add(sq) {
                    None => {
                        return false;
                    },
                    Some(next) => {
                        sum = next;
                    },
                },
            }
        }
    }
    true
}

/// Iterator approach: sums the squares of the even numbers below `n`,
/// returning that sum and the nanoseconds it took (at least one).
pub fn run_iterator_bench(n: u64) -> (r: (u64, u64))
    requires
        spec_iterator_sum(n as nat) <= u64::MAX,
    ensures
        r.0 == spec_iterator_sum(n as nat),
        r.1 >= 1,
{
    proof {
        lemma_iterator_equals_loop(n as nat);
    }
    let start = clock::instant_now();
    let mut sum: u64 = 0;
    for x in 0..n
        invariant
            sum == spec_iterator_sum(x as nat),
            spec_loop_sum(n as nat) <= u64::MAX,
            spec_iterator_sum(n as nat) == spec_loop_sum(n as nat),
    {
        proof {
            lemma_iterator_sum_step(x as nat);
            lemma_iterator_equals_loop((x + 1) as nat);
            lemma_loop_sum_monotone((x + 1) as nat, n as nat);
            lemma_loop_sum_nonneg(x as nat);
            lemma_iterator_equals_loop(x as nat);
        }
        // filter: keep the even numbers
        let keep = x % 2 == 0;
        if keep {
            // map: square, then sum
            proof {
                assert(x * x >= 0) by (nonlinear_arith);
            }
            let squared = x * x;
            sum = sum + squared;
        }
    }
    let ns = clock::nanos_since(&start);
    (sum, ns)
}

/// Manual loop: the same sum as `run_iterator_bench`, written as a `for` loop
/// with an `if`, returning the sum and the nanoseconds it took (at least one).
pub fn run_loop_bench(n: u64) -> (r: (u64, u64))
    requires
        spec_loop_sum(n as nat) <= u64::MAX,
    ensures
        r.0 == spec_loop_sum(n as nat),
        r.1 >= 1,
{
    let start = clock::instant_now();
    let mut sum: u64 = 0;
    for x in 0..n
        invariant
            sum == spec_loop_sum(x as nat),
            spec_loop_sum(n as nat) <= u64::MAX,
    {
        proof {
            lemma_loop_sum_monotone((x + 1) as nat, n as nat);
            lemma_loop_sum_nonneg(x as nat);
        }
        if x % 2 == 0 {
            proof {
                assert(x * x >= 0) by (nonlinear_arith);
            }
            sum = sum + x * x;
        }
    }
    let ns = clock::nanos_since(&start);
    (sum, ns)
}

pub open spec fn iterator_code_text() -> Seq<Seq<char>> {
    seq![
        "(0..n).filter(|x| x%2==0)"@,
        "    .map(|x| x*x).sum()"@,
    ]
}

/// The iterator chain as the demo shows it.
pub fn iterator_code_lines() -> (r: Vec<&'static str>)
    ensures
        r@.map_values(|s: &'static str| s@) == iterator_code_text(),
{
    let r = vec![
        "(0..n).filter(|x| x%2==0)",
        "    .map(|x| x*x).sum()",
    ];
    assert(r@.map_values(|s: &'static str| s@) =~= iterator_code_text());
    r
}

pub open spec fn loop_code_text() -> Seq<Seq<char>> {
    seq![
        "let mut sum = 0;"@,
        "for x in 0..n {"@,
        "  if x%2==0 { sum+=x*x; }"@,
    ]
}

/// The manual loop as the demo shows it.
pub fn loop_code_lines() -> (r: Vec<&'static str>)
    ensures
        r@.map_values(|s: &'static str| s@) == loop_code_text(),
{
    let r = vec![
        "let mut sum = 0;",
        "for x in 0..n {",
        "  if x%2==0 { sum+=x*x; }",
    ];
    assert(r@.map_values(|s: &'static str| s@) =~= loop_code_text());
    r
}

/// The largest value in `s`, or `floor` when `floor` is larger (or `s` is
/// empty).
pub open spec fn seq_max_from(s: Seq<u64>, floor: u64) -> u64
    decreases s.len(),
{
    if s.len() == 0 {
        floor
    } else {
        let rest = seq_max_from(s.drop_last(), floor);
        if s.last() > rest {
            s.last()
        } else {
            rest
        }
    }
}

proof fn lemma_seq_max_from(s: Seq<u64>, floor: u64)
    ensures
        seq_max_from(s, floor) >= floor,
        forall|i: int| 0 <= i < s.len() ==> s[i] <= seq_max_from(s, floor),
        seq_max_from(s, floor) == floor || exists|i: int|
            0 <= i < s.len() && s[i] == seq_max_from(s, floor),
    decreases s.len(),
{
    if s.len() > 0 {
        lemma_seq_max_from(s.drop_last(), floor);
        let rest = seq_max_from(s.drop_last(), floor);
        assert forall|i: int| 0 <= i < s.len() implies s[i] <= seq_max_from(s, floor) by {
            if i < s.len() - 1 {
                assert(s[i] == s.drop_last()[i]);
            }
        }
        if rest != floor && s.last() <= rest {
            let k = choose|k: int| 0 <= k < s.drop_last().len() && s.drop_last()[k] == rest;
            assert(s[k] == rest);
        }
        if s.last() > rest {
            assert(s[s.len() - 1] == s.last());
        }
    }
}

fn vec_max_from(v: &Vec<u64>, floor: u64) -> (r: u64)
    ensures
        r == seq_max_from(v@, floor),
{
    let mut m = floor;
    for i in 0..v.len()
        invariant
            m == seq_max_from(v@.take(i as int), floor),
    {
        assert(v@.take(i + 1).drop_last() =~= v@.take(i as int));
        assert(v@.take(i + 1).last() == v@[i as int]);
        if v[i] > m {
            m = v[i];
        }
    }
    assert(v@.take(v@.len() as int) =~= v@);
    m
}

// ---------------------------------------------------------------------------
// The demo state machine
// ---------------------------------------------------------------------------

/// How many past timings each history keeps.
pub const HISTORY_LEN: usize = 30;

/// The phase period at speed 1, in nanoseconds (three seconds); at speed `s`
/// a phase lasts `PHASE_PERIOD_NS / s` nanoseconds.
pub const PHASE_PERIOD_NS: u64 = 3_000_000_000;

/// The benchmark size a fresh or reset demo starts with.
pub const INITIAL_BENCH_N: u64 = 1000;

/// Whether the demo is about to run the benchmark or is showing its results.
#[derive(Debug, Clone, Copy, PartialEq, Eq, Structural)]
pub enum BenchPhase {
    Running,
    Displaying,
}

/// The zero-cost demo: the benchmark results, their timings and the
/// animation state.
#[derive(Debug)]
pub struct ZeroCostDemo {
    pub paused: bool,
    pub speed: u8,
    pub tick_count: u64,
    pub phase: BenchPhase,
    /// Time spent in the current phase, in nanoseconds.
    pub phase_timer_ns: u64,
    pub bench_n: u64,
    pub iter_ns: u64,
    pub loop_ns: u64,
    pub iter_result: u64,
    pub loop_result: u64,
    pub run_count: u64,
    pub ns_history_iter: Vec<u64>,
    pub ns_history_loop: Vec<u64>,
}

/// The mathematical state of a `ZeroCostDemo`: its fields, with the timing
/// histories as sequences.
pub struct ZeroCostState {
    pub paused: bool,
    pub speed: u8,
    pub tick_count: u64,
    pub phase: BenchPhase,
    pub phase_timer_ns: u64,
    pub bench_n: u64,
    pub iter_ns: u64,
    pub loop_ns: u64,
    pub iter_result: u64,
    pub loop_result: u64,
    pub run_count: u64,
    pub ns_history_iter: Seq<u64>,
    pub ns_history_loop: Seq<u64>,
}

impl View for ZeroCostDemo {
    type V = ZeroCostState;

    open spec fn view(&self) -> ZeroCostState {
        ZeroCostState {
            paused: self.paused,
            speed: self.speed,
            tick_count: self.tick_count,
            phase: self.phase,
            phase_timer_ns: self.phase_timer_ns,
            bench_n: self.bench_n,
            iter_ns: self.iter_ns,
            loop_ns: self.loop_ns,
            iter_result: self.iter_result,
            loop_result: self.loop_result,
            run_count: self.run_count,
            ns_history_iter: self.ns_history_iter@,
            ns_history_loop: self.ns_history_loop@,
        }
    }
}

/// Appends a timing and drops the oldest one when more than
/// `HISTORY_LEN` would be kept.
pub open spec fn capped_push(history: Seq<u64>, v: u64) -> Seq<u64> {
    if history.len() + 1 > HISTORY_LEN {
        history.push(v).drop_first()
    } else {
        history.push(v)
    }
}

/// The benchmark size after `n`: 100, 1000 and 10000 in turn; any other
/// size goes back to 100.
pub open spec fn next_bench_n(n: u64) -> u64 {
    if n == 100 {
        1000
    } else if n == 1000 {
        10000
    } else {
        100
    }
}

/// `speed` clamped to the range `1..=10`.
pub open spec fn clamp_speed(speed: u8) -> u8 {
    if speed < 1 {
        1
    } else if speed > 10 {
        10
    } else {
        speed
    }
}

impl ZeroCostState {
    /// The state kept by every operation: a speed in `1..=10` and two
    /// histories of equal length, at most `HISTORY_LEN` each.
    pub open spec fn wf(self) -> bool {
        &&& 1 <= self.speed <= 10
        &&& self.ns_history_iter.len() <= HISTORY_LEN
        &&& self.ns_history_iter.len() == self.ns_history_loop.len()
    }

    /// Both approaches produced the same result, and at least one run happened.
    pub open spec fn results_match(self) -> bool {
        self.iter_result == self.loop_result && self.run_count > 0
    }

    /// A benchmark run neither overflows its sum nor the run counter.
    pub open spec fn can_run(self) -> bool {
        spec_loop_sum(self.bench_n as nat) <= u64::MAX && self.run_count < u64::MAX
    }

    /// The state of a demo that has not run anything yet.
    pub open spec fn fresh() -> ZeroCostState {
        ZeroCostState {
            paused: false,
            speed: 1,
            tick_count: 0,
            phase: BenchPhase::Running,
            phase_timer_ns: 0,
            bench_n: INITIAL_BENCH_N,
            iter_ns: 0,
            loop_ns: 0,
            iter_result: 0,
            loop_result: 0,
            run_count: 0,
            ns_history_iter: Seq::empty(),
            ns_history_loop: Seq::empty(),
        }
    }

    /// The state after running both benchmarks on `bench_n`, which took
    /// `ins` and `lns` nanoseconds.
    pub open spec fn after_run(self, ins: u64, lns: u64) -> ZeroCostState {
        ZeroCostState {
            iter_result: spec_iterator_sum(self.bench_n as nat) as u64,
            iter_ns: ins,
            loop_result: spec_loop_sum(self.bench_n as nat) as u64,
            loop_ns: lns,
            run_count: (self.run_count + 1) as u64,
            ns_history_iter: capped_push(self.ns_history_iter, ins),
            ns_history_loop: capped_push(self.ns_history_loop, lns),
            ..self
        }
    }

    /// The state after the benchmark size moves on.
    pub open spec fn after_cycle(self) -> ZeroCostState {
        ZeroCostState { bench_n: next_bench_n(self.bench_n), ..self }
    }

    /// Whether a tick of `dt_ns` nanoseconds ends a running phase, and so
    /// runs the benchmark.
    pub open spec fn tick_runs_bench(self, dt_ns: u64) -> bool {
        &&& !self.paused
        &&& self.phase == BenchPhase::Running
        &&& clock::reached(clock::add_sat(self.phase_timer_ns, dt_ns), self.speed, PHASE_PERIOD_NS)
    }

    /// Whether a tick of `dt_ns` nanoseconds ends the current phase: the
    /// demo is not paused and the phase has then lasted at least
    /// `PHASE_PERIOD_NS / speed` nanoseconds.
    pub open spec fn phase_ends(self, dt_ns: u64) -> bool {
        !self.paused && clock::reached(
            clock::add_sat(self.phase_timer_ns, dt_ns),
            self.speed,
            PHASE_PERIOD_NS,
        )
    }

    /// The state after `dt_ns` nanoseconds pass; a benchmark run during the
    /// tick took `ins` and `lns` nanoseconds.
    pub open spec fn after_tick(self, dt_ns: u64, ins: u64, lns: u64) -> ZeroCostState {
        if self.paused {
            self
        } else {
            let counted = ZeroCostState {
                tick_count: clock::next_tick(self.tick_count),
                phase_timer_ns: clock::add_sat(self.phase_timer_ns, dt_ns),
                ..self
            };
            if clock::reached(counted.phase_timer_ns, counted.speed, PHASE_PERIOD_NS) {
                let restarted = ZeroCostState { phase_timer_ns: 0, ..counted };
                match restarted.phase {
                    BenchPhase::Running => ZeroCostState {
                        phase: BenchPhase::Displaying,
                        ..restarted.after_run(ins, lns)
                    },
                    BenchPhase::Displaying => ZeroCostState {
                        phase: BenchPhase::Running,
                        ..restarted.after_cycle()
                    },
                }
            } else {
                counted
            }
        }
    }

    /// The state after a reset: counters, phase, size and histories start
    /// over, the benchmark runs once (taking `ins` and `lns` nanoseconds),
    /// and the demo is unpaused; the speed is kept.
    pub open spec fn after_reset(self, ins: u64, lns: u64) -> ZeroCostState {
        ZeroCostState {
            paused: false,
            tick_count: 0,
            phase: BenchPhase::Running,
            phase_timer_ns: 0,
            run_count: 0,
            bench_n: INITIAL_BENCH_N,
            ns_history_iter: Seq::empty(),
            ns_history_loop: Seq::empty(),
            ..self
        }.after_run(ins, lns)
    }

    /// The state with the pause flag flipped.
    pub open spec fn after_toggle_pause(self) -> ZeroCostState {
        ZeroCostState { paused: !self.paused, ..self }
    }

    /// The state with a new speed, clamped to `1..=10`.
    pub open spec fn with_speed(self, speed: u8) -> ZeroCostState {
        ZeroCostState { speed: clamp_speed(speed), ..self }
    }
}

// ---------------------------------------------------------------------------
// Laws of the state machine
// ---------------------------------------------------------------------------

/// After any benchmark run, the iterator result and the loop result agree.
pub proof fn lemma_run_results_match(s: ZeroCostState, ins: u64, lns: u64)
    requires
        s.can_run(),
    ensures
        s.after_run(ins, lns).results_match(),
{
    lemma_iterator_equals_loop(s.bench_n as nat);
    lemma_loop_sum_nonneg(s.bench_n as nat);
}

/// A benchmark run keeps the state well formed.
pub proof fn lemma_run_preserves_wf(s: ZeroCostState, ins: u64, lns: u64)
    requires
        s.wf(),
    ensures
        s.after_run(ins, lns).wf(),
{
}

/// A tick keeps the state well formed.
pub proof fn lemma_tick_preserves_wf(s: ZeroCostState, dt_ns: u64, ins: u64, lns: u64)
    requires
        s.wf(),
    ensures
        s.after_tick(dt_ns, ins, lns).wf(),
{
}

/// What a tick does. Paused, nothing changes. Otherwise the tick counter
/// moves on; if the phase does not end, phase, size and run count stay and
/// the phase timer grows by `dt_ns` (saturating). If a running phase ends,
/// the benchmark runs once on the same size (both sums recorded, the run
/// counted) and the demo turns to displaying; if a displaying phase ends, the
/// size moves on (100 to 1000, 1000 to 10000, anything else to 100) and the
/// demo turns to running. Either way the phase timer restarts.
pub proof fn lemma_tick_phase_transitions(s: ZeroCostState, dt_ns: u64, ins: u64, lns: u64)
    ensures
        s.paused ==> s.after_tick(dt_ns, ins, lns) == s,
        !s.paused ==> s.after_tick(dt_ns, ins, lns).tick_count == (if s.tick_count == u64::MAX {
            0
        } else {
            s.tick_count + 1
        }),
        !s.paused && !s.phase_ends(dt_ns) ==> {
            let r = s.after_tick(dt_ns, ins, lns);
            &&& r.phase == s.phase
            &&& r.bench_n == s.bench_n
            &&& r.run_count == s.run_count
            &&& r.phase_timer_ns == (if s.phase_timer_ns + dt_ns > u64::MAX {
                u64::MAX as int
            } else {
                s.phase_timer_ns + dt_ns
            })
        },
        s.phase_ends(dt_ns) && s.phase == BenchPhase::Running && s.can_run() ==> {
            let r = s.after_tick(dt_ns, ins, lns);
            &&& r.phase == BenchPhase::Displaying
            &&& r.phase_timer_ns == 0
            &&& r.bench_n == s.bench_n
            &&& r.run_count == s.run_count + 1
            &&& r.iter_result == spec_loop_sum(s.bench_n as nat)
            &&& r.loop_result == spec_loop_sum(s.bench_n as nat)
            &&& r.iter_ns == ins
            &&& r.loop_ns == lns
        },
        s.phase_ends(dt_ns) && s.phase == BenchPhase::Displaying ==> {
            let r = s.after_tick(dt_ns, ins, lns);
            &&& r.phase == BenchPhase::Running
            &&& r.phase_timer_ns == 0
            &&& r.bench_n == (if s.bench_n == 100 {
                1000u64
            } else if s.bench_n == 1000 {
                10000u64
            } else {
                100u64
            })
            &&& r.run_count == s.run_count
            &&& r.iter_result == s.iter_result
            &&& r.loop_result == s.loop_result
        },
{
    lemma_iterator_equals_loop(s.bench_n as nat);
    lemma_loop_sum_nonneg(s.bench_n as nat);
}

/// A paused demo ignores ticks.
pub proof fn lemma_paused_tick_changes_nothing(s: ZeroCostState, dt_ns: u64, ins: u64, lns: u64)
    requires
        s.paused,
    ensures
        s.after_tick(dt_ns, ins, lns) == s,
{
}

/// A reset leaves the demo as a freshly made one, except for its speed.
pub proof fn lemma_reset_is_fresh_but_speed(s: ZeroCostState, ins: u64, lns: u64)
    ensures
        s.after_reset(ins, lns) == (ZeroCostState {
            speed: s.speed,
            ..ZeroCostState::fresh().after_run(ins, lns)
        }),
{
}

/// The benchmark sizes cycle with period three: 100, 1000, 10000, 100, ...
pub proof fn lemma_bench_n_cycles_in_three(n: u64)
    requires
        n == 100 || n == 1000 || n == 10000,
    ensures
        next_bench_n(next_bench_n(next_bench_n(n))) == n,
        next_bench_n(n) == 100 || next_bench_n(n) == 1000 || next_bench_n(n) == 10000,
{
}

/// Toggling the pause twice restores the state.
pub proof fn lemma_toggle_pause_twice(s: ZeroCostState)
    ensures
        s.after_toggle_pause().after_toggle_pause() == s,
{
}

// ---------------------------------------------------------------------------
// Operations
// ---------------------------------------------------------------------------

impl ZeroCostDemo {
    /// A demo at speed 1, running, with `bench_n == 1000`, that has already
    /// run the benchmark once.
    pub fn new() -> (d: Self)
        ensures
            d@ == ZeroCostState::fresh().after_run(d.iter_ns, d.loop_ns),
            d.iter_ns >= 1,
            d.loop_ns >= 1,
            d@.wf(),
            d@.results_match(),
            d@.can_run(),
    {
        let mut d = ZeroCostDemo {
            paused: false,
            speed: 1,
            tick_count: 0,
            phase: BenchPhase::Running,
            phase_timer_ns: 0,
            bench_n: INITIAL_BENCH_N,
            iter_ns: 0,
            loop_ns: 0,
            iter_result: 0,
            loop_result: 0,
            run_count: 0,
            ns_history_iter: Vec::new(),
            ns_history_loop: Vec::new(),
        };
        proof {
            lemma_cycle_sizes_fit(INITIAL_BENCH_N);
        }
        d.run_bench();
        d
    }

    /// Runs both benchmarks on `bench_n`, records their results and
    /// timings, counts the run and appends the timings to the histories,
    /// keeping the last `HISTORY_LEN` of each.
    pub fn run_bench(&mut self)
        requires
            old(self)@.can_run(),
        ensures
            final(self)@ == old(self)@.after_run(final(self).iter_ns, final(self).loop_ns),
            final(self).iter_ns >= 1,
            final(self).loop_ns >= 1,
            final(self)@.results_match(),
            old(self)@.wf() ==> final(self)@.wf(),
    {
        proof {
            lemma_iterator_equals_loop(self.bench_n as nat);
        }
        let (ir, ins) = run_iterator_bench(self.bench_n);
        let (lr, lns) = run_loop_bench(self.bench_n);
        self.iter_result = ir;
        self.iter_ns = ins;
        self.loop_result = lr;
        self.loop_ns = lns;
        self.run_count = self.run_count + 1;
        let ghost hist_iter = self.ns_history_iter@.push(ins);
        let ghost hist_loop = self.ns_history_loop@.push(lns);
        self.ns_history_iter.push(ins);
        self.ns_history_loop.push(lns);
        if self.ns_history_iter.len() > HISTORY_LEN {
            self.ns_history_iter.remove(0);
            assert(self.ns_history_iter@ =~= hist_iter.drop_first());
        }
        if self.ns_history_loop.len() > HISTORY_LEN {
            self.ns_history_loop.remove(0);
            assert(self.ns_history_loop@ =~= hist_loop.drop_first());
        }
        proof {
            lemma_run_results_match(old(self)@, ins, lns);
        }
    }

    /// Moves the benchmark size on: 100 to 1000, 1000 to 10000, anything
    /// else to 100.
    pub fn cycle_n(&mut self)
        ensures
            final(self)@ == old(self)@.after_cycle(),
            spec_loop_sum(final(self).bench_n as nat) <= u64::MAX,
    {
        self.bench_n = if self.bench_n == 100 {
            1000
        } else if self.bench_n == 1000 {
            10000
        } else {
            100
        };
        proof {
            lemma_cycle_sizes_fit(self.bench_n);
        }
    }

    /// Whether both approaches produced the same result in at least one run.
    pub fn results_match(&self) -> (r: bool)
        ensures
            r == self@.results_match(),
    {
        self.iter_result == self.loop_result && self.run_count > 0
    }

    /// Lets `dt_ns` nanoseconds pass. Unless paused, the tick counter
    /// advances (wrapping) and the phase timer grows; once a phase has
    /// lasted `PHASE_PERIOD_NS / speed`, a running phase runs the benchmark
    /// and turns to displaying, and a displaying phase moves the size on and
    /// turns to running.
    pub fn tick_nanos(&mut self, dt_ns: u64)
        requires
            old(self)@.tick_runs_bench(dt_ns) ==> old(self)@.can_run(),
        ensures
            final(self)@ == old(self)@.after_tick(dt_ns, final(self).iter_ns, final(self).loop_ns),
            old(self)@.tick_runs_bench(dt_ns) ==> final(self).iter_ns >= 1 && final(self).loop_ns
                >= 1 && final(self)@.results_match(),
            old(self)@.wf() ==> final(self)@.wf(),
            old(self)@.phase_ends(dt_ns) && old(self).phase == BenchPhase::Running ==> final(self).phase == BenchPhase::Displaying && final(self).bench_n == old(self).bench_n
                && final(self).run_count == old(self).run_count + 1,
            old(self)@.phase_ends(dt_ns) && old(self).phase == BenchPhase::Displaying ==> final(self).phase == BenchPhase::Running && final(self).bench_n == (if old(self).bench_n == 100 {
                1000u64
            } else if old(self).bench_n == 1000 {
                10000u64
            } else {
                100u64
            }) && final(self).run_count == old(self).run_count,
            !old(self)@.phase_ends(dt_ns) ==> final(self).phase == old(self).phase && final(self).bench_n == old(self).bench_n && final(self).run_count == old(self).run_count,
    {
        proof {
            lemma_tick_phase_transitions(self@, dt_ns, 0, 0);
        }
        if self.paused {
            return;
        }
        self.tick_count = clock::bump_tick(self.tick_count);
        self.phase_timer_ns = clock::add_nanos(self.phase_timer_ns, dt_ns);
        if clock::period_reached(self.phase_timer_ns, self.speed, PHASE_PERIOD_NS) {
            self.phase_timer_ns = 0;
            match self.phase {
                BenchPhase::Running => {
                    self.run_bench();
                    self.phase = BenchPhase::Displaying;
                },
                BenchPhase::Displaying => {
                    self.cycle_n();
                    self.phase = BenchPhase::Running;
                },
            }
        }
        proof {
            if old(self)@.wf() {
                lemma_tick_preserves_wf(old(self)@, dt_ns, self.iter_ns, self.loop_ns);
            }
            lemma_tick_phase_transitions(old(self)@, dt_ns, self.iter_ns, self.loop_ns);
        }
    }

    /// Lets the time `dt` pass, as `tick_nanos` does with its length in
    /// nanoseconds (clamped to `u64::MAX`).
    pub fn tick(&mut self, dt: Duration)
        requires
            old(self)@.tick_runs_bench(clock::duration_length(dt)) ==> old(self)@.can_run(),
        ensures
            final(self)@ == old(self)@.after_tick(
                clock::duration_length(dt),
                final(self).iter_ns,
                final(self).loop_ns,
            ),
            old(self)@.tick_runs_bench(clock::duration_length(dt)) ==> final(self).iter_ns >= 1
                && final(self).loop_ns >= 1 && final(self)@.results_match(),
            old(self)@.wf() ==> final(self)@.wf(),
    {
        let dt_ns = clock::duration_nanos(&dt);
        self.tick_nanos(dt_ns);
    }

    /// Whether a tick of `dt_ns` nanoseconds would run the benchmark.
    pub fn tick_runs_bench(&self, dt_ns: u64) -> (r: bool)
        ensures
            r == self@.tick_runs_bench(dt_ns),
    {
        !self.paused && self.phase == BenchPhase::Running && clock::period_reached(
            clock::add_nanos(self.phase_timer_ns, dt_ns),
            self.speed,
            PHASE_PERIOD_NS,
        )
    }

    /// Lets the time `dt` pass, as `tick` does, where that cannot overflow:
    /// when the tick would run a benchmark whose sum or run count does not
    /// fit, nothing changes and the result is `false`.
    pub fn try_tick(&mut self, dt: Duration) -> (ticked: bool)
        ensures
            ticked == (old(self)@.tick_runs_bench(clock::duration_length(dt)) ==> old(self)@.can_run()),
            ticked ==> final(self)@ == old(self)@.after_tick(
                clock::duration_length(dt),
                final(self).iter_ns,
                final(self).loop_ns,
            ),
            !ticked ==> final(self)@ == old(self)@,
            old(self)@.wf() ==> final(self)@.wf(),
    {
        let dt_ns = clock::duration_nanos(&dt);
        if self.tick_runs_bench(dt_ns) && !(self.run_count < u64::MAX && bench_sum_fits(
            self.bench_n,
        )) {
            return false;
        }
        self.tick_nanos(dt_ns);
        true
    }

    /// The start of the title line: the benchmark is running, or it is done
    /// and the next size is shown.
    pub fn title_status(&self) -> (r: &'static str)
        ensures
            r@ == (match self.phase {
                BenchPhase::Running => "● Running benchmark…  "@,
                BenchPhase::Displaying => "✓ Complete — next: "@,
            }),
    {
        match self.phase {
            BenchPhase::Running => "● Running benchmark…  ",
            BenchPhase::Displaying => "✓ Complete — next: ",
        }
    }

    /// The verdict shown over the timing bars.
    pub fn match_label(&self) -> (r: &'static str)
        ensures
            r@ == (if self@.results_match() {
                "✓ match"@
            } else {
                "✗ mismatch"@
            }),
    {
        if self.results_match() {
            "✓ match"
        } else {
            "✗ mismatch"
        }
    }

    /// The top of the timing bar chart: the larger time, and at least 1.
    pub fn bar_max(&self) -> (r: u64)
        ensures
            r >= 1,
            r >= self.iter_ns,
            r >= self.loop_ns,
            r == 1 || r == self.iter_ns || r == self.loop_ns,
    {
        let m = if self.iter_ns > self.loop_ns {
            self.iter_ns
        } else {
            self.loop_ns
        };
        let r = if m > 1 {
            m
        } else {
            1
        };
        r
    }

    /// The top of the history sparklines: the largest time in either
    /// history, and at least 1.
    pub fn history_max(&self) -> (r: u64)
        ensures
            r == seq_max_from(self.ns_history_loop@, seq_max_from(self.ns_history_iter@, 1)),
            r >= 1,
            forall|i: int|
                0 <= i < self.ns_history_iter@.len() ==> #[trigger] self.ns_history_iter@[i] <= r,
            forall|i: int|
                0 <= i < self.ns_history_loop@.len() ==> #[trigger] self.ns_history_loop@[i] <= r,
            r == 1 || (exists|i: int|
                0 <= i < self.ns_history_iter@.len() && #[trigger] self.ns_history_iter@[i] == r)
                || (exists|i: int|
                0 <= i < self.ns_history_loop@.len() && #[trigger] self.ns_history_loop@[i] == r),
    {
        let m = vec_max_from(&self.ns_history_iter, 1);
        let r = vec_max_from(&self.ns_history_loop, m);
        proof {
            lemma_seq_max_from(self.ns_history_iter@, 1);
            lemma_seq_max_from(self.ns_history_loop@, m);
        }
        r
    }

    pub fn name(&self) -> (s: &'static str)
        ensures
            s@ == "Zero-Cost Abstractions"@,
    {
        "Zero-Cost Abstractions"
    }

    pub fn description(&self) -> (s: &'static str)
        ensures
            s@ == "High-level iterators compile to the same code as manual loops."@,
    {
        "High-level iterators compile to the same code as manual loops."
    }

    pub fn explanation(&self) -> (s: &'static str)
        ensures
            s@ == "Rust's iterators, closures, and generics have zero runtime overhead. \
        The compiler monomorphizes generic code and inlines iterator chains, \
        producing identical machine code to hand-written loops. This is what \
        'zero-cost abstraction' means: you don't pay for what you use, and \
        you can't write it better by hand."@,
    {
        "Rust's iterators, closures, and generics have zero runtime overhead. \
        The compiler monomorphizes generic code and inlines iterator chains, \
        producing identical machine code to hand-written loops. This is what \
        'zero-cost abstraction' means: you don't pay for what you use, and \
        you can't write it better by hand."
    }

    /// Starts over: counters, phase and histories are cleared, the size is
    /// 1000, the benchmark runs once and the demo is unpaused. The speed is
    /// kept.
    pub fn reset(&mut self)
        ensures
            final(self)@ == old(self)@.after_reset(final(self).iter_ns, final(self).loop_ns),
            final(self).iter_ns >= 1,
            final(self).loop_ns >= 1,
            final(self)@.results_match(),
            final(self)@.can_run(),
            old(self)@.wf() ==> final(self)@.wf(),
    {
        self.tick_count = 0;
        self.phase = BenchPhase::Running;
        self.phase_timer_ns = 0;
        self.run_count = 0;
        self.bench_n = INITIAL_BENCH_N;
        self.ns_history_iter.clear();
        self.ns_history_loop.clear();
        proof {
            lemma_cycle_sizes_fit(INITIAL_BENCH_N);
        }
        self.run_bench();
        self.paused = false;
    }

    pub fn toggle_pause(&mut self)
        ensures
            final(self)@ == old(self)@.after_toggle_pause(),
    {
        self.paused = !self.paused;
    }

    pub fn is_paused(&self) -> (r: bool)
        ensures
            r == self.paused,
    {
        self.paused
    }

    /// Sets the speed, clamped to `1..=10`.
    pub fn set_speed(&mut self, speed: u8)
        ensures
            final(self)@ == old(self)@.with_speed(speed),
            1 <= final(self).speed <= 10,
    {
        self.speed = if speed < 1 {
            1
        } else if speed > 10 {
            10
        } else {
            speed
        };
    }

    pub fn speed(&self) -> (r: u8)
        ensures
            r == self.speed,
    {
        self.speed
    }

    /// The demo's quiz: a question, four answers and the index of the right one.
    pub fn quiz(&self) -> (q: Option<(&'static str, [&'static str; 4], usize)>)
        ensures
            q matches Some((question, answers, right)) && {
                &&& question@ == "What does 'zero-cost abstraction' mean in Rust?"@
                &&& answers@.len() == 4
                &&& answers@[0]@ == "No compile time"@
                &&& answers@[1]@ == "High-level code compiles to optimal assembly"@
                &&& answers@[2]@ == "No heap allocations"@
                &&& answers@[3]@ == "No trait objects"@
                &&& right == 1
            },
    {
        Some(
            (
                "What does 'zero-cost abstraction' mean in Rust?",
                [
                    "No compile time",
                    "High-level code compiles to optimal assembly",
                    "No heap allocations",
                    "No trait objects",
                ],
                1,
            ),
        )
    }
}

impl Default for ZeroCostDemo {
    fn default() -> (d: Self)
        ensures
            d@ == ZeroCostState::fresh().after_run(d.iter_ns, d.loop_ns),
            d.iter_ns >= 1,
            d.loop_ns >= 1,
            d@.results_match(),
    {
        Self::new()
    }
}

} // verus!
