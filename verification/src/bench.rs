//! Performance ceilings, stated as a contract a benchmark must meet.
//!
//! A benchmark that only prints numbers tells you what happened; a ceiling tells you
//! whether it was acceptable. State the ceiling once and the run fails when it is crossed,
//! the same way any other assertion does.
//!
//! Timing the body and counting what it allocates are the harness's business; here are
//! the contract, the measurements it is handed, the statistics it reads from them and
//! what each crossed ceiling reports. Durations are in nanoseconds.
use crate::failure::{shape, Detail, Failure, Shape, Where};
use crate::matcher::behaviour::{millis, millis_text};
use crate::words::{decimal, decimal_text, push_char, push_decimal, push_text};
use vstd::prelude::*;
use vstd::string::*;

verus! {

/// How many samples a p99 needs before it means anything.
pub const P99_MINIMUM: usize = 100;

/// The largest number of nanoseconds a `Duration` holds.
pub const MAX_DURATION_NANOS: u128 = 18_446_744_073_709_551_615_999_999_999;

/// The allocator that counts what the program asks for.
///
/// Installing a global allocator is the harness's business; what it counts is stated
/// here: one allocation per `alloc` and per `realloc`, every byte an `alloc` asks for, and
/// the bytes a `realloc` grows by.
#[derive(Debug, Default)]
pub struct CountingAllocator;

impl CountingAllocator {
    /// Return the allocator.
    pub fn new() -> Self {
        CountingAllocator
    }

    /// The bytes a reallocation from `old_size` to `new_size` adds to the count: what it
    /// grows by, and nothing when it shrinks.
    pub fn grown_by(old_size: usize, new_size: usize) -> (bytes: u64)
        ensures
            bytes == if new_size > old_size { new_size - old_size } else { 0 },
    {
        if new_size > old_size {
            (new_size - old_size) as u64
        } else {
            0
        }
    }
}

/// The sum of a run of durations.
pub open spec fn total(samples: Seq<u128>) -> nat
    decreases samples.len(),
{
    if samples.len() == 0 {
        0
    } else {
        total(samples.drop_last()) + samples.last() as nat
    }
}

proof fn lemma_total_grows(samples: Seq<u128>, n: int)
    requires
        0 <= n <= samples.len(),
    ensures
        total(samples.take(n)) <= total(samples),
    decreases samples.len() - n,
{
    if n < samples.len() {
        lemma_total_grows(samples, n + 1);
        assert(samples.take(n + 1).drop_last() =~= samples.take(n));
    } else {
        assert(samples.take(n) =~= samples);
    }
}

/// Whether a run of durations is in increasing order.
pub open spec fn sorted(samples: Seq<u128>) -> bool {
    forall|i: int, j: int| 0 <= i <= j < samples.len() ==> samples[i] <= samples[j]
}

/// Merge two runs in increasing order into one: every sample of both, in increasing order.
fn merge(a: &Vec<u128>, b: &Vec<u128>) -> (out: Vec<u128>)
    requires
        sorted(a@),
        sorted(b@),
    ensures
        sorted(out@),
        out@.to_multiset() == a@.to_multiset().add(b@.to_multiset()),
{
    let mut out: Vec<u128> = Vec::new();
    let mut i: usize = 0;
    let mut j: usize = 0;
    proof {
        broadcast use vstd::seq_lib::group_to_multiset_ensures;

        assert(a@.take(0) =~= Seq::<u128>::empty());
        assert(b@.take(0) =~= Seq::<u128>::empty());
        assert(out@.to_multiset() =~= a@.take(0).to_multiset().add(b@.take(0).to_multiset()));
    }
    while i < a.len() || j < b.len()
        invariant
            i <= a@.len(),
            j <= b@.len(),
            sorted(a@),
            sorted(b@),
            sorted(out@),
            out@.to_multiset() == a@.take(i as int).to_multiset().add(b@.take(j as int).to_multiset()),
            out@.len() > 0 && i < a@.len() ==> out@.last() <= a@[i as int],
            out@.len() > 0 && j < b@.len() ==> out@.last() <= b@[j as int],
        decreases a@.len() + b@.len() - i - j,
    {
        let ghost before = out@;
        let take_a = j >= b.len() || (i < a.len() && a[i] <= b[j]);
        let x = if take_a { a[i] } else { b[j] };
        out.push(x);
        proof {
            vstd::seq_lib::to_multiset_build(before, x);
            assert forall|p: int, q: int| 0 <= p <= q < out@.len() implies out@[p] <= out@[q] by {
                if q == out@.len() - 1 && p < q {
                    assert(before[p] <= before.last());
                }
            }
            if take_a {
                vstd::seq_lib::to_multiset_build(a@.take(i as int), x);
                assert(a@.take(i + 1) =~= a@.take(i as int).push(x));
                assert(out@.to_multiset() =~= a@.take(i + 1).to_multiset().add(b@.take(j as int).to_multiset()));
            } else {
                vstd::seq_lib::to_multiset_build(b@.take(j as int), x);
                assert(b@.take(j + 1) =~= b@.take(j as int).push(x));
                assert(out@.to_multiset() =~= a@.take(i as int).to_multiset().add(b@.take(j + 1).to_multiset()));
            }
        }
        if take_a {
            i += 1;
        } else {
            j += 1;
        }
    }
    proof {
        assert(a@.take(i as int) =~= a@);
        assert(b@.take(j as int) =~= b@);
    }
    out
}

/// The samples from `lo` up to `hi`, in increasing order, sorted by merging halves.
fn sort_range(samples: &Vec<u128>, lo: usize, hi: usize) -> (out: Vec<u128>)
    requires
        lo <= hi <= samples@.len(),
    ensures
        sorted(out@),
        out@.to_multiset() == samples@.subrange(lo as int, hi as int).to_multiset(),
    decreases hi - lo,
{
    if hi - lo <= 1 {
        let mut out: Vec<u128> = Vec::new();
        if hi - lo == 1 {
            out.push(samples[lo]);
        }
        assert(out@ =~= samples@.subrange(lo as int, hi as int));
        return out;
    }
    let mid = lo + (hi - lo) / 2;
    let left = sort_range(samples, lo, mid);
    let right = sort_range(samples, mid, hi);
    proof {
        assert(samples@.subrange(lo as int, hi as int) =~= samples@.subrange(lo as int, mid as int)
            + samples@.subrange(mid as int, hi as int));
        vstd::seq_lib::lemma_multiset_commutative(
            samples@.subrange(lo as int, mid as int),
            samples@.subrange(mid as int, hi as int),
        );
    }
    merge(&left, &right)
}

/// The samples in increasing order: the same samples, sorted, in O(n log n).
pub fn sort_samples(samples: &Vec<u128>) -> (out: Vec<u128>)
    ensures
        sorted(out@),
        out@.to_multiset() == samples@.to_multiset(),
{
    let out = sort_range(samples, 0, samples.len());
    assert(samples@.subrange(0, samples@.len() as int) =~= samples@);
    out
}

/// The p99 of sorted samples: the sample at the 99th percentile, or the slowest when
/// there are too few to mean anything, or zero when there are none.
///
/// With ten samples the 99th percentile is the tenth, and calling that a p99 would dress
/// one reading up as a distribution.
pub open spec fn p99(sorted: Seq<u128>) -> u128 {
    if sorted.len() == 0 {
        0
    } else if sorted.len() < P99_MINIMUM {
        sorted.last()
    } else {
        sorted[(99 * sorted.len() + 99) / 100 - 1]
    }
}

/// With fewer samples than a p99 needs, the p99 of sorted samples is the slowest one:
/// no sample is slower.
pub proof fn lemma_few_samples_give_the_slowest(sorted_samples: Seq<u128>)
    requires
        sorted(sorted_samples),
        0 < sorted_samples.len() < P99_MINIMUM,
    ensures
        forall|i: int| 0 <= i < sorted_samples.len() ==> sorted_samples[i] <= p99(sorted_samples),
{
}

/// The p99 of sorted samples is one of the samples, and with enough of them at least 99
/// in every hundred are no slower.
pub proof fn lemma_p99_is_a_sample(sorted_samples: Seq<u128>)
    requires
        sorted(sorted_samples),
        P99_MINIMUM <= sorted_samples.len(),
    ensures
        sorted_samples.contains(p99(sorted_samples)),
        forall|i: int| 0 <= i <= (99 * sorted_samples.len() + 99) / 100 - 1 ==> sorted_samples[i] <= p99(sorted_samples),
{
    let k = (99 * sorted_samples.len() + 99) / 100 - 1;
    assert(sorted_samples[k] == p99(sorted_samples));
}

/// The p99 of sorted samples.
pub fn percentile(sorted: &Vec<u128>) -> (at: u128)
    ensures
        at == p99(sorted@),
{
    if sorted.len() == 0 {
        return 0;
    }
    if sorted.len() < P99_MINIMUM {
        return sorted[sorted.len() - 1];
    }
    let n = sorted.len() as u128;
    let index = ((99 * n + 99) / 100 - 1) as usize;
    sorted[index]
}

/// The mean of samples: their total divided by their count, rounded down to the
/// nanosecond, and nought when there are none.
pub open spec fn mean_of(samples: Seq<u128>) -> nat {
    if samples.len() == 0 {
        0
    } else {
        total(samples) / samples.len()
    }
}

/// The mean is the sum shared out evenly: for a run of samples, the mean times the count
/// is no more than the total and the next nanosecond up times the count is more, so it is
/// the total divided by the count, rounded down; a run of none has a mean of nought.
pub proof fn lemma_mean_shares_out_the_total(samples: Seq<u128>)
    ensures
        samples.len() == 0 ==> mean_of(samples) == 0,
        samples.len() > 0 ==> mean_of(samples) * samples.len() <= total(samples),
        samples.len() > 0 ==> total(samples) < (mean_of(samples) + 1) * samples.len(),
{
    if samples.len() > 0 {
        let t = total(samples);
        let n = samples.len();
        let m = mean_of(samples);
        assert(m == t / n);
        assert(m * n <= t && t < (m + 1) * n) by (nonlinear_arith)
            requires
                m == t / n,
                n > 0,
        ;
    }
}

/// What the p99 of sorted samples is, without its formula: with fewer samples than a p99
/// needs it is the slowest, and otherwise it is the sample at the first position where at
/// least 99 in every hundred samples have been counted.
pub proof fn lemma_p99_is_the_99th_percentile(sorted_samples: Seq<u128>)
    requires
        sorted(sorted_samples),
        sorted_samples.len() > 0,
    ensures
        sorted_samples.len() < P99_MINIMUM ==> p99(sorted_samples) == sorted_samples[sorted_samples.len() - 1],
        sorted_samples.len() >= P99_MINIMUM ==> exists|k: int|
            0 <= k < sorted_samples.len() && 100 * (k + 1) >= 99 * sorted_samples.len() && 100 * k < 99
                * sorted_samples.len() && #[trigger] sorted_samples[k] == p99(sorted_samples),
{
    let n = sorted_samples.len();
    if n >= P99_MINIMUM {
        let k = (99 * n + 99) / 100 - 1;
        assert(100 * (k + 1) >= 99 * n && 100 * k < 99 * n && 0 <= k < n) by (nonlinear_arith)
            requires
                k == (99 * n + 99) / 100 - 1,
                n >= 100,
        ;
        assert(sorted_samples[k] == p99(sorted_samples));
    }
}

/// The mean of samples.
pub fn mean(samples: &Vec<u128>) -> (m: u128)
    requires
        total(samples@) <= MAX_DURATION_NANOS,
    ensures
        m == mean_of(samples@),
{
    if samples.len() == 0 {
        return 0;
    }
    let mut sum: u128 = 0;
    let mut at: usize = 0;
    while at < samples.len()
        invariant
            at <= samples@.len(),
            total(samples@) <= MAX_DURATION_NANOS,
            sum == total(samples@.take(at as int)),
        decreases samples@.len() - at,
    {
        proof {
            lemma_total_grows(samples@, at + 1);
            assert(samples@.take(at + 1).drop_last() =~= samples@.take(at as int));
        }
        sum = sum + samples[at];
        at += 1;
    }
    assert(samples@.take(at as int) =~= samples@);
    sum / (samples.len() as u128)
}

/// What a run of the body cost.
#[derive(Debug)]
pub struct Measured {
    iterations: usize,
    latencies: Vec<u128>,
    allocations: Option<u64>,
    bytes: Option<u64>,
}

/// What each iteration allocated, from a counter read before and after the run.
///
/// Nothing is known when nothing was counting or the body never ran.
pub fn per_iteration(counting: bool, before: u64, after: u64, iterations: usize) -> (each: Option<u64>)
    requires
        before <= after,
    ensures
        each == if !counting || iterations == 0 {
            None
        } else {
            Some(((after - before) / (iterations as int)) as u64)
        },
{
    if !counting || iterations == 0 {
        None
    } else {
        Some((after - before) / iterations as u64)
    }
}

/// Performance ceilings, chained onto one contract.
#[derive(Debug)]
pub struct Contract {
    msg: String,
    max_latency: Option<u128>,
    max_mean: Option<u128>,
    max_allocs: Option<u64>,
    max_bytes: Option<u64>,
    measured: Option<Measured>,
}

} // verus!

verus! {

/// Three decimal digits, with leading zeroes.
pub open spec fn three_digits(n: nat) -> Seq<char> {
    seq![crate::words::digit((n / 100) % 10), crate::words::digit((n / 10) % 10), crate::words::digit(n % 10)]
}

/// A duration in milliseconds with three decimals, rounded to the nearest microsecond
/// with a half rounded up.
pub open spec fn millis3_text(nanos: nat) -> Seq<char> {
    let micros = (nanos + 500) / 1000;
    decimal(micros / 1000) + "."@ + three_digits(micros % 1000)
}

/// Write a duration in milliseconds with three decimals.
pub fn push_millis3(out: &mut String, nanos: u128)
    requires
        nanos <= MAX_DURATION_NANOS,
    ensures
        final(out)@ == old(out)@ + millis3_text(nanos as nat),
{
    let micros = (nanos + 500) / 1000;
    push_decimal(out, micros / 1000);
    push_text(out, ".");
    let frac = micros % 1000;
    push_char(out, crate::words::char_of_digit(((frac / 100) % 10) as u32));
    push_char(out, crate::words::char_of_digit(((frac / 10) % 10) as u32));
    push_char(out, crate::words::char_of_digit((frac % 10) as u32));
    assert(final(out)@ =~= old(out)@ + millis3_text(nanos as nat));
}


impl Measured {
    /// How many iterations ran.
    pub closed spec fn iteration_count(&self) -> nat {
        self.iterations as nat
    }

    /// Every iteration's latency, slowest last.
    pub closed spec fn latency_samples(&self) -> Seq<u128> {
        self.latencies@
    }

    /// Allocations per iteration, when something counted them.
    pub closed spec fn allocations_each(&self) -> Option<u64> {
        self.allocations
    }

    /// Bytes allocated per iteration, when something counted them.
    pub closed spec fn bytes_each(&self) -> Option<u64> {
        self.bytes
    }
}

/// What a crossed timing ceiling reports: the measurement in milliseconds to three
/// decimals, the ceiling in whole milliseconds, and the number of iterations.
pub open spec fn crossed_shape(id: Seq<char>, msg: Seq<char>, what: Seq<char>, measured: nat, ceiling: nat, iterations: nat) -> Shape {
    (id, msg, seq![(what, millis3_text(measured) + "ms"@), ("want"@, millis_text(ceiling)), ("iterations"@, decimal(iterations))])
}

/// What a ceiling on allocations says of a run in which nothing counted them.
pub open spec fn uncounted_text(what: Seq<char>) -> Seq<char> {
    "nothing counted; a ceiling on "@ + what + " needs CountingAllocator installed as the global allocator"@
}

/// How a count per iteration reads: the count, what was counted, and "per iteration".
pub open spec fn per_iteration_text(count: nat, what: Seq<char>) -> Seq<char> {
    decimal(count) + " "@ + what + " per iteration"@
}

/// What an allocation ceiling reports, if anything: nothing when no ceiling was stated,
/// that nothing counted when nothing did, and the crossing when the count is over.
pub open spec fn weighed_shapes(id: Seq<char>, msg: Seq<char>, what: Seq<char>, measured: Option<u64>, ceiling: Option<u64>, iterations: nat) -> Seq<Shape> {
    match ceiling {
        None => Seq::empty(),
        Some(limit) => match measured {
            None => seq![(id, msg, seq![("got"@, uncounted_text(what)), ("want"@, decimal(limit as nat)), ("iterations"@, decimal(iterations))])],
            Some(count) => if count > limit {
                seq![(id, msg, seq![("got"@, per_iteration_text(count as nat, what)), ("want"@, decimal(limit as nat)), ("iterations"@, decimal(iterations))])]
            } else {
                Seq::empty()
            },
        },
    }
}

impl Contract {
    /// The caller's message.
    pub closed spec fn contract_text(&self) -> Seq<char> {
        self.msg@
    }

    /// The highest acceptable p99, if one was stated.
    pub closed spec fn latency_ceiling(&self) -> Option<u128> {
        self.max_latency
    }

    /// The highest acceptable mean, if one was stated.
    pub closed spec fn mean_ceiling(&self) -> Option<u128> {
        self.max_mean
    }

    /// The most allocations per iteration, if stated.
    pub closed spec fn allocs_ceiling(&self) -> Option<u64> {
        self.max_allocs
    }

    /// The most bytes per iteration, if stated.
    pub closed spec fn bytes_ceiling(&self) -> Option<u64> {
        self.max_bytes
    }

    /// What the run measured, if it ran.
    pub closed spec fn run(&self) -> Option<Measured> {
        self.measured
    }

    /// Every ceiling the measured run crossed, as each record reads, in the order the
    /// ceilings are listed.
    pub open spec fn verdicts(&self, run: Measured) -> Seq<Shape> {
        let n = run.iteration_count();
        let p = p99(run.latency_samples());
        let m = mean_of(run.latency_samples());
        (match self.latency_ceiling() {
            Some(c) => if p > c {
                seq![crossed_shape("bench-max-latency"@, self.contract_text(), "p99"@, p as nat, c as nat, n)]
            } else {
                Seq::empty()
            },
            None => Seq::empty(),
        }) + (match self.mean_ceiling() {
            Some(c) => if m > c {
                seq![crossed_shape("bench-max-mean"@, self.contract_text(), "mean"@, m, c as nat, n)]
            } else {
                Seq::empty()
            },
            None => Seq::empty(),
        }) + weighed_shapes("bench-max-allocs"@, self.contract_text(), "allocations"@, run.allocations_each(), self.allocs_ceiling(), n)
            + weighed_shapes("bench-max-bytes"@, self.contract_text(), "bytes"@, run.bytes_each(), self.bytes_ceiling(), n)
    }

    /// Return a contract that states no ceilings yet.
    pub fn new(msg: &str) -> (contract: Self)
        ensures
            contract.contract_text() == msg@,
            contract.latency_ceiling() is None,
            contract.mean_ceiling() is None,
            contract.allocs_ceiling() is None,
            contract.bytes_ceiling() is None,
            contract.run() is None,
    {
        Contract {
            msg: msg.to_owned(),
            max_latency: None,
            max_mean: None,
            max_allocs: None,
            max_bytes: None,
            measured: None,
        }
    }

    /// State the highest acceptable p99 latency per iteration.
    ///
    /// The p99 rather than the mean, because the tail is what a caller waits for. With
    /// fewer than a hundred iterations it is the slowest one.
    pub fn max_latency(self, ceiling: u128) -> (contract: Self)
        ensures
            contract.latency_ceiling() == Some(ceiling),
            contract.contract_text() == self.contract_text(),
            contract.mean_ceiling() == self.mean_ceiling(),
            contract.allocs_ceiling() == self.allocs_ceiling(),
            contract.bytes_ceiling() == self.bytes_ceiling(),
            contract.run() == self.run(),
    {
        Contract { max_latency: Some(ceiling), ..self }
    }

    /// State the highest acceptable mean latency per iteration.
    ///
    /// Use it beside [`Contract::max_latency`] rather than instead of it: a mean that holds
    /// while the tail grows is the regression a mean alone misses.
    pub fn max_mean(self, ceiling: u128) -> (contract: Self)
        ensures
            contract.mean_ceiling() == Some(ceiling),
            contract.contract_text() == self.contract_text(),
            contract.latency_ceiling() == self.latency_ceiling(),
            contract.allocs_ceiling() == self.allocs_ceiling(),
            contract.bytes_ceiling() == self.bytes_ceiling(),
            contract.run() == self.run(),
    {
        Contract { max_mean: Some(ceiling), ..self }
    }

    /// State the most allocations the body may make per iteration.
    pub fn max_allocs(self, ceiling: u64) -> (contract: Self)
        ensures
            contract.allocs_ceiling() == Some(ceiling),
            contract.contract_text() == self.contract_text(),
            contract.latency_ceiling() == self.latency_ceiling(),
            contract.mean_ceiling() == self.mean_ceiling(),
            contract.bytes_ceiling() == self.bytes_ceiling(),
            contract.run() == self.run(),
    {
        Contract { max_allocs: Some(ceiling), ..self }
    }

    /// State the most bytes the body may allocate per iteration.
    pub fn max_bytes(self, ceiling: u64) -> (contract: Self)
        ensures
            contract.bytes_ceiling() == Some(ceiling),
            contract.contract_text() == self.contract_text(),
            contract.latency_ceiling() == self.latency_ceiling(),
            contract.mean_ceiling() == self.mean_ceiling(),
            contract.allocs_ceiling() == self.allocs_ceiling(),
            contract.run() == self.run(),
    {
        Contract { max_bytes: Some(ceiling), ..self }
    }

    /// Keep what a run measured: its iteration count, every iteration's latency in any
    /// order, and what each iteration allocated when something counted it.
    pub fn measured(self, iterations: usize, latencies: Vec<u128>, allocations: Option<u64>, bytes: Option<u64>) -> (contract: Self)
        ensures
            contract.run() matches Some(run) && run.iteration_count() == iterations
                && sorted(run.latency_samples())
                && run.latency_samples().to_multiset() == latencies@.to_multiset()
                && run.allocations_each() == allocations && run.bytes_each() == bytes,
            contract.contract_text() == self.contract_text(),
            contract.latency_ceiling() == self.latency_ceiling(),
            contract.mean_ceiling() == self.mean_ceiling(),
            contract.allocs_ceiling() == self.allocs_ceiling(),
            contract.bytes_ceiling() == self.bytes_ceiling(),
    {
        let sorted_latencies = sort_samples(&latencies);
        Contract {
            measured: Some(Measured { iterations, latencies: sorted_latencies, allocations, bytes }),
            ..self
        }
    }

    /// Whether [`Contract::check`] can read this contract's run: every latency is one a
    /// duration holds and, when a mean was asked for, so is their sum. A contract never
    /// run can always be read.
    pub fn checkable(&self) -> (ok: bool)
        ensures
            ok == (self.run() matches Some(run) ==> (forall|i: int|
                0 <= i < run.latency_samples().len() ==> run.latency_samples()[i] <= MAX_DURATION_NANOS)
                && (self.mean_ceiling() is Some ==> total(run.latency_samples()) <= MAX_DURATION_NANOS)),
    {
        let run = match &self.measured {
            None => return true,
            Some(run) => run,
        };
        let samples = &run.latencies;
        proof {
            assert(self.run() == Some(*run));
            assert(run.latency_samples() == samples@);
        }
        let mut sum: u128 = 0;
        let mut fits = true;
        let mut at: usize = 0;
        while at < samples.len()
            invariant
                at <= samples@.len(),
                self.run() == Some(*run),
                run.latency_samples() == samples@,
                forall|i: int| 0 <= i < at ==> samples@[i] <= MAX_DURATION_NANOS,
                fits ==> sum == total(samples@.take(at as int)),
                fits <==> total(samples@.take(at as int)) <= MAX_DURATION_NANOS,
            decreases samples@.len() - at,
        {
            if samples[at] > MAX_DURATION_NANOS {
                assert(!(forall|i: int| 0 <= i < samples@.len() ==> samples@[i] <= MAX_DURATION_NANOS)) by {
                    assert(samples@[at as int] > MAX_DURATION_NANOS);
                }
                return false;
            }
            proof {
                assert(samples@.take(at + 1).drop_last() =~= samples@.take(at as int));
            }
            if fits {
                if sum + samples[at] <= MAX_DURATION_NANOS {
                    sum = sum + samples[at];
                } else {
                    fits = false;
                }
            }
            at += 1;
        }
        assert(samples@.take(at as int) =~= samples@);
        self.max_mean.is_none() || fits
    }

    /// Report every ceiling the run crossed, in the order the ceilings are listed, each
    /// pointing at the given call site; or, when the contract was never run, that nothing
    /// was measured.
    ///
    /// A ceiling nobody stated is not checked, and a ceiling on what nothing counted says
    /// so rather than passing quietly.
    pub fn check(&self, at: Where) -> (out: Result<Vec<Failure>, String>)
        requires
            self.run() matches Some(run) ==> (forall|i: int|
                0 <= i < run.latency_samples().len() ==> run.latency_samples()[i] <= MAX_DURATION_NANOS),
            self.run() matches Some(run) ==> (self.mean_ceiling() is Some ==> total(run.latency_samples())
                <= MAX_DURATION_NANOS),
        ensures
            out is Err <==> self.run() is None,
            out matches Err(m) ==> m@ == self.contract_text() + ": nothing was measured"@,
            out matches Ok(records) ==> {
                &&& records@.map_values(|f: Failure| shape(f)) == self.verdicts(self.run()->0)
                &&& forall|i: int| 0 <= i < records@.len() ==> #[trigger] records@[i].where_at == at
            },
    {
        let run = match &self.measured {
            None => {
                let mut m = self.msg.clone();
                push_text(&mut m, ": nothing was measured");
                return Err(m);
            },
            Some(run) => run,
        };
        let mut out: Vec<Failure> = Vec::new();
        proof {
            assert(self.run() == Some(*run));
            assert(run.latency_samples() == run.latencies@);
        }
        if let Some(ceiling) = self.max_latency {
            let p = percentile(&run.latencies);
            if p > ceiling {
                proof {
                    if run.latencies@.len() > 0 {
                        if run.latencies@.len() < P99_MINIMUM {
                            let k = run.latencies@.len() - 1;
                            assert(p == run.latency_samples()[k]);
                        } else {
                            let k = (99 * run.latencies@.len() + 99) / 100 - 1;
                            assert(p == run.latency_samples()[k]);
                        }
                    }
                }
                out.push(self.crossed("bench-max-latency", "p99", p, ceiling, run.iterations, at));
            }
        }
        if let Some(ceiling) = self.max_mean {
            let m = mean(&run.latencies);
            if m > ceiling {
                proof {
                    lemma_mean_within(run.latencies@);
                }
                out.push(self.crossed("bench-max-mean", "mean", m, ceiling, run.iterations, at));
            }
        }
        self.weighed(&mut out, "bench-max-allocs", "allocations", run.allocations, self.max_allocs, run.iterations, at);
        self.weighed(&mut out, "bench-max-bytes", "bytes", run.bytes, self.max_bytes, run.iterations, at);
        assert(out@.map_values(|f: Failure| shape(f)) =~= self.verdicts(self.run()->0));
        Ok(out)
    }

    /// What a crossed timing ceiling reports.
    fn crossed(&self, id: &'static str, what: &'static str, measured: u128, ceiling: u128, iterations: usize, at: Where) -> (f: Failure)
        requires
            measured <= MAX_DURATION_NANOS,
        ensures
            shape(f) == crossed_shape(id@, self.contract_text(), what@, measured as nat, ceiling as nat, iterations as nat),
            f.where_at == at,
    {
        let mut took = String::new();
        push_millis3(&mut took, measured);
        push_text(&mut took, "ms");
        let detail = vec![
            (what, Detail::Said(took)),
            ("want", Detail::Number(millis(ceiling))),
            ("iterations", Detail::Count(iterations)),
        ];
        let f = Failure::new(id, self.msg.as_str(), detail, at);
        assert(shape(f).2 =~= crossed_shape(id@, self.contract_text(), what@, measured as nat, ceiling as nat, iterations as nat).2);
        f
    }

    /// Add what an allocation ceiling reports, if anything.
    fn weighed(
        &self,
        out: &mut Vec<Failure>,
        id: &'static str,
        what: &'static str,
        measured: Option<u64>,
        ceiling: Option<u64>,
        iterations: usize,
        at: Where,
    )
        requires
            forall|i: int| 0 <= i < old(out)@.len() ==> #[trigger] old(out)@[i].where_at == at,
        ensures
            final(out)@.map_values(|f: Failure| shape(f)) == old(out)@.map_values(|f: Failure| shape(f))
                + weighed_shapes(id@, self.contract_text(), what@, measured, ceiling, iterations as nat),
            forall|i: int| 0 <= i < final(out)@.len() ==> #[trigger] final(out)@[i].where_at == at,
    {
        let ghost before = out@.map_values(|f: Failure| shape(f));
        let limit = match ceiling {
            None => {
                assert(out@.map_values(|f: Failure| shape(f)) =~= before + Seq::<Shape>::empty());
                return;
            },
            Some(limit) => limit,
        };
        let said = match measured {
            None => {
                let mut m = String::new();
                push_text(&mut m, "nothing counted; a ceiling on ");
                push_text(&mut m, what);
                push_text(&mut m, " needs CountingAllocator installed as the global allocator");
                m
            },
            Some(count) => {
                if count <= limit {
                    assert(out@.map_values(|f: Failure| shape(f)) =~= before + Seq::<Shape>::empty());
                    return;
                }
                let mut m = decimal_text(count as u128);
                push_text(&mut m, " ");
                push_text(&mut m, what);
                push_text(&mut m, " per iteration");
                m
            },
        };
        let detail = vec![
            ("got", Detail::Said(said)),
            ("want", Detail::Number(decimal_text(limit as u128))),
            ("iterations", Detail::Count(iterations)),
        ];
        let f = Failure::new(id, self.msg.as_str(), detail, at);
        out.push(f);
        proof {
            let want = weighed_shapes(id@, self.contract_text(), what@, measured, ceiling, iterations as nat);
            assert(shape(f).2 =~= want[0].2);
            assert(out@.map_values(|f: Failure| shape(f)) =~= before + want);
        }
    }
}

/// A latency ceiling is judged by the p99 of the run: the contract reports a latency
/// record exactly when a ceiling was stated and the p99 is over it, that record comes first
/// and carries the p99 itself, and no other record the contract reports is about latency.
pub proof fn lemma_latency_is_judged_by_the_p99(contract: Contract, run: Measured)
    ensures
        (contract.verdicts(run).len() > 0 && contract.verdicts(run)[0].0 == "bench-max-latency"@) <==> (
        contract.latency_ceiling() matches Some(c) && p99(run.latency_samples()) > c),
        (contract.latency_ceiling() matches Some(c) && p99(run.latency_samples()) > c) ==> contract.verdicts(
            run,
        )[0].2[0] == ("p99"@, millis3_text(p99(run.latency_samples()) as nat) + "ms"@),
        forall|i: int|
            0 < i < contract.verdicts(run).len() ==> #[trigger] contract.verdicts(run)[i].0 != "bench-max-latency"@,
{
    reveal_strlit("bench-max-latency");
    reveal_strlit("bench-max-mean");
    reveal_strlit("bench-max-allocs");
    reveal_strlit("bench-max-bytes");
    assert("bench-max-latency"@.len() == 17);
    let n = run.iteration_count();
    let p = p99(run.latency_samples());
    let m = mean_of(run.latency_samples());
    let msg = contract.contract_text();
    let latency: Seq<Shape> = match contract.latency_ceiling() {
        Some(c) => if p > c {
            seq![crossed_shape("bench-max-latency"@, msg, "p99"@, p as nat, c as nat, n)]
        } else {
            Seq::empty()
        },
        None => Seq::empty(),
    };
    let mean: Seq<Shape> = match contract.mean_ceiling() {
        Some(c) => if m > c {
            seq![crossed_shape("bench-max-mean"@, msg, "mean"@, m, c as nat, n)]
        } else {
            Seq::empty()
        },
        None => Seq::empty(),
    };
    let allocs = weighed_shapes("bench-max-allocs"@, msg, "allocations"@, run.allocations_each(), contract.allocs_ceiling(), n);
    let bytes = weighed_shapes("bench-max-bytes"@, msg, "bytes"@, run.bytes_each(), contract.bytes_ceiling(), n);
    let rest = mean + allocs + bytes;
    assert(contract.verdicts(run) =~= latency + rest);
    assert forall|i: int| 0 <= i < rest.len() implies #[trigger] rest[i].0.len() != 17 by {
        if i < mean.len() {
            assert(rest[i] == mean[i]);
        } else if i < mean.len() + allocs.len() {
            assert(rest[i] == allocs[i - mean.len()]);
        } else {
            assert(rest[i] == bytes[i - mean.len() - allocs.len()]);
        }
    }
    assert forall|i: int|
        0 < i < contract.verdicts(run).len() implies #[trigger] contract.verdicts(run)[i].0 != "bench-max-latency"@ by {
        if latency.len() == 1 {
            assert(contract.verdicts(run)[i] == rest[i - 1]);
            assert(rest[i - 1].0.len() != 17);
        } else {
            assert(contract.verdicts(run)[i] == rest[i]);
            assert(rest[i].0.len() != 17);
        }
    }
    if latency.len() == 0 && contract.verdicts(run).len() > 0 {
        assert(contract.verdicts(run)[0] == rest[0]);
        assert(rest[0].0.len() != 17);
    }
}

/// The mean of samples no larger than a duration holds is no larger either.
proof fn lemma_mean_within(samples: Seq<u128>)
    requires
        total(samples) <= MAX_DURATION_NANOS,
    ensures
        mean_of(samples) <= MAX_DURATION_NANOS,
{
}

} // verus!
