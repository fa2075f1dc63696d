use vstd::prelude::*;

use crate::event::{benchmark_event, ToolEventView, ToolInputView};
use crate::invoke::envelope;
use crate::json::{member, string_member, Json};
use crate::text::int_text;
use crate::wire::event_of_json;

verus! {

/// The pause that stands for one hook call in a simulated run.
pub const SIMULATED_DELAY_MS: u64 = 50;

/// Nanoseconds in a millisecond.
pub const NANOS_PER_MILLI: u64 = 1000000;

/// Why a benchmark has no statistics.
#[derive(Debug, PartialEq)]
pub enum BenchError {
    /// The run had no iterations, so there is no mean, minimum or maximum.
    NoIterations,
}

/// `m` is one of the samples and none is smaller.
pub open spec fn is_min(s: Seq<u64>, m: u64) -> bool {
    &&& exists|j: int| 0 <= j < s.len() && s[j] == m
    &&& forall|j: int| 0 <= j < s.len() ==> m <= s[j]
}

/// `m` is one of the samples and none is larger.
pub open spec fn is_max(s: Seq<u64>, m: u64) -> bool {
    &&& exists|j: int| 0 <= j < s.len() && s[j] == m
    &&& forall|j: int| 0 <= j < s.len() ==> s[j] <= m
}

/// The statistics of a benchmark run; times are in nanoseconds.
#[derive(Debug, PartialEq)]
pub struct BenchStats {
    pub iterations: u64,
    pub failures: u64,
    pub total_nanos: u64,
    pub mean_nanos: u64,
    pub min_nanos: u64,
    pub max_nanos: u64,
}

/// Reduces the latency samples of a run, and the wall time of the whole run,
/// to statistics. The mean is the whole run's time over the number of
/// iterations, rounded down. A run without samples has none.
pub fn summarize(samples: &Vec<u64>, total_nanos: u64, failures: u64) -> (r: Result<
    BenchStats,
    BenchError,
>)
    ensures
        samples@.len() == 0 ==> r == Err::<BenchStats, BenchError>(BenchError::NoIterations),
        samples@.len() > 0 ==> r is Ok,
        r matches Ok(st) ==> {
            &&& st.iterations == samples@.len()
            &&& st.failures == failures
            &&& st.total_nanos == total_nanos
            &&& st.mean_nanos == total_nanos / samples@.len() as u64
            &&& is_min(samples@, st.min_nanos)
            &&& is_max(samples@, st.max_nanos)
        },
{
    let n = samples.len();
    if n == 0 {
        return Err(BenchError::NoIterations);
    }
    let mut lo = samples[0];
    let mut hi = samples[0];
    let mut i: usize = 1;
    while i < n
        invariant
            n == samples@.len(),
            1 <= i <= n,
            exists|j: int| 0 <= j < i && samples@[j] == lo,
            exists|j: int| 0 <= j < i && samples@[j] == hi,
            forall|j: int| 0 <= j < i ==> lo <= #[trigger] samples@[j] && samples@[j] <= hi,
        decreases n - i,
    {
        let x = samples[i];
        if x < lo {
            lo = x;
        }
        if x > hi {
            hi = x;
        }
        i += 1;
    }
    Ok(
        BenchStats {
            iterations: n as u64,
            failures,
            total_nanos,
            mean_nanos: total_nanos / (n as u64),
            min_nanos: lo,
            max_nanos: hi,
        },
    )
}

impl BenchStats {
    /// The mean latency in whole milliseconds.
    pub fn mean_millis(&self) -> (r: u64)
        ensures
            r == self.mean_nanos / NANOS_PER_MILLI,
    {
        self.mean_nanos / NANOS_PER_MILLI
    }

    /// Calls per second, in thousandths and rounded down: `1000 / mean` for a
    /// mean of at least one millisecond, none for a shorter mean.
    pub fn throughput_milli(&self) -> (r: Option<u64>)
        ensures
            self.mean_nanos / NANOS_PER_MILLI == 0 ==> r is None,
            self.mean_nanos / NANOS_PER_MILLI > 0 ==> r == Some(
                (1000000u64 / (self.mean_nanos / NANOS_PER_MILLI)) as u64,
            ),
    {
        let ms = self.mean_millis();
        if ms == 0 {
            None
        } else {
            Some(1000000 / ms)
        }
    }
}

/// What a benchmark run does next.
#[derive(Debug, PartialEq)]
pub enum BenchStep {
    /// Invoke the hook for this iteration (counted from one) and time it.
    Invoke { iteration: u32 },
    /// Pause for this many milliseconds and time it.
    Sleep { millis: u64 },
    /// Every iteration has its sample.
    Finished,
}

pub struct BenchRunView {
    pub iterations: nat,
    pub live: bool,
    pub samples: Seq<u64>,
    pub failures: nat,
}

/// A benchmark run in progress: how many iterations it is to have, whether it
/// calls the hook or only pauses, and the latency of each iteration so far.
/// A failed call is counted and still gives a sample.
pub struct BenchRun {
    iterations: u32,
    live: bool,
    samples: Vec<u64>,
    failures: u64,
}

impl View for BenchRun {
    type V = BenchRunView;

    closed spec fn view(&self) -> BenchRunView {
        BenchRunView {
            iterations: self.iterations as nat,
            live: self.live,
            samples: self.samples@,
            failures: self.failures as nat,
        }
    }
}

impl BenchRun {
    /// No run holds more samples than it has iterations, nor more failures
    /// than samples.
    pub open spec fn wf(&self) -> bool {
        &&& self@.samples.len() <= self@.iterations
        &&& self@.failures <= self@.samples.len()
    }

    /// A run of `iterations` iterations that has not started.
    pub fn new(iterations: u32, live: bool) -> (r: BenchRun)
        ensures
            r.wf(),
            r@ == (BenchRunView {
                iterations: iterations as nat,
                live,
                samples: Seq::empty(),
                failures: 0,
            }),
    {
        let r = BenchRun { iterations, live, samples: Vec::new(), failures: 0 };
        assert(r@.samples =~= Seq::<u64>::empty());
        r
    }

    /// Whether every iteration has its sample.
    pub fn is_finished(&self) -> (r: bool)
        requires
            self.wf(),
        ensures
            r == (self@.samples.len() == self@.iterations),
    {
        self.samples.len() == self.iterations as usize
    }

    /// The next thing to do: call the hook in a live run, pause in a simulated
    /// one, or stop once every iteration has its sample.
    pub fn next_step(&self) -> (r: BenchStep)
        requires
            self.wf(),
        ensures
            self@.samples.len() == self@.iterations ==> r == BenchStep::Finished,
            self@.samples.len() < self@.iterations && self@.live ==> r == (BenchStep::Invoke {
                iteration: (self@.samples.len() + 1) as u32,
            }),
            self@.samples.len() < self@.iterations && !self@.live ==> r == (BenchStep::Sleep {
                millis: SIMULATED_DELAY_MS,
            }),
    {
        if self.is_finished() {
            BenchStep::Finished
        } else if self.live {
            BenchStep::Invoke { iteration: self.samples.len() as u32 + 1 }
        } else {
            BenchStep::Sleep { millis: SIMULATED_DELAY_MS }
        }
    }

    /// Records how long the current iteration took and whether it succeeded.
    pub fn record(&mut self, elapsed_nanos: u64, ok: bool)
        requires
            old(self).wf(),
            old(self)@.samples.len() < old(self)@.iterations,
        ensures
            final(self).wf(),
            final(self)@.iterations == old(self)@.iterations,
            final(self)@.live == old(self)@.live,
            final(self)@.samples == old(self)@.samples.push(elapsed_nanos),
            final(self)@.failures == old(self)@.failures + if ok { 0nat } else { 1nat },
    {
        self.samples.push(elapsed_nanos);
        if !ok {
            self.failures = self.failures + 1;
        }
    }

    /// The latency of each iteration so far, in order.
    pub fn samples(&self) -> (r: &Vec<u64>)
        ensures
            r@ == self@.samples,
    {
        &self.samples
    }

    /// The statistics of the run, given the wall time of the whole run.
    pub fn summary(&self, total_nanos: u64) -> (r: Result<BenchStats, BenchError>)
        requires
            self.wf(),
        ensures
            self@.samples.len() == 0 ==> r == Err::<BenchStats, BenchError>(
                BenchError::NoIterations,
            ),
            self@.samples.len() > 0 ==> r is Ok,
            r matches Ok(st) ==> {
                &&& st.iterations == self@.samples.len()
                &&& st.failures == self@.failures
                &&& st.total_nanos == total_nanos
                &&& st.mean_nanos == total_nanos / self@.samples.len() as u64
                &&& is_min(self@.samples, st.min_nanos)
                &&& is_max(self@.samples, st.max_nanos)
            },
    {
        summarize(&self.samples, total_nanos, self.failures)
    }
}

/// What benchmark iteration `i` sends to the hook: its fixed edit event, for
/// the `code` stage.
pub fn benchmark_envelope(i: u32, cwd: String) -> (r: Json)
    ensures
        string_member(r, "stage"@) == Some("code"@),
        member(r, "hook_input"@) matches Some(input) && event_of_json(input) == Some(
            ToolEventView {
                session_id: "bench-"@ + int_text(i as int),
                tool_name: "Edit"@,
                tool_input: ToolInputView::Edit {
                    file_path: "bench_test.rs"@,
                    old_string: "fn old() {}"@,
                    new_string: "fn new() {}"@,
                },
                cwd: cwd@,
            },
        ),
{
    let event = benchmark_event(i, cwd);
    envelope("code", event.to_json())
}

} // verus!
