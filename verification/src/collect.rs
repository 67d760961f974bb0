//! The collection orchestrator: drives the sampling loop for the OS
//! source, and exposes a per-line step machine for the serial source whose
//! I/O the unverified shell performs.  Progress throttling, destination
//! dispatch and kernel-pool record construction are all decided here.

use vstd::prelude::*;
use vstd::string::StrSliceExecFns;
use vstd::utf8::encode_utf8;

use crate::encode::is_bit_string;
use crate::entropy::{get_entropy_sample, SAMPLE_BYTES};
use crate::errors::CollectError;
use crate::kernel_pool::{KernelPoolEntry, POOL_BUF_CAPACITY};
use crate::progress::{lemma_percent_bounds, spec_percent, CollectEvent, ProgressGauge};
use crate::request::SinkKind;

verus! {

/// Everything a completed OS-source run produced: the records owed to the
/// sink and the full progress event stream, in order.
pub struct CollectionOutput {
    /// One newline-worthy record per sample, present only for a file
    /// destination.
    pub lines: Vec<String>,
    /// The progress events of the run, ending in its single terminal
    /// event.
    pub events: Vec<CollectEvent>,
}

/// A completed run's event stream: at least the terminal event, which is
/// `Finished`, comes last, and everything before it is a `Sample`.
pub open spec fn events_shape(events: Seq<CollectEvent>) -> bool {
    &&& events.len() >= 1
    &&& events.last() is Finished
    &&& forall|i: int| 0 <= i < events.len() - 1 ==> (#[trigger] events[i]) is Sample
}

/// The percentages of `Sample` events never decrease along the stream.
pub open spec fn percents_monotone(events: Seq<CollectEvent>) -> bool {
    forall|i: int, j: int|
        0 <= i < j < events.len() && (#[trigger] events[i]) is Sample && (#[trigger] events[j])
            is Sample ==> events[i]->Sample_percent <= events[j]->Sample_percent
}

/// The percentages of `Sample` events strictly increase along the
/// stream: the file-destination throttle emits at most one event per
/// whole percent.
pub open spec fn percents_strict(events: Seq<CollectEvent>) -> bool {
    forall|i: int, j: int|
        0 <= i < j < events.len() && (#[trigger] events[i]) is Sample && (#[trigger] events[j])
            is Sample ==> events[i]->Sample_percent < events[j]->Sample_percent
}

/// The percentages at which the whole-percent throttle emits an event
/// during the first `i` of `n` samples: one entry each time the
/// completion percentage crosses a whole point.
pub open spec fn emitted_percents(n: int, i: int) -> Seq<int>
    decreases i,
{
    if i <= 0 {
        Seq::empty()
    } else if spec_percent(i, n) > spec_percent(i - 1, n) {
        emitted_percents(n, i - 1).push(spec_percent(i, n))
    } else {
        emitted_percents(n, i - 1)
    }
}

/// The percentages carried by a completed run's `Sample` events, which
/// precede its terminal event.
pub open spec fn run_sample_percents(events: Seq<CollectEvent>) -> Seq<int>
    recommends
        events.len() >= 1,
{
    Seq::new((events.len() - 1) as nat, |k: int| events[k]->Sample_percent as int)
}

/// Every event so far is a `Sample`.
spec fn all_samples(events: Seq<CollectEvent>) -> bool {
    forall|i: int| 0 <= i < events.len() ==> (#[trigger] events[i]) is Sample
}

/// Every `Sample` percentage is at most `bound`.
spec fn percents_at_most(events: Seq<CollectEvent>, bound: int) -> bool {
    forall|i: int|
        0 <= i < events.len() && (#[trigger] events[i]) is Sample ==> events[i]->Sample_percent
            <= bound
}

/// `s` is one OS-sourced sample line: 256 binary digits.
pub open spec fn is_sample_line(s: Seq<char>) -> bool {
    s.len() == 8 * SAMPLE_BYTES && is_bit_string(s)
}

/// Runs a whole OS-source collection: draws exactly `num_samples` samples
/// from the OS CSPRNG, expands each to its binary-digit line, and builds
/// the output records and the throttled progress event stream for the
/// requested destination kind.  Fails only if the OS randomness source
/// fails.
pub fn collect_os_entropy(num_samples: usize, kind: SinkKind) -> (r: Result<
    CollectionOutput,
    CollectError,
>)
    requires
        num_samples >= 1,
    ensures
        r matches Ok(o) ==> ({
            &&& events_shape(o.events@)
            &&& percents_monotone(o.events@)
            &&& forall|i: int|
                0 <= i < o.events@.len() && (#[trigger] o.events@[i]) is Sample
                    ==> o.events@[i]->Sample_percent <= 100
            &&& (kind is File ==> percents_strict(o.events@))
            &&& (kind is File ==> run_sample_percents(o.events@) == emitted_percents(
                num_samples as int,
                num_samples as int,
            ))
            &&& (kind is File ==> o.events@.len() <= num_samples + 1)
            &&& (kind is Screen ==> o.events@.len() == num_samples + 1)
            &&& (kind is Discard ==> o.events@.len() == 1)
            &&& (kind is File ==> o.lines@.len() == num_samples)
            &&& (!(kind is File) ==> o.lines@.len() == 0)
            &&& forall|i: int|
                0 <= i < o.lines@.len() ==> is_sample_line((#[trigger] o.lines@[i])@)
            &&& (kind is Screen ==> forall|i: int|
                0 <= i < num_samples ==> is_sample_line((#[trigger] o.events@[i])->Sample_line@))
            &&& (kind is Screen ==> forall|i: int|
                0 <= i < num_samples ==> (#[trigger] o.events@[i])->Sample_percent
                    == spec_percent(i + 1, num_samples as int))
            &&& (kind is File ==> forall|i: int|
                0 <= i < o.events@.len() - 1 ==> (#[trigger] o.events@[i])->Sample_line@.len()
                    == 0)
        }),
        r matches Err(e) ==> e is RandomSource,
{
    let mut gauge = ProgressGauge::new(num_samples);
    let mut lines: Vec<String> = Vec::new();
    let mut events: Vec<CollectEvent> = Vec::new();
    proof {
        assert(spec_percent(0, num_samples as int) == 0) by {
            vstd::arithmetic::div_mod::lemma_div_multiples_vanish(0, num_samples as int);
        }
        assert(Seq::new(events@.len() as nat, |k: int| events@[k]->Sample_percent as int)
            =~= emitted_percents(num_samples as int, 0));
    }
    while gauge.completed < gauge.total
        invariant
            gauge.wf(),
            gauge.total == num_samples,
            num_samples >= 1,
            all_samples(events@),
            percents_monotone(events@),
            percents_at_most(events@, spec_percent(gauge.completed as int, num_samples as int)),
            kind is File ==> percents_at_most(events@, gauge.prev_percent as int),
            kind is File ==> percents_strict(events@),
            kind is File ==> gauge.prev_percent == spec_percent(
                gauge.completed as int,
                num_samples as int,
            ),
            kind is File ==> Seq::new(
                events@.len() as nat,
                |k: int| events@[k]->Sample_percent as int,
            ) =~= emitted_percents(num_samples as int, gauge.completed as int),
            kind is File ==> events@.len() <= gauge.completed,
            kind is Screen ==> events@.len() == gauge.completed,
            kind is Discard ==> events@.len() == 0,
            kind is File ==> lines@.len() == gauge.completed,
            !(kind is File) ==> lines@.len() == 0,
            forall|i: int| 0 <= i < lines@.len() ==> is_sample_line((#[trigger] lines@[i])@),
            kind is Screen ==> forall|i: int|
                0 <= i < events@.len() ==> is_sample_line((#[trigger] events@[i])->Sample_line@),
            kind is Screen ==> forall|i: int|
                0 <= i < events@.len() ==> (#[trigger] events@[i])->Sample_percent == spec_percent(
                    i + 1,
                    num_samples as int,
                ),
            kind is File ==> forall|i: int|
                0 <= i < events@.len() ==> (#[trigger] events@[i])->Sample_line@.len() == 0,
        decreases gauge.total - gauge.completed,
    {
        let line = match get_entropy_sample() {
            Ok(l) => l,
            Err(e) => {
                return Err(e);
            },
        };
        let ghost c0 = gauge.completed as int;
        let (p, emit) = gauge.advance();
        proof {
            lemma_percent_bounds(c0, c0 + 1, num_samples as int);
        }
        match kind {
            SinkKind::File => {
                lines.push(line);
                if emit {
                    let ev = CollectEvent::Sample { line: String::new(), percent: p };
                    events.push(ev);
                }
                proof {
                    assert(Seq::new(
                        events@.len() as nat,
                        |k: int| events@[k]->Sample_percent as int,
                    ) =~= emitted_percents(num_samples as int, c0 + 1));
                }
            },
            SinkKind::Screen => {
                let ev = CollectEvent::Sample { line, percent: p };
                events.push(ev);
            },
            SinkKind::Discard => {},
        }
    }
    events.push(CollectEvent::Finished);
    proof {
        assert(events@.last() is Finished);
        lemma_percent_bounds(num_samples as int, num_samples as int, num_samples as int);
        if kind is File {
            assert(run_sample_percents(events@) =~= emitted_percents(
                num_samples as int,
                num_samples as int,
            ));
        }
    }
    Ok(CollectionOutput { lines, events })
}

/// What one accepted serial sample obliges the caller to do: the record
/// owed to the file sink, the progress event owed to the observer, and
/// the kernel pool record owed to the injector, each when applicable.
pub struct SerialStep {
    /// The record to append to the output file, for a file destination.
    pub write_line: Option<String>,
    /// The progress event to deliver, per destination and throttle.
    pub event: Option<CollectEvent>,
    /// The kernel pool record to inject, when injection was requested.
    pub inject_entry: Option<KernelPoolEntry>,
}

/// The per-line decision core of a serial-device collection run.  The
/// unverified shell owns the device and the sinks; it feeds every line it
/// reads to `on_line` and performs exactly the actions handed back, until
/// `done`.
pub struct SerialCollector {
    /// Progress and throttle state.
    pub gauge: ProgressGauge,
    /// Where accepted samples go.
    pub kind: SinkKind,
    /// Whether each sample is also pushed into the kernel entropy pool.
    pub inject: bool,
    /// Empty or timed-out reads still tolerated; `None` retries without
    /// bound.
    pub retry_budget: Option<u32>,
}

impl SerialCollector {
    /// The collector counts toward a positive total.
    pub open spec fn wf(&self) -> bool {
        self.gauge.wf()
    }

    /// Samples accepted so far.
    pub open spec fn completed(&self) -> int {
        self.gauge.completed as int
    }

    /// Samples the run will accept in total.
    pub open spec fn total(&self) -> int {
        self.gauge.total as int
    }

    /// A fresh collector for a run of `num_samples` samples, retrying
    /// empty reads without bound.
    pub fn new(num_samples: usize, kind: SinkKind, inject: bool) -> (c: SerialCollector)
        requires
            num_samples >= 1,
        ensures
            c.wf(),
            c.total() == num_samples,
            c.completed() == 0,
            c.kind == kind,
            c.inject == inject,
            c.gauge.prev_percent == 0,
            c.retry_budget is None,
    {
        SerialCollector {
            gauge: ProgressGauge::new(num_samples),
            kind,
            inject,
            retry_budget: None,
        }
    }

    /// Bounds how many empty or timed-out reads the whole run tolerates,
    /// closing the unbounded wait that reading a fixed number of samples
    /// from a silent device otherwise allows.
    pub fn with_retry_budget(self, budget: u32) -> (c: SerialCollector)
        ensures
            c.gauge == self.gauge,
            c.kind == self.kind,
            c.inject == self.inject,
            c.retry_budget == Some(budget),
    {
        SerialCollector { retry_budget: Some(budget), ..self }
    }

    /// Records one empty or timed-out read.  Returns whether the run may
    /// keep waiting: always under an unlimited budget, and otherwise
    /// until the configured number of empty reads is spent.
    pub fn on_empty_read(&mut self) -> (r: bool)
        ensures
            final(self).gauge == old(self).gauge,
            final(self).kind == old(self).kind,
            final(self).inject == old(self).inject,
            old(self).retry_budget is None ==> r && final(self).retry_budget is None,
            old(self).retry_budget is Some && old(self).retry_budget->Some_0 > 0 ==> r
                && final(self).retry_budget == Some((old(self).retry_budget->Some_0 - 1) as u32),
            old(self).retry_budget == Some(0u32) ==> !r && final(self).retry_budget
                == Some(0u32),
    {
        match self.retry_budget {
            None => true,
            Some(b) => {
                if b > 0 {
                    self.retry_budget = Some(b - 1);
                    true
                } else {
                    false
                }
            },
        }
    }

    /// All requested samples have been accepted.
    pub fn done(&self) -> (r: bool)
        ensures
            r == (self.completed() == self.total()),
    {
        self.gauge.done()
    }

    /// Accepts one line read from the serial device and decides what it
    /// obliges the caller to do.  A line too large for the kernel pool
    /// record is rejected, the run's state unchanged, when injection is
    /// on; otherwise the sample counts, and the step carries the file
    /// record, the throttled progress event and the injection record the
    /// destination and flags call for.
    pub fn on_line(&mut self, line: String) -> (r: Result<SerialStep, CollectError>)
        requires
            old(self).wf(),
            old(self).completed() < old(self).total(),
        ensures
            final(self).kind == old(self).kind,
            final(self).inject == old(self).inject,
            final(self).retry_budget == old(self).retry_budget,
            final(self).total() == old(self).total(),
            final(self).wf(),
            r is Ok <==> !(old(self).inject && encode_utf8(line@).len() > POOL_BUF_CAPACITY),
            r is Err ==> r->Err_0 is OversizedSample && *final(self) == *old(self),
            r matches Ok(step) ==> ({
                &&& final(self).completed() == old(self).completed() + 1
                &&& old(self).gauge.prev_percent <= final(self).gauge.prev_percent
                &&& (old(self).kind is File ==> step.write_line is Some
                    && step.write_line->Some_0@ == line@)
                &&& (!(old(self).kind is File) ==> step.write_line is None)
                &&& (old(self).kind is File ==> ({
                    &&& (step.event is Some <==> spec_percent(
                        final(self).completed(),
                        final(self).total(),
                    ) > old(self).gauge.prev_percent)
                    &&& (step.event is Some ==> step.event->Some_0 is Sample
                        && step.event->Some_0->Sample_percent == spec_percent(
                        final(self).completed(),
                        final(self).total(),
                    ) && step.event->Some_0->Sample_line@.len() == 0)
                }))
                &&& (old(self).kind is Screen ==> step.event is Some
                    && step.event->Some_0 is Sample && step.event->Some_0->Sample_line@ == line@
                    && step.event->Some_0->Sample_percent == spec_percent(
                    final(self).completed(),
                    final(self).total(),
                ))
                &&& (old(self).kind is Discard ==> step.event is None)
                &&& (old(self).inject ==> ({
                    &&& step.inject_entry is Some
                    &&& step.inject_entry->Some_0.wf()
                    &&& step.inject_entry->Some_0.buf_size == encode_utf8(line@).len()
                    &&& step.inject_entry->Some_0.entropy_count == 8 * encode_utf8(line@).len()
                    &&& step.inject_entry->Some_0.buf@.subrange(
                        0,
                        encode_utf8(line@).len() as int,
                    ) == encode_utf8(line@)
                }))
                &&& (!old(self).inject ==> step.inject_entry is None)
            }),
    {
        let bytes = line.as_str().as_bytes_vec();
        if self.inject && bytes.len() > POOL_BUF_CAPACITY {
            return Err(CollectError::OversizedSample);
        }
        let inject_entry: Option<KernelPoolEntry> = if self.inject {
            match KernelPoolEntry::from_sample(bytes.as_slice()) {
                Ok(e) => Some(e),
                Err(e) => {
                    return Err(e);
                },
            }
        } else {
            None
        };
        let (p, emit) = self.gauge.advance();
        let step = match self.kind {
            SinkKind::File => SerialStep {
                write_line: Some(line),
                event: if emit {
                    Some(CollectEvent::Sample { line: String::new(), percent: p })
                } else {
                    None
                },
                inject_entry,
            },
            SinkKind::Screen => SerialStep {
                write_line: None,
                event: Some(CollectEvent::Sample { line, percent: p }),
                inject_entry,
            },
            SinkKind::Discard => SerialStep { write_line: None, event: None, inject_entry },
        };
        Ok(step)
    }
}

} // verus!
