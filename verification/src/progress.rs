//! Progress reporting for a collection run: the event type delivered to the
//! observer and the gauge that computes whole-number completion percentages
//! and applies the file-destination throttling policy.

use vstd::prelude::*;

verus! {

/// One notification to the external observer of a collection run.
///
/// `percent` is a whole-number completion percentage in `0..=100`; within
/// one run the percentages of successive `Sample` events never decrease.
/// Exactly one terminal event (`Finished` or `Error`) belongs to a run.
#[derive(Clone, Debug)]
pub enum CollectEvent {
    /// One sample was collected.  `line` carries the sample text only when
    /// the screen is the destination; otherwise it is empty.
    Sample { line: String, percent: u8 },
    /// The run completed successfully.
    Finished,
    /// The run failed; `message` describes the failure.
    Error { message: String },
}

/// The completion percentage after `completed` of `total` samples,
/// rounded down to a whole percent.
pub open spec fn spec_percent(completed: int, total: int) -> int {
    completed * 100 / total
}

/// The percentage is bounded by 100 and never decreases as samples
/// complete.
pub proof fn lemma_percent_bounds(c1: int, c2: int, total: int)
    requires
        1 <= total,
        0 <= c1 <= c2 <= total,
    ensures
        0 <= spec_percent(c1, total) <= spec_percent(c2, total) <= 100,
{
    vstd::arithmetic::mul::lemma_mul_inequality(c1, c2, 100);
    vstd::arithmetic::mul::lemma_mul_inequality(c2, total, 100);
    vstd::arithmetic::div_mod::lemma_div_is_ordered(c1 * 100, c2 * 100, total);
    vstd::arithmetic::div_mod::lemma_div_is_ordered(c2 * 100, total * 100, total);
    vstd::arithmetic::div_mod::lemma_div_multiples_vanish(100, total);
    vstd::arithmetic::div_mod::lemma_div_pos_is_pos(c1 * 100, total);
}

/// Computes the whole-number completion percentage.
pub fn percent_done(completed: usize, total: usize) -> (r: u8)
    requires
        1 <= total,
        completed <= total,
    ensures
        r == spec_percent(completed as int, total as int),
        r <= 100,
{
    proof {
        lemma_percent_bounds(completed as int, completed as int, total as int);
    }
    let p: u128 = (completed as u128) * 100 / (total as u128);
    p as u8
}

/// Per-run progress state: how many samples are done and the percentage at
/// which a `Sample` event was last emitted.
pub struct ProgressGauge {
    /// Samples the run will collect in total.
    pub total: usize,
    /// Samples collected so far.
    pub completed: usize,
    /// Percentage carried by the most recently emitted `Sample` event.
    pub prev_percent: u8,
}

impl ProgressGauge {
    /// The gauge counts toward a positive total and the emission mark never
    /// runs ahead of the true percentage.
    pub open spec fn wf(&self) -> bool {
        &&& 1 <= self.total
        &&& self.completed <= self.total
        &&& self.prev_percent <= spec_percent(self.completed as int, self.total as int)
    }

    /// A fresh gauge for a run of `total` samples.
    pub fn new(total: usize) -> (g: ProgressGauge)
        requires
            total >= 1,
        ensures
            g.wf(),
            g.total == total,
            g.completed == 0,
            g.prev_percent == 0,
    {
        ProgressGauge { total, completed: 0, prev_percent: 0 }
    }

    /// All requested samples have been collected.
    pub fn done(&self) -> (r: bool)
        ensures
            r == (self.completed == self.total),
    {
        self.completed == self.total
    }

    /// Records one completed sample.  Returns the new percentage and
    /// whether the file-destination throttling policy calls for a `Sample`
    /// event: only when the percentage advanced by at least one whole point
    /// since the last emission.
    pub fn advance(&mut self) -> (r: (u8, bool))
        requires
            old(self).wf(),
            old(self).completed < old(self).total,
        ensures
            final(self).wf(),
            final(self).total == old(self).total,
            final(self).completed == old(self).completed + 1,
            r.0 == spec_percent(final(self).completed as int, final(self).total as int),
            r.0 <= 100,
            r.1 == (r.0 > old(self).prev_percent),
            final(self).prev_percent == if r.1 {
                r.0
            } else {
                old(self).prev_percent
            },
            old(self).prev_percent <= final(self).prev_percent,
    {
        proof {
            lemma_percent_bounds(
                old(self).completed as int,
                old(self).completed + 1,
                old(self).total as int,
            );
        }
        self.completed = self.completed + 1;
        let p = percent_done(self.completed, self.total);
        let emit = p > self.prev_percent;
        if emit {
            self.prev_percent = p;
        }
        (p, emit)
    }
}

} // verus!
