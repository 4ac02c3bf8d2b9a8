//! Frame-rate bookkeeping over a bounded FIFO of frame durations.
//!
//! The counter keeps at most [`MAX_SAMPLES`] frame durations, in microseconds;
//! inserting a sample beyond the bound evicts the oldest one. The derived rate
//! is the reciprocal of the mean sample, `0` while the history is empty.

use vstd::prelude::*;

verus! {

/// Bound on the frame-duration history; the oldest sample is evicted first.
pub const MAX_SAMPLES: usize = 100;

/// Microseconds per second, the unit conversion in the rate computation.
pub const MICROS_PER_SECOND: u64 = 1_000_000;

/// Sum of a sequence of frame durations, in microseconds.
pub open spec fn sum_micros(s: Seq<u32>) -> int
    decreases s.len(),
{
    if s.len() == 0 {
        0
    } else {
        sum_micros(s.drop_last()) + s.last()
    }
}

/// The frame rate derived from a duration history: the reciprocal of the mean
/// sample, in frames per second, rounded down. An empty history (the startup
/// grace period) and an all-zero history both yield `0`.
pub open spec fn fps_of(s: Seq<u32>) -> int {
    if s.len() == 0 || sum_micros(s) == 0 {
        0
    } else {
        (s.len() * MICROS_PER_SECOND) / sum_micros(s)
    }
}

/// The history after inserting one sample: appended while under the bound,
/// otherwise the oldest sample is dropped first (FIFO eviction).
pub open spec fn history_after_sample(s: Seq<u32>, dt: u32) -> Seq<u32> {
    if s.len() < MAX_SAMPLES {
        s.push(dt)
    } else {
        s.subrange(1, s.len() as int).push(dt)
    }
}

/// Bounded history of frame durations, oldest first.
#[derive(Debug)]
pub struct FpsCounter {
    samples: Vec<u32>,
}

impl View for FpsCounter {
    type V = Seq<u32>;

    closed spec fn view(&self) -> Seq<u32> {
        self.samples@
    }
}

impl FpsCounter {
    /// The history never exceeds its configured bound.
    pub open spec fn wf(&self) -> bool {
        self@.len() <= MAX_SAMPLES
    }

    pub fn new() -> (c: FpsCounter)
        ensures
            c.wf(),
            c@ == Seq::<u32>::empty(),
    {
        let c = FpsCounter { samples: Vec::new() };
        proof {
            assert(c@ =~= Seq::<u32>::empty());
        }
        c
    }

    /// Record one frame duration, evicting the oldest sample when the bound
    /// is already reached.
    pub fn tick(&mut self, dt_micros: u32)
        requires
            old(self).wf(),
        ensures
            final(self).wf(),
            final(self)@ == history_after_sample(old(self)@, dt_micros),
            final(self)@.len() <= MAX_SAMPLES,
            final(self)@.len() == if old(self)@.len() < MAX_SAMPLES {
                old(self)@.len() as int + 1
            } else {
                old(self)@.len() as int
            },
    {
        if self.samples.len() == MAX_SAMPLES {
            self.samples.remove(0);
            proof {
                assert(self.samples@ =~= old(self)@.subrange(1, old(self)@.len() as int));
            }
        }
        self.samples.push(dt_micros);
    }

    /// The number of samples currently held.
    pub fn sample_count(&self) -> (n: usize)
        ensures
            n == self@.len(),
    {
        self.samples.len()
    }

    /// The derived frame rate: `0` on an empty history, otherwise the
    /// reciprocal of the mean frame duration, in frames per second.
    pub fn fps(&self) -> (r: u64)
        requires
            self.wf(),
        ensures
            r == fps_of(self@),
    {
        let n = self.samples.len();
        if n == 0 {
            return 0;
        }

        let mut sum: u64 = 0;
        let mut i: usize = 0;
        while i < n
            invariant
                n == self@.len(),
                n <= MAX_SAMPLES,
                i <= n,
                sum == sum_micros(self@.subrange(0, i as int)),
                sum <= i * (u32::MAX as int),
            decreases n - i,
        {
            proof {
                assert(self@.subrange(0, i + 1).drop_last() =~= self@.subrange(0, i as int));
                assert(self@.subrange(0, i + 1).last() == self@[i as int]);
            }
            sum = sum + self.samples[i] as u64;
            i = i + 1;
        }
        proof {
            assert(self@.subrange(0, n as int) =~= self@);
        }

        if sum == 0 {
            return 0;
        }
        (n as u64 * MICROS_PER_SECOND) / sum
    }
}

} // verus!
