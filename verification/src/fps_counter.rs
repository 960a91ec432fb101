//! Fixed-capacity ring buffer of recent frame times, feeding the averaged
//! FPS / frame-time readout of the HUD.
//!
//! Frame deltas are recorded in nanoseconds. The averages are returned as
//! exact ratios of integers (numerator, denominator) so that no precision
//! is lost inside the library; turning a ratio into a floating-point number
//! for display is left to the caller.

use vstd::prelude::*;
use std::collections::VecDeque;

verus! {

/// Capacity of the ring buffer: the number of recent samples the averages
/// are computed over.
pub const MAX_FRAME_TIMES: usize = 256;

/// Sum of a sequence of frame deltas, as a mathematical integer.
pub open spec fn sum_of(s: Seq<u64>) -> int
    decreases s.len(),
{
    if s.len() == 0 {
        0
    } else {
        sum_of(s.drop_last()) + s.last()
    }
}

/// Fixed-capacity FIFO of the most recent frame times, in nanoseconds.
pub struct FpsCounter {
    frame_times: VecDeque<u64>,
}

impl View for FpsCounter {
    type V = Seq<u64>;

    closed spec fn view(&self) -> Seq<u64> {
        self.frame_times@
    }
}

impl FpsCounter {
    /// The buffer never holds more samples than its capacity.
    pub open spec fn wf(&self) -> bool {
        self@.len() <= MAX_FRAME_TIMES
    }

    pub fn new() -> (r: Self)
        ensures
            r@ == Seq::<u64>::empty(),
            r.wf(),
    {
        Self { frame_times: VecDeque::with_capacity(MAX_FRAME_TIMES) }
    }

    /// Records one frame's elapsed time in nanoseconds. Once at capacity,
    /// the oldest sample is evicted before the newest is inserted, so the
    /// buffer is strictly FIFO and never exceeds `MAX_FRAME_TIMES` samples.
    pub fn update(&mut self, delta_time: u64)
        requires
            old(self).wf(),
        ensures
            final(self)@ == if old(self)@.len() >= MAX_FRAME_TIMES {
                old(self)@.drop_first().push(delta_time)
            } else {
                old(self)@.push(delta_time)
            },
            final(self).wf(),
    {
        if self.frame_times.len() >= MAX_FRAME_TIMES {
            self.frame_times.pop_front();
        }
        self.frame_times.push_back(delta_time);
        proof {
            assert(old(self)@.len() >= MAX_FRAME_TIMES ==> self@ =~= old(
                self,
            )@.drop_first().push(delta_time));
        }
    }

    /// Number of samples currently held.
    pub fn len(&self) -> (r: usize)
        ensures
            r == self@.len(),
    {
        self.frame_times.len()
    }

    /// Total of the held frame deltas, in nanoseconds.
    pub fn total_nanos(&self) -> (r: u128)
        requires
            self.wf(),
        ensures
            r == sum_of(self@),
    {
        let n = self.frame_times.len();
        let mut sum: u128 = 0;
        let mut i: usize = 0;
        proof {
            assert(self@.take(0) =~= Seq::<u64>::empty());
        }
        while i < n
            invariant
                i <= n,
                n == self@.len() <= MAX_FRAME_TIMES,
                sum == sum_of(self@.take(i as int)),
                sum <= i * (u64::MAX as int),
            decreases n - i,
        {
            let d = self.frame_times[i];
            proof {
                assert(self@.take(i + 1).drop_last() =~= self@.take(i as int));
                assert(self@.take(i + 1).last() == self@[i as int]);
                assert((i + 1) * (u64::MAX as int) == i * (u64::MAX as int) + u64::MAX)
                    by (nonlinear_arith);
            }
            sum = sum + d as u128;
            i = i + 1;
        }
        proof {
            assert(self@.take(n as int) =~= self@);
        }
        sum
    }

    /// Average frames per second over the held samples, as the exact ratio
    /// `frames / nanoseconds`. Returns `None` when there are no samples or
    /// the deltas sum to zero, the cases where the average is undefined.
    pub fn average_fps(&self) -> (r: Option<(u64, u128)>)
        requires
            self.wf(),
        ensures
            self@.len() == 0 || sum_of(self@) == 0 ==> r is None,
            self@.len() > 0 && sum_of(self@) > 0 ==> r == Some(
                (self@.len() as u64, sum_of(self@) as u128),
            ),
    {
        let n = self.frame_times.len();
        let sum = self.total_nanos();
        if n == 0 || sum == 0 {
            None
        } else {
            Some((n as u64, sum))
        }
    }

    /// Average frame time over the held samples, as the exact ratio
    /// `nanoseconds / frames` (the arithmetic mean of the held deltas).
    /// Returns `None` when there are no samples.
    pub fn average_frame_time(&self) -> (r: Option<(u128, u64)>)
        requires
            self.wf(),
        ensures
            self@.len() == 0 ==> r is None,
            self@.len() > 0 ==> r == Some((sum_of(self@) as u128, self@.len() as u64)),
    {
        let n = self.frame_times.len();
        if n == 0 {
            None
        } else {
            let sum = self.total_nanos();
            Some((sum, n as u64))
        }
    }
}

} // verus!
