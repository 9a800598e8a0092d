//! The gap tracker: the single source of randomness in the simulation. It
//! keeps a running vertical total inside a fixed navigable band and, on each
//! obstacle recycle, draws a new total from the band and hands out the
//! difference. Collapsing the band to a single value (`lo == hi`) makes the
//! sequence of offsets deterministic, which is the seam tests use.

use crate::num::in_range;
use vstd::prelude::*;

verus! {

/// Produces the vertical offset applied to an obstacle when it recycles,
/// keeping the cumulative offset within `[lo, hi]`.
#[derive(Debug, Clone, Copy, PartialEq, Eq, Structural)]
pub struct PipeTracker {
    /// Lower end of the navigable band for the cumulative offset.
    pub lo: i64,
    /// Upper end of the navigable band for the cumulative offset.
    pub hi: i64,
    /// Cumulative vertical offset handed out so far.
    pub total: i64,
}

/// Relies on rand's `Rng::gen_range` over the inclusive range `lo..=hi`
/// (sampled from `thread_rng`): the sample lies within the range. It panics
/// only on an empty range, which the precondition rules out.
#[verifier::external_body]
fn random_in_range(lo: i64, hi: i64) -> (r: i64)
    requires
        lo <= hi,
    ensures
        lo <= r <= hi,
{
    rand::Rng::gen_range(&mut rand::thread_rng(), lo..=hi)
}

impl PipeTracker {
    /// Well-formedness: a nonempty band of usable coordinates, narrow
    /// enough that any two totals in it differ by a representable amount,
    /// with the running total inside it.
    pub open spec fn wf(self) -> bool {
        &&& in_range(self.lo as int)
        &&& in_range(self.hi as int)
        &&& self.lo <= self.total <= self.hi
        &&& self.hi - self.lo <= i64::MAX
    }

    /// A tracker over the band `[lo, hi]` whose cumulative offset starts at
    /// `start`.
    pub fn new(lo: i64, hi: i64, start: i64) -> (t: PipeTracker)
        requires
            in_range(lo as int),
            in_range(hi as int),
            lo <= start <= hi,
            hi - lo <= i64::MAX,
        ensures
            t == (PipeTracker { lo, hi, total: start }),
            t.wf(),
    {
        PipeTracker { lo, hi, total: start }
    }

    /// Draws the next recycle offset. Whatever the draw, the new cumulative
    /// total stays in the band and the result is exactly the step the total
    /// took, so a collapsed band (`lo == hi`) pins the result completely.
    pub fn get_pipe_difference(&mut self) -> (d: i64)
        requires
            old(self).wf(),
        ensures
            final(self).wf(),
            final(self).lo == old(self).lo,
            final(self).hi == old(self).hi,
            d as int == final(self).total - old(self).total,
            in_range(d as int),
    {
        let target = random_in_range(self.lo, self.hi);
        let d = target - self.total;
        self.total = target;
        d
    }
}

} // verus!
