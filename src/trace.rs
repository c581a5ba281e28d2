//! The ring of frame periods, indexed like the raster's columns.
use vstd::prelude::*;

verus! {

/// A fixed-length ring of elapsed times between ticks, in nanoseconds of a
/// monotonic clock. The clock reading of the previous tick starts at 0, so
/// the first period recorded is the time since the clock's origin.
pub struct PeriodTrace {
    periods: Vec<u64>,
    last: u64,
}

impl PeriodTrace {
    pub closed spec fn spec_periods(&self) -> Seq<u64> {
        self.periods@
    }

    /// Clock reading of the most recent tick (0 before the first).
    pub closed spec fn spec_last(&self) -> u64 {
        self.last
    }

    /// A ring of `len` zero periods.
    pub fn new(len: usize) -> (r: PeriodTrace)
        ensures
            r.spec_periods() == Seq::new(len as nat, |i: int| 0u64),
            r.spec_last() == 0,
    {
        let mut periods: Vec<u64> = Vec::with_capacity(len);
        let mut i: usize = 0;
        while i < len
            invariant
                i <= len,
                periods@ =~= Seq::new(i as nat, |k: int| 0u64),
            decreases len - i,
        {
            periods.push(0);
            i = i + 1;
        }
        PeriodTrace { periods, last: 0 }
    }

    pub fn len(&self) -> (r: usize)
        ensures
            r == self.spec_periods().len(),
    {
        self.periods.len()
    }

    pub fn period(&self, i: usize) -> (r: u64)
        requires
            i < self.spec_periods().len(),
        ensures
            r == self.spec_periods()[i as int],
    {
        self.periods[i]
    }

    pub fn last_timestamp(&self) -> (r: u64)
        ensures
            r == self.spec_last(),
    {
        self.last
    }

    /// Stores the time since the previous tick at slot `c` and remembers `now`.
    pub fn record(&mut self, c: usize, now: u64)
        requires
            c < old(self).spec_periods().len(),
            old(self).spec_last() <= now,
        ensures
            final(self).spec_periods() == old(self).spec_periods().update(
                c as int,
                (now - old(self).spec_last()) as u64,
            ),
            final(self).spec_last() == now,
    {
        let elapsed: u64 = now - self.last;
        self.periods.set(c, elapsed);
        self.last = now;
    }
}

} // verus!
