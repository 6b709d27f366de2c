//! Accumulating readings of the allocator's allocated-bytes counter.
use vstd::prelude::*;

verus! {

pub open spec fn sum_of(s: Seq<usize>) -> int
    decreases s.len(),
{
    if s.len() == 0 {
        0
    } else {
        sum_of(s.drop_last()) + s.last()
    }
}

/// The largest reading, or zero when there is none.
pub open spec fn peak_of(s: Seq<usize>) -> int
    decreases s.len(),
{
    if s.len() == 0 {
        0
    } else {
        let p = peak_of(s.drop_last());
        if s.last() > p { s.last() as int } else { p }
    }
}

/// The average reading rounded down, or zero when there is none.
pub open spec fn average_of(s: Seq<usize>) -> int {
    if s.len() == 0 {
        0
    } else {
        sum_of(s) / (s.len() as int)
    }
}

proof fn lemma_sum_bounded_by_peak(s: Seq<usize>)
    ensures
        0 <= sum_of(s) <= s.len() * peak_of(s),
        0 <= peak_of(s) <= usize::MAX,
    decreases s.len(),
{
    if s.len() > 0 {
        let t = s.drop_last();
        lemma_sum_bounded_by_peak(t);
        assert(t.len() * peak_of(t) <= t.len() * peak_of(s)) by (nonlinear_arith)
            requires
                peak_of(t) <= peak_of(s),
                t.len() >= 0,
        ;
        assert(s.len() * peak_of(s) == t.len() * peak_of(s) + peak_of(s)) by (nonlinear_arith)
            requires
                s.len() == t.len() + 1,
        ;
    }
}

/// The average of the readings never exceeds their peak, and neither is
/// negative.
pub proof fn lemma_average_at_most_peak(s: Seq<usize>)
    ensures
        0 <= average_of(s) <= peak_of(s),
{
    lemma_sum_bounded_by_peak(s);
    if s.len() > 0 {
        let n = s.len() as int;
        assert(sum_of(s) / n <= peak_of(s)) by (nonlinear_arith)
            requires
                0 <= sum_of(s) <= n * peak_of(s),
                n > 0,
        ;
        assert(sum_of(s) / n >= 0) by (nonlinear_arith)
            requires
                0 <= sum_of(s),
                n > 0,
        ;
    }
}

/// Count, running sum and running maximum of the readings taken so far.
pub struct MemorySample {
    samples: u64,
    acc: u128,
    peak: usize,
    readings: Ghost<Seq<usize>>,
}

impl MemorySample {
    /// The readings taken so far, oldest first.
    pub closed spec fn view(&self) -> Seq<usize> {
        self.readings@
    }

    pub closed spec fn wf(&self) -> bool {
        &&& self.samples == self.readings@.len()
        &&& self.acc == sum_of(self.readings@)
        &&& self.peak == peak_of(self.readings@)
    }

    pub fn new() -> (r: MemorySample)
        ensures
            r.wf(),
            r@ == Seq::<usize>::empty(),
    {
        MemorySample { samples: 0, acc: 0, peak: 0, readings: Ghost(Seq::empty()) }
    }

    /// The number of readings taken.
    pub fn samples(&self) -> (r: u64)
        requires
            self.wf(),
        ensures
            r == self@.len(),
    {
        self.samples
    }

    /// Adds one reading.
    pub fn record(&mut self, allocated: usize)
        requires
            old(self).wf(),
            old(self)@.len() < u64::MAX,
        ensures
            final(self).wf(),
            final(self)@ == old(self)@.push(allocated),
    {
        let ghost s = self.readings@.push(allocated);
        proof {
            assert(s.drop_last() =~= self.readings@);
            lemma_sum_bounded_by_peak(self.readings@);
            assert(self.samples * peak_of(self.readings@) <= (u64::MAX as int) * (usize::MAX as int))
                by (nonlinear_arith)
                requires
                    0 <= self.samples <= u64::MAX,
                    0 <= peak_of(self.readings@) <= usize::MAX,
            ;
        }
        self.samples = self.samples + 1;
        self.acc = self.acc + allocated as u128;
        if allocated > self.peak {
            self.peak = allocated;
        }
        self.readings = Ghost(s);
    }

    /// The peak and the average of the readings, both zero when there is none.
    pub fn peak_and_average(&self) -> (r: (usize, usize))
        requires
            self.wf(),
        ensures
            r.0 == peak_of(self@),
            r.1 == average_of(self@),
            r.1 <= r.0,
    {
        proof {
            lemma_average_at_most_peak(self.readings@);
        }
        if self.samples == 0 {
            (self.peak, 0)
        } else {
            let avg = self.acc / (self.samples as u128);
            (self.peak, avg as usize)
        }
    }
}

} // verus!
