//! Turning what the threads reported into the result of a run.
use vstd::prelude::*;
use crate::memory::{MemorySample, peak_of, average_of};

verus! {

/// The sum of the workers' operation counts.
pub open spec fn total_ops(s: Seq<u64>) -> int
    decreases s.len(),
{
    if s.len() == 0 {
        0
    } else {
        total_ops(s.drop_last()) + s.last()
    }
}

/// The figures of one run.
#[derive(PartialEq, Eq, Debug, Clone, Copy, Structural)]
pub struct RunResult {
    /// Operations per second, rounded down.
    pub throughput: u64,
    /// Largest allocated-bytes reading; zero when memory was not sampled.
    pub peak_mem: usize,
    /// Average allocated-bytes reading; zero when memory was not sampled.
    pub avg_mem: usize,
}

/// The operations of all workers per second of a run of `interval` seconds,
/// by integer division.
pub fn throughput(counts: &Vec<u64>, interval: u64) -> (r: u64)
    requires
        interval > 0,
        total_ops(counts@) <= u64::MAX,
    ensures
        r == total_ops(counts@) / (interval as int),
{
    let mut sum: u64 = 0;
    let mut i: usize = 0;
    while i < counts.len()
        invariant
            i <= counts@.len(),
            sum == total_ops(counts@.subrange(0, i as int)),
            total_ops(counts@) <= u64::MAX,
        decreases counts@.len() - i,
    {
        proof {
            lemma_total_ops_prefix(counts@, i as int + 1);
            assert(counts@.subrange(0, i as int + 1).drop_last() =~= counts@.subrange(0, i as int));
        }
        sum = sum + counts[i];
        i = i + 1;
    }
    proof {
        assert(counts@.subrange(0, i as int) =~= counts@);
    }
    sum / interval
}

proof fn lemma_total_ops_prefix(s: Seq<u64>, n: int)
    requires
        0 <= n <= s.len(),
    ensures
        0 <= total_ops(s.subrange(0, n)) <= total_ops(s),
    decreases s.len(),
{
    if s.len() > 0 {
        if n == s.len() {
            assert(s.subrange(0, n) =~= s);
            lemma_total_ops_nonneg(s);
        } else {
            lemma_total_ops_prefix(s.drop_last(), n);
            assert(s.drop_last().subrange(0, n) =~= s.subrange(0, n));
        }
    }
}

proof fn lemma_total_ops_nonneg(s: Seq<u64>)
    ensures
        total_ops(s) >= 0,
    decreases s.len(),
{
    if s.len() > 0 {
        lemma_total_ops_nonneg(s.drop_last());
    }
}

/// The peak and average memory of a run: those of the readings when memory
/// was sampled, zero and zero when it was not.
pub fn memory_figures(sampling: bool, sample: &MemorySample) -> (r: (usize, usize))
    requires
        sample.wf(),
    ensures
        !sampling ==> r == (0usize, 0usize),
        sampling ==> r.0 == peak_of(sample@) && r.1 == average_of(sample@),
        r.1 <= r.0,
{
    if sampling {
        sample.peak_and_average()
    } else {
        (0, 0)
    }
}

impl RunResult {
    /// The result of a run of `interval` seconds from the workers' operation
    /// counts and the auxiliary thread's memory figures (zero and zero when
    /// there was no auxiliary thread).
    pub fn collect(counts: &Vec<u64>, interval: u64, memory: (usize, usize)) -> (r: RunResult)
        requires
            interval > 0,
            total_ops(counts@) <= u64::MAX,
        ensures
            r.throughput == total_ops(counts@) / (interval as int),
            r.peak_mem == memory.0,
            r.avg_mem == memory.1,
    {
        RunResult { throughput: throughput(counts, interval), peak_mem: memory.0, avg_mem: memory.1 }
    }

    /// As `collect`, for any counts: `None` exactly when their sum does not
    /// fit in a `u64`.
    pub fn try_collect(counts: &Vec<u64>, interval: u64, memory: (usize, usize)) -> (r: Option<
        RunResult,
    >)
        requires
            interval > 0,
        ensures
            r.is_none() <==> total_ops(counts@) > u64::MAX,
            r.is_some() ==> r.unwrap().throughput == total_ops(counts@) / (interval as int)
                && r.unwrap().peak_mem == memory.0 && r.unwrap().avg_mem == memory.1,
    {
        let mut sum: u64 = 0;
        let mut i: usize = 0;
        while i < counts.len()
            invariant
                i <= counts@.len(),
                sum == total_ops(counts@.subrange(0, i as int)),
            decreases counts@.len() - i,
        {
            proof {
                assert(counts@.subrange(0, i as int + 1).drop_last() =~= counts@.subrange(0, i as int));
            }
            match sum.checked_add(counts[i]) {
                Some(t) => sum = t,
                None => {
                    proof {
                        lemma_total_ops_prefix(counts@, i as int + 1);
                    }
                    return None;
                }
            }
            i = i + 1;
        }
        proof {
            assert(counts@.subrange(0, i as int) =~= counts@);
        }
        Some(RunResult::collect(counts, interval, memory))
    }
}

} // verus!
