//! When a worker renews its guard, and what the auxiliary thread does at each
//! wake-up. The threads themselves run the loops; these types decide.
use vstd::prelude::*;
use crate::config::{BenchConfig, OpsPerCs, SLOW_REPIN_MS, MAX_SECS, MAX_PERIOD_MS};

verus! {

/// Counts a worker's completed operations and says when its critical section
/// ends.
pub struct WorkerSchedule {
    pub ops: u64,
    pub per_cs: u64,
    pub renewals: u64,
}

impl WorkerSchedule {
    pub open spec fn wf(self) -> bool {
        &&& self.per_cs > 0
        &&& self.renewals == self.ops / self.per_cs
    }

    pub fn new(batch: OpsPerCs) -> (r: WorkerSchedule)
        ensures
            r.wf(),
            r.ops == 0,
            r.renewals == 0,
            r.per_cs == batch.count_spec(),
    {
        WorkerSchedule { ops: 0, per_cs: batch.count(), renewals: 0 }
    }

    /// Records one completed operation; true when the guard is to be renewed
    /// now, that is after every `per_cs`-th operation.
    pub fn complete_op(&mut self) -> (renew: bool)
        requires
            old(self).wf(),
            old(self).ops < u64::MAX,
        ensures
            final(self).wf(),
            final(self).per_cs == old(self).per_cs,
            final(self).ops == old(self).ops + 1,
            renew == (final(self).ops % final(self).per_cs == 0),
            final(self).renewals == old(self).renewals + (if renew { 1int } else { 0int }),
    {
        proof {
            lemma_renewal_once_per_batch(self.ops as int, self.per_cs as int);
        }
        self.ops = self.ops + 1;
        let renew = self.ops % self.per_cs == 0;
        if renew {
            self.renewals = self.renewals + 1;
        }
        renew
    }

    pub open spec fn at_boundary(self) -> bool {
        self.ops % self.per_cs == 0
    }

    /// Whether the worker goes on with another operation once it knows
    /// whether the run's time is up: it stops only between two critical
    /// sections, so a batch is never cut short.
    pub fn keep_running(&self, expired: bool) -> (r: bool)
        requires
            self.wf(),
        ensures
            r == !(expired && self.at_boundary()),
            !r ==> self.ops == self.renewals * self.per_cs,
    {
        proof {
            assert(self.ops % self.per_cs == 0 ==> self.ops == (self.ops / self.per_cs) * self.per_cs)
                by (nonlinear_arith)
                requires
                    self.per_cs > 0,
            ;
        }
        !(expired && self.ops % self.per_cs == 0)
    }
}

/// After `n + 1` operations in batches of `k`, one more guard renewal has
/// happened than after `n` exactly when operation `n + 1` closes a batch:
/// renewals come once per `k` completed operations, never inside a batch.
pub proof fn lemma_renewal_once_per_batch(n: int, k: int)
    requires
        n >= 0,
        k > 0,
    ensures
        (n + 1) / k == n / k + (if (n + 1) % k == 0 { 1int } else { 0int }),
        (n + 1) / k <= n + 1,
{
    assert((n + 1) / k == n / k + (if (n + 1) % k == 0 { 1int } else { 0int })) by (nonlinear_arith)
        requires
            n >= 0,
            k > 0,
    ;
    assert((n + 1) / k <= n + 1) by (nonlinear_arith)
        requires
            n >= 0,
            k > 0,
    ;
}

/// What the auxiliary thread does at one wake-up.
#[derive(PartialEq, Eq, Debug, Clone, Copy, Structural)]
pub struct AuxAction {
    /// Advance the allocator's statistics epoch and read the allocated bytes.
    pub sample: bool,
    /// Renew the guard that the thread holds.
    pub renew: bool,
}

/// The timers of the auxiliary thread. Times are milliseconds since the
/// start barrier released the thread.
pub struct AuxSchedule {
    pub duration: u64,
    pub non_coop: usize,
    pub sampling: bool,
    pub sampling_period: u64,
    pub repin_period: u64,
    pub next_sampling: u64,
    pub next_repin: u64,
    pub last_renewal: u64,
}

impl AuxSchedule {
    pub open spec fn wf(self) -> bool {
        &&& self.non_coop <= 2
        &&& self.duration <= MAX_SECS * 1000
        &&& self.sampling_period <= MAX_PERIOD_MS
        &&& self.repin_period == (if self.non_coop == 1 { SLOW_REPIN_MS } else { self.duration })
        &&& self.non_coop != 1 ==> self.next_repin == self.duration
        &&& self.non_coop == 1 ==> self.next_repin == self.last_renewal + SLOW_REPIN_MS
    }

    /// Whether the thread holds a guard through the run; with no
    /// non-cooperation it releases it at once and only samples.
    pub open spec fn holds_guard(self) -> bool {
        self.non_coop > 0
    }

    pub open spec fn sample_due(self, now: u64) -> bool {
        self.sampling && now > self.next_sampling
    }

    pub open spec fn renew_due(self, now: u64) -> bool {
        self.holds_guard() && now > self.next_repin
    }

    pub fn new(config: &BenchConfig) -> (r: AuxSchedule)
        requires
            config.wf(),
        ensures
            r.wf(),
            r.duration == config.duration_ms_spec(),
            r.non_coop == config.guard_level_spec(),
            r.sampling == config.sampling_spec(),
            r.sampling_period == config.sampling_period_ms,
            r.repin_period == config.repin_period_ms_spec(),
            r.next_sampling == config.sampling_period_ms,
            r.next_repin == config.repin_period_ms_spec(),
            r.last_renewal == 0,
    {
        let repin_period = config.repin_period_ms();
        AuxSchedule {
            duration: config.duration_ms(),
            non_coop: config.guard_level(),
            sampling: config.sampling(),
            sampling_period: config.sampling_period_ms,
            repin_period,
            next_sampling: config.sampling_period_ms,
            next_repin: repin_period,
            last_renewal: 0,
        }
    }

    /// Whether the thread holds a guard through the run.
    pub fn keeps_guard(&self) -> (r: bool)
        ensures
            r == self.holds_guard(),
    {
        self.non_coop > 0
    }

    /// Whether the run is still on after `elapsed` milliseconds.
    pub fn running(&self, elapsed: u64) -> (r: bool)
        ensures
            r == (elapsed < self.duration),
    {
        elapsed < self.duration
    }

    /// Decides what to do at a wake-up `now` milliseconds into the run, and
    /// moves the timers of what is done.
    pub fn tick(&mut self, now: u64) -> (r: AuxAction)
        requires
            old(self).wf(),
            now < old(self).duration,
        ensures
            final(self).wf(),
            r.sample == old(self).sample_due(now),
            r.renew == old(self).renew_due(now),
            final(self).duration == old(self).duration,
            final(self).non_coop == old(self).non_coop,
            final(self).sampling == old(self).sampling,
            final(self).sampling_period == old(self).sampling_period,
            final(self).repin_period == old(self).repin_period,
            final(self).next_sampling == (if r.sample {
                now + old(self).sampling_period
            } else {
                old(self).next_sampling as int
            }),
            final(self).next_repin == (if r.renew {
                now + old(self).repin_period
            } else {
                old(self).next_repin as int
            }),
            final(self).last_renewal == (if r.renew { now } else { old(self).last_renewal }),
    {
        let sample = self.sampling && now > self.next_sampling;
        if sample {
            self.next_sampling = now + self.sampling_period;
        }
        let renew = self.non_coop > 0 && now > self.next_repin;
        if renew {
            self.next_repin = now + self.repin_period;
            self.last_renewal = now;
        }
        AuxAction { sample, renew }
    }
}

/// A reader that never cooperates (level 2) does not renew its guard at any
/// wake-up before the run ends, and its timer stays put.
pub proof fn lemma_stalled_reader_never_renews(s: AuxSchedule, now: u64)
    requires
        s.wf(),
        s.non_coop == 2,
        now < s.duration,
    ensures
        !s.renew_due(now),
        s.next_repin == s.duration,
{
}

/// A slow reader (level 1) renews its guard at the first wake-up more than
/// 10 ms after its last renewal: when wake-ups are at most `wake`
/// milliseconds apart, a renewal comes at most `10 + wake` milliseconds after
/// the one before.
pub proof fn lemma_slow_reader_renewal_gap(s: AuxSchedule, prev: u64, now: u64, wake: u64)
    requires
        s.wf(),
        s.non_coop == 1,
        prev <= now,
        now - prev <= wake,
        !s.renew_due(prev),
    ensures
        s.renew_due(now) <==> now > s.last_renewal + SLOW_REPIN_MS,
        s.renew_due(now) ==> now - s.last_renewal <= SLOW_REPIN_MS + wake,
{
}

} // verus!
