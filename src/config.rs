//! The parameters of one benchmark run, and what follows from them.
use vstd::prelude::*;
use crate::workload::OpWeights;

verus! {

/// The concurrent map under test.
#[derive(PartialEq, Eq, Debug, Clone, Copy, Structural)]
pub enum MapKind {
    List,
    HashMap,
    NMTree,
    BonsaiTree,
}

impl MapKind {
    /// The name of the map, as it stands in the results.
    pub fn name(&self) -> (r: &'static str)
        ensures
            r@ == (match self {
                MapKind::List => "List"@,
                MapKind::HashMap => "HashMap"@,
                MapKind::NMTree => "NMTree"@,
                MapKind::BonsaiTree => "BonsaiTree"@,
            }),
    {
        match self {
            MapKind::List => "List",
            MapKind::HashMap => "HashMap",
            MapKind::NMTree => "NMTree",
            MapKind::BonsaiTree => "BonsaiTree",
        }
    }
}

/// The memory-reclamation discipline under test.
#[derive(PartialEq, Eq, Debug, Clone, Copy, Structural)]
pub enum Scheme {
    /// No reclamation: retired memory is never freed.
    NR,
    /// Epoch-based reclamation.
    EBR,
    /// Pointer-based epoch-based reclamation.
    PEBR,
}

impl Scheme {
    /// The name of the discipline, as it stands in the results.
    pub fn name(&self) -> (r: &'static str)
        ensures
            r@ == (match self {
                Scheme::NR => "NR"@,
                Scheme::EBR => "EBR"@,
                Scheme::PEBR => "PEBR"@,
            }),
    {
        match self {
            Scheme::NR => "NR",
            Scheme::EBR => "EBR",
            Scheme::PEBR => "PEBR",
        }
    }
}

/// How many map operations a worker performs under one guard.
#[derive(PartialEq, Eq, Debug, Clone, Copy, Structural)]
pub enum OpsPerCs {
    One,
    Four,
}

impl OpsPerCs {
    pub open spec fn count_spec(self) -> u64 {
        match self {
            OpsPerCs::One => 1,
            OpsPerCs::Four => 4,
        }
    }

    /// The number of operations per critical section.
    pub fn count(&self) -> (r: u64)
        ensures
            r == self.count_spec(),
    {
        match self {
            OpsPerCs::One => 1,
            OpsPerCs::Four => 4,
        }
    }

    /// The batch size written as `n`, if it is one of the supported sizes.
    pub fn from_count(n: usize) -> (r: Option<OpsPerCs>)
        ensures
            r.is_some() <==> (n == 1 || n == 4),
            r.is_some() ==> r.unwrap().count_spec() == n,
    {
        if n == 1 {
            Some(OpsPerCs::One)
        } else if n == 4 {
            Some(OpsPerCs::Four)
        } else {
            None
        }
    }
}

/// Why a set of run parameters is refused.
#[derive(PartialEq, Eq, Debug, Clone, Copy, Structural)]
pub enum ConfigError {
    /// The batch size is neither one nor four.
    BadOpsPerCs,
    /// The key range `[0, range)` is empty.
    EmptyKeyRange,
    /// The run lasts zero seconds.
    ZeroDuration,
    /// The duration or the sampling period is beyond what the clock of a run counts.
    PeriodTooLong,
}

/// The longest run, in seconds.
pub const MAX_SECS: u64 = 1_000_000_000;

/// The longest sampling period, in milliseconds.
pub const MAX_PERIOD_MS: u64 = 1_000_000_000_000;

/// The renewal period of a slow non-cooperative reader, in milliseconds.
pub const SLOW_REPIN_MS: u64 = 10;

/// The read-only parameters of a run. Times are in milliseconds.
#[derive(PartialEq, Eq, Debug, Clone, Copy, Structural)]
pub struct BenchConfig {
    pub map: MapKind,
    pub scheme: Scheme,
    pub threads: usize,
    /// 0: none; 1: the auxiliary thread renews its guard every 10 ms;
    /// 2: it never renews it.
    pub non_coop: usize,
    /// 0, 1 or 2: about 0%, 50% or 90% of the operations are gets.
    pub get_rate: usize,
    pub range: u64,
    pub prefill: usize,
    /// The length of the run in seconds.
    pub interval: u64,
    /// 0 when memory is not sampled.
    pub sampling_period_ms: u64,
    pub ops_per_cs: OpsPerCs,
}

pub open spec fn min_level(n: u64) -> usize {
    if n < 2 { n as usize } else { 2 }
}

impl BenchConfig {
    pub open spec fn wf(self) -> bool {
        &&& self.non_coop <= 2
        &&& self.get_rate <= 2
        &&& self.range > 0
        &&& 0 < self.interval <= MAX_SECS
        &&& self.sampling_period_ms <= MAX_PERIOD_MS
    }

    /// Builds the parameters of a run. A level is the number of times its flag
    /// was given, capped at two; `ops_per_cs` must be one or four.
    pub fn new(
        map: MapKind,
        scheme: Scheme,
        threads: usize,
        non_coop_flags: u64,
        get_rate_flags: u64,
        range: u64,
        prefill: usize,
        interval: u64,
        sampling_period_ms: u64,
        ops_per_cs: usize,
    ) -> (r: Result<BenchConfig, ConfigError>)
        ensures
            ops_per_cs != 1 && ops_per_cs != 4 <==> r == Err::<BenchConfig, ConfigError>(
                ConfigError::BadOpsPerCs,
            ),
            (ops_per_cs == 1 || ops_per_cs == 4) && range == 0 <==> r == Err::<
                BenchConfig,
                ConfigError,
            >(ConfigError::EmptyKeyRange),
            (ops_per_cs == 1 || ops_per_cs == 4) && range > 0 && interval == 0 <==> r == Err::<
                BenchConfig,
                ConfigError,
            >(ConfigError::ZeroDuration),
            (ops_per_cs == 1 || ops_per_cs == 4) && range > 0 && interval > 0 && (interval
                > MAX_SECS || sampling_period_ms > MAX_PERIOD_MS) <==> r == Err::<
                BenchConfig,
                ConfigError,
            >(ConfigError::PeriodTooLong),
            r.is_ok() <==> (ops_per_cs == 1 || ops_per_cs == 4) && range > 0 && 0 < interval
                <= MAX_SECS && sampling_period_ms <= MAX_PERIOD_MS,
            r.is_ok() ==> ({
                let c = r.unwrap();
                &&& c.wf()
                &&& c.map == map
                &&& c.scheme == scheme
                &&& c.threads == threads
                &&& c.non_coop == min_level(non_coop_flags)
                &&& c.get_rate == min_level(get_rate_flags)
                &&& c.range == range
                &&& c.prefill == prefill
                &&& c.interval == interval
                &&& c.sampling_period_ms == sampling_period_ms
                &&& c.ops_per_cs.count_spec() == ops_per_cs
            }),
    {
        let batch = match OpsPerCs::from_count(ops_per_cs) {
            Some(b) => b,
            None => return Err(ConfigError::BadOpsPerCs),
        };
        if range == 0 {
            return Err(ConfigError::EmptyKeyRange);
        }
        if interval == 0 {
            return Err(ConfigError::ZeroDuration);
        }
        if interval > MAX_SECS || sampling_period_ms > MAX_PERIOD_MS {
            return Err(ConfigError::PeriodTooLong);
        }
        let non_coop: usize = if non_coop_flags < 2 { non_coop_flags as usize } else { 2 };
        let get_rate: usize = if get_rate_flags < 2 { get_rate_flags as usize } else { 2 };
        Ok(BenchConfig {
            map,
            scheme,
            threads,
            non_coop,
            get_rate,
            range,
            prefill,
            interval,
            sampling_period_ms,
            ops_per_cs: batch,
        })
    }

    pub open spec fn sampling_spec(self) -> bool {
        self.sampling_period_ms > 0
    }

    /// Whether allocator memory is sampled during the run.
    pub fn sampling(&self) -> (r: bool)
        ensures
            r == self.sampling_spec(),
    {
        self.sampling_period_ms > 0
    }

    pub open spec fn guard_level_spec(self) -> usize {
        if self.scheme == Scheme::NR { 0 } else { self.non_coop }
    }

    /// The non-cooperation level that takes effect: the configured one under
    /// EBR and PEBR, none without reclamation, where there is no guard to hold.
    pub fn guard_level(&self) -> (r: usize)
        ensures
            r == self.guard_level_spec(),
    {
        match self.scheme {
            Scheme::NR => 0,
            Scheme::EBR | Scheme::PEBR => self.non_coop,
        }
    }

    pub open spec fn aux_threads_spec(self) -> usize {
        if self.sampling_spec() || self.guard_level_spec() > 0 { 1 } else { 0 }
    }

    /// The number of auxiliary threads: one exactly when memory is sampled or a
    /// non-cooperative reader is simulated. Without reclamation it only
    /// samples, so it exists only when memory is sampled.
    pub fn aux_threads(&self) -> (r: usize)
        ensures
            r == self.aux_threads_spec(),
            self.scheme == Scheme::NR ==> (r == 1 <==> self.sampling_spec()),
            self.scheme != Scheme::NR ==> (r == 1 <==> (self.sampling_spec() || self.non_coop > 0)),
            r <= 1,
    {
        if self.sampling() || self.guard_level() > 0 { 1 } else { 0 }
    }

    pub open spec fn duration_ms_spec(self) -> u64 {
        (self.interval * 1000) as u64
    }

    /// The length of the run in milliseconds.
    pub fn duration_ms(&self) -> (r: u64)
        requires
            self.wf(),
        ensures
            r == self.interval * 1000,
            r == self.duration_ms_spec(),
    {
        self.interval * 1000
    }

    pub open spec fn repin_period_ms_spec(self) -> u64 {
        if self.guard_level_spec() == 1 { SLOW_REPIN_MS } else { self.duration_ms_spec() }
    }

    /// How long the auxiliary thread holds its guard before renewing it: 10 ms
    /// for a slow reader, the whole run otherwise (it is then never renewed).
    pub fn repin_period_ms(&self) -> (r: u64)
        requires
            self.wf(),
        ensures
            r == self.repin_period_ms_spec(),
    {
        if self.guard_level() == 1 { SLOW_REPIN_MS } else { self.duration_ms() }
    }

    /// The weights of the operation mix of this run.
    pub fn op_weights(&self) -> (r: OpWeights)
        ensures
            r == OpWeights::for_get_rate_spec(self.get_rate),
            r.wf(),
    {
        OpWeights::for_get_rate(self.get_rate)
    }
}

} // verus!
