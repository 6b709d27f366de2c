use pebr_harness::config::{BenchConfig, ConfigError, MapKind, OpsPerCs, Scheme};
use pebr_harness::memory::MemorySample;
use pebr_harness::prefill::{order_decreasing, PrefillStrategy};
use pebr_harness::report::{memory_figures, throughput, RunResult};
use pebr_harness::schedule::{AuxSchedule, WorkerSchedule};
use pebr_harness::workload::{key_of, sample_key, sample_op, Op, OpWeights};

fn config(non_coop: u64, sampling_ms: u64, ops_per_cs: usize) -> BenchConfig {
    BenchConfig::new(MapKind::List, Scheme::EBR, 4, non_coop, 0, 100, 50, 1, sampling_ms, ops_per_cs)
        .unwrap()
}

fn mix(level: usize, draws: usize) -> (usize, usize, usize) {
    let mut rng = rand::thread_rng();
    let w = OpWeights::for_get_rate(level);
    let (mut g, mut i, mut r) = (0, 0, 0);
    for _ in 0..draws {
        match sample_op(&mut rng, &w) {
            Op::Get => g += 1,
            Op::Insert => i += 1,
            Op::Remove => r += 1,
        }
    }
    (g, i, r)
}

#[test]
fn op_mix_without_gets() {
    let (g, i, r) = mix(0, 100_000);
    assert_eq!(g, 0);
    assert!(i > 47_000 && i < 53_000);
    assert!(r > 47_000 && r < 53_000);
}

#[test]
fn op_mix_half_gets() {
    let (g, i, r) = mix(1, 100_000);
    assert!(g > 48_000 && g < 52_000);
    assert!(i > 23_000 && i < 27_000);
    assert!(r > 23_000 && r < 27_000);
}

#[test]
fn op_mix_ninety_percent_gets() {
    let (g, i, r) = mix(2, 100_000);
    assert!(g > 88_500 && g < 91_500);
    assert!(i > 4_000 && i < 6_000);
    assert!(r > 4_000 && r < 6_000);
}

#[test]
fn weights_of_each_level() {
    assert_eq!(OpWeights::for_get_rate(0), OpWeights { get: 0, insert: 1, remove: 1 });
    assert_eq!(OpWeights::for_get_rate(1), OpWeights { get: 2, insert: 1, remove: 1 });
    assert_eq!(OpWeights::for_get_rate(2), OpWeights { get: 18, insert: 1, remove: 1 });
    assert_eq!(OpWeights::for_get_rate(7), OpWeights { get: 18, insert: 1, remove: 1 });
    assert_eq!(OpWeights::for_get_rate(2).total(), 20);
}

#[test]
fn pick_cuts_draws_by_weight() {
    let w = OpWeights::for_get_rate(1);
    assert_eq!(w.pick(0), Op::Get);
    assert_eq!(w.pick(1), Op::Get);
    assert_eq!(w.pick(2), Op::Insert);
    assert_eq!(w.pick(3), Op::Remove);
    let w0 = OpWeights::for_get_rate(0);
    assert_eq!(w0.pick(0), Op::Insert);
    assert_eq!(w0.pick(1), Op::Remove);
}

#[test]
fn keys_are_decimal() {
    assert_eq!(key_of(0), "0");
    assert_eq!(key_of(42), "42");
    assert_eq!(key_of(1234567), "1234567");
    assert_eq!(key_of(42), key_of(42));
}

#[test]
fn sampled_keys_stay_in_range() {
    let mut rng = rand::thread_rng();
    for _ in 0..1000 {
        assert!(sample_key(&mut rng, 7) < 7);
    }
    for _ in 0..100 {
        assert_eq!(sample_key(&mut rng, 1), 0);
    }
}

#[test]
fn prefill_draws_exactly_prefill_keys() {
    let mut rng = rand::thread_rng();
    for s in [PrefillStrategy::Random, PrefillStrategy::Decreasing] {
        let keys = s.prefill_keys(&mut rng, 50, 100);
        assert_eq!(keys.len(), 50);
        assert!(keys.iter().all(|k| *k < 100));
        let keys = s.prefill_keys(&mut rng, 500, 3);
        assert_eq!(keys.len(), 500);
        assert!(keys.iter().all(|k| *k < 3));
        assert!(s.prefill_keys(&mut rng, 0, 3).is_empty());
    }
}

#[test]
fn decreasing_prefill_is_non_increasing() {
    let mut rng = rand::thread_rng();
    let keys = PrefillStrategy::Decreasing.prefill_keys(&mut rng, 1000, 100);
    assert!(keys.windows(2).all(|w| w[0] >= w[1]));
}

#[test]
fn order_decreasing_keeps_every_key() {
    assert_eq!(order_decreasing(vec![3, 1, 2, 3]), vec![3, 3, 2, 1]);
    assert_eq!(order_decreasing(vec![]), Vec::<u64>::new());
    assert_eq!(order_decreasing(vec![5]), vec![5]);
}

#[test]
fn prefill_strategy_by_map() {
    assert_eq!(PrefillStrategy::for_map(MapKind::List), PrefillStrategy::Decreasing);
    assert_eq!(PrefillStrategy::for_map(MapKind::HashMap), PrefillStrategy::Decreasing);
    assert_eq!(PrefillStrategy::for_map(MapKind::NMTree), PrefillStrategy::Random);
    assert_eq!(PrefillStrategy::for_map(MapKind::BonsaiTree), PrefillStrategy::Random);
}

#[test]
fn throughput_divides_the_sum() {
    assert_eq!(throughput(&vec![10, 20, 30], 2), 30);
    assert_eq!(throughput(&vec![7], 2), 3);
    assert_eq!(throughput(&vec![], 10), 0);
    assert_eq!(throughput(&vec![5, 4], 10), 0);
}

#[test]
fn no_sampling_reports_zero_memory() {
    let mut s = MemorySample::new();
    s.record(1000);
    s.record(3000);
    assert_eq!(memory_figures(false, &s), (0, 0));
}

#[test]
fn sampling_reports_peak_and_average() {
    let mut s = MemorySample::new();
    assert_eq!(s.peak_and_average(), (0, 0));
    s.record(100);
    s.record(300);
    s.record(200);
    assert_eq!(s.samples(), 3);
    assert_eq!(memory_figures(true, &s), (300, 200));
    let mut t = MemorySample::new();
    t.record(1);
    t.record(2);
    assert_eq!(t.peak_and_average(), (2, 1));
    let mut u = MemorySample::new();
    u.record(usize::MAX);
    u.record(usize::MAX);
    assert_eq!(u.peak_and_average(), (usize::MAX, usize::MAX));
}

#[test]
fn run_result_collects_figures() {
    let r = RunResult::collect(&vec![100, 200, 300, 400], 1, (0, 0));
    assert_eq!(r, RunResult { throughput: 1000, peak_mem: 0, avg_mem: 0 });
}

#[test]
fn four_ops_per_critical_section() {
    let mut w = WorkerSchedule::new(OpsPerCs::Four);
    let renewals: Vec<bool> = (0..12).map(|_| w.complete_op()).collect();
    let expected = vec![false, false, false, true, false, false, false, true, false, false, false, true];
    assert_eq!(renewals, expected);
    assert_eq!(w.ops, 12);
    assert_eq!(w.renewals, 3);
}

#[test]
fn one_op_per_critical_section() {
    let mut w = WorkerSchedule::new(OpsPerCs::One);
    for _ in 0..5 {
        assert!(w.complete_op());
    }
    assert_eq!(w.renewals, 5);
}

#[test]
fn stalled_reader_never_renews() {
    let c = config(2, 0, 1);
    let mut a = AuxSchedule::new(&c);
    assert!(a.keeps_guard());
    for now in 0..1000 {
        assert!(a.running(now));
        assert!(!a.tick(now).renew);
    }
    assert!(!a.running(1000));
}

#[test]
fn slow_reader_renews_every_ten_ms() {
    let c = config(1, 0, 1);
    let mut a = AuxSchedule::new(&c);
    let mut renewed = Vec::new();
    for now in 0..50 {
        if a.tick(now).renew {
            renewed.push(now);
        }
    }
    assert_eq!(renewed, vec![11, 22, 33, 44]);
}

#[test]
fn cooperative_sampler_releases_guard() {
    let c = config(0, 5, 1);
    let mut a = AuxSchedule::new(&c);
    assert!(!a.keeps_guard());
    let mut sampled = Vec::new();
    for now in 0..20 {
        let act = a.tick(now);
        assert!(!act.renew);
        if act.sample {
            sampled.push(now);
        }
    }
    assert_eq!(sampled, vec![6, 12, 18]);
}

#[test]
fn config_derived_values() {
    let c = config(0, 0, 1);
    assert_eq!(c.aux_threads(), 0);
    assert!(!c.sampling());
    assert_eq!(c.duration_ms(), 1000);
    assert_eq!(c.repin_period_ms(), 1000);
    assert_eq!(config(1, 0, 4).repin_period_ms(), 10);
    assert_eq!(config(1, 0, 4).aux_threads(), 1);
    assert_eq!(config(0, 3, 4).aux_threads(), 1);
    assert_eq!(config(7, 0, 4).non_coop, 2);
    assert_eq!(config(0, 0, 4).ops_per_cs, OpsPerCs::Four);
    assert_eq!(config(0, 0, 4).op_weights(), OpWeights { get: 0, insert: 1, remove: 1 });
}

#[test]
fn config_errors() {
    let new = |range: u64, interval: u64, period: u64, cs: usize| {
        BenchConfig::new(MapKind::HashMap, Scheme::PEBR, 1, 0, 0, range, 0, interval, period, cs)
    };
    assert_eq!(new(10, 1, 0, 2), Err(ConfigError::BadOpsPerCs));
    assert_eq!(new(0, 1, 0, 1), Err(ConfigError::EmptyKeyRange));
    assert_eq!(new(10, 0, 0, 1), Err(ConfigError::ZeroDuration));
    assert_eq!(new(10, 2_000_000_000, 0, 1), Err(ConfigError::PeriodTooLong));
    assert_eq!(new(10, 1, u64::MAX, 1), Err(ConfigError::PeriodTooLong));
    assert!(new(10, 1, 0, 4).is_ok());
}

#[test]
fn ops_per_cs_counts() {
    assert_eq!(OpsPerCs::from_count(1), Some(OpsPerCs::One));
    assert_eq!(OpsPerCs::from_count(4), Some(OpsPerCs::Four));
    assert_eq!(OpsPerCs::from_count(3), None);
    assert_eq!(OpsPerCs::Four.count(), 4);
}

#[test]
fn names_of_maps_and_schemes() {
    assert_eq!(MapKind::BonsaiTree.name(), "BonsaiTree");
    assert_eq!(MapKind::NMTree.name(), "NMTree");
    assert_eq!(Scheme::PEBR.name(), "PEBR");
    assert_eq!(Scheme::NR.name(), "NR");
}

#[test]
fn four_workers_without_auxiliary_thread() {
    let c = config(0, 0, 1);
    assert_eq!(c.threads, 4);
    assert_eq!(c.aux_threads(), 0);
    let mut rng = rand::thread_rng();
    let strategy = PrefillStrategy::for_map(c.map);
    let mut keys = strategy.prefill_keys(&mut rng, c.prefill, c.range);
    assert_eq!(keys.len(), 50);
    keys.sort();
    keys.dedup();
    assert!(keys.len() <= 50);
    let counts = vec![120, 80, 95, 105];
    assert!(counts.iter().all(|n| *n > 0));
    let r = RunResult::collect(&counts, c.interval, (0, 0));
    assert_eq!(r.throughput, 400);
    assert_eq!((r.peak_mem, r.avg_mem), (0, 0));
}

#[test]
fn worker_stops_only_between_batches() {
    let mut w = WorkerSchedule::new(OpsPerCs::Four);
    assert!(!w.keep_running(true));
    assert!(w.keep_running(false));
    w.complete_op();
    w.complete_op();
    assert!(w.keep_running(true));
    w.complete_op();
    assert!(w.keep_running(true));
    w.complete_op();
    assert!(!w.keep_running(true));
    assert_eq!(w.ops, 4);
}

#[test]
fn try_collect_refuses_overflowing_counts() {
    assert_eq!(RunResult::try_collect(&vec![u64::MAX, 1], 1, (0, 0)), None);
    assert_eq!(
        RunResult::try_collect(&vec![u64::MAX - 1, 1], 5, (7, 3)),
        Some(RunResult { throughput: u64::MAX / 5, peak_mem: 7, avg_mem: 3 })
    );
}

#[test]
fn no_auxiliary_thread_without_reclamation_or_sampling() {
    let nr = |non_coop: u64, period: u64| {
        BenchConfig::new(MapKind::List, Scheme::NR, 4, non_coop, 0, 100, 50, 1, period, 1).unwrap()
    };
    assert_eq!(nr(1, 0).aux_threads(), 0);
    assert_eq!(nr(2, 0).aux_threads(), 0);
    assert_eq!(nr(0, 0).aux_threads(), 0);
    assert_eq!(nr(2, 5).aux_threads(), 1);
    assert_eq!(nr(2, 5).guard_level(), 0);
    assert_eq!(nr(1, 5).repin_period_ms(), 1000);
    let mut a = AuxSchedule::new(&nr(1, 5));
    assert!(!a.keeps_guard());
    for now in 0..100 {
        assert!(!a.tick(now).renew);
    }
    let ebr = BenchConfig::new(MapKind::List, Scheme::EBR, 4, 1, 0, 100, 50, 1, 0, 1).unwrap();
    assert_eq!(ebr.aux_threads(), 1);
    assert_eq!(ebr.guard_level(), 1);
}

#[test]
fn insertion_order_by_strategy() {
    assert_eq!(PrefillStrategy::Random.insertion_order(vec![4, 9, 1, 9]), vec![4, 9, 1, 9]);
    assert_eq!(PrefillStrategy::Decreasing.insertion_order(vec![4, 9, 1, 9]), vec![9, 9, 4, 1]);
    assert_eq!(PrefillStrategy::Decreasing.insertion_order(vec![]), Vec::<u64>::new());
}
