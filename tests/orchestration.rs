use rpc_perf::{
    codec_for, hitrate_meets, launch_plan, limiter_for, measurement_for, plan_run, AdmissionPlan,
    CodecKind, LimiterSpec, MeasurementLoop, Protocol, RedisMode, RunSettings, Tick,
    WarmupController, WarmupStep,
};

fn settings(protocol: Protocol, clients: usize) -> RunSettings {
    RunSettings {
        protocol,
        clients,
        interval_secs: 1,
        windows: None,
        warmup_target_ppm: None,
        connect_limit: None,
        request_limit: None,
        close_limit: None,
    }
}

#[test]
fn hitrate_at_target_meets() {
    assert!(hitrate_meets(9, 1, 900_000));
    assert!(hitrate_meets(90, 10, 900_000));
    assert!(!hitrate_meets(89, 11, 900_000));
    assert!(!hitrate_meets(8, 2, 900_000));
}

#[test]
fn hitrate_empty_interval_never_meets() {
    assert!(!hitrate_meets(0, 0, 0));
    assert!(!hitrate_meets(0, 0, 900_000));
    assert!(hitrate_meets(0, 5, 0));
}

#[test]
fn hitrate_large_counts_do_not_overflow() {
    assert!(hitrate_meets(u64::MAX, 0, 1_000_000));
    assert!(!hitrate_meets(u64::MAX, u64::MAX, 500_001));
    assert!(hitrate_meets(u64::MAX, u64::MAX, 500_000));
    assert!(!hitrate_meets(0, u64::MAX, u32::MAX));
}

#[test]
fn warmup_needs_three_consecutive_intervals() {
    let mut c = WarmupController::new(900_000);
    assert_eq!(c.observe(95, 5), WarmupStep::Continue);
    assert_eq!(c.streak(), 1);
    assert_eq!(c.observe(95, 5), WarmupStep::Continue);
    assert_eq!(c.streak(), 2);
    assert_eq!(c.observe(50, 50), WarmupStep::Continue);
    assert_eq!(c.streak(), 0);
    assert_eq!(c.observe(9, 1), WarmupStep::Continue);
    assert_eq!(c.observe(10, 0), WarmupStep::Continue);
    assert_eq!(c.observe(900, 100), WarmupStep::Converged);
    assert_eq!(c.streak(), 3);
}

#[test]
fn warmup_first_interval_below_target_keeps_streak_at_zero() {
    let mut c = WarmupController::new(900_000);
    assert_eq!(c.observe(1, 9), WarmupStep::Continue);
    assert_eq!(c.streak(), 0);
}

#[test]
fn warmup_empty_intervals_never_converge() {
    let mut c = WarmupController::new(0);
    for _ in 0..10 {
        assert_eq!(c.observe(0, 0), WarmupStep::Continue);
        assert_eq!(c.streak(), 0);
    }
}

#[test]
fn warmup_controller_only_with_target() {
    assert!(WarmupController::for_target(None).is_none());
    let c = WarmupController::for_target(Some(500_000)).unwrap();
    assert_eq!(c.streak(), 0);
}

#[test]
fn no_warmup_without_target() {
    let s = settings(Protocol::Echo, 3);
    let plan = plan_run(&s);
    assert!(plan.warmup.is_none());
    assert_eq!(plan.steady.workers.len(), 3);
}

#[test]
fn launch_starts_one_worker_per_client() {
    let pool = launch_plan(Protocol::Ping, 5);
    assert_eq!(pool.len(), 5);
    for (i, w) in pool.iter().enumerate() {
        assert_eq!(w.index, i);
        assert_eq!(w.codec, CodecKind::Ping);
    }
    assert!(launch_plan(Protocol::Echo, 0).is_empty());
}

#[test]
fn codec_follows_protocol() {
    assert_eq!(codec_for(Protocol::Echo), CodecKind::Echo);
    assert_eq!(codec_for(Protocol::Memcache), CodecKind::Memcache);
    assert_eq!(codec_for(Protocol::ThriftCache), CodecKind::ThriftCache);
    assert_eq!(codec_for(Protocol::PelikanRds), CodecKind::PelikanRds);
    assert_eq!(codec_for(Protocol::Ping), CodecKind::Ping);
    assert_eq!(codec_for(Protocol::RedisResp), CodecKind::Redis(RedisMode::Resp));
    assert_eq!(codec_for(Protocol::RedisInline), CodecKind::Redis(RedisMode::Inline));
}

#[test]
fn request_limit_sizes_bucket() {
    assert_eq!(
        limiter_for(8, Some(100)),
        Some(LimiterSpec { capacity: 8, quantum: 1, rate: 100 })
    );
    assert_eq!(limiter_for(8, Some(0)), None);
    assert_eq!(limiter_for(8, None), None);
}

#[test]
fn steady_admission_uses_each_limit() {
    let mut s = settings(Protocol::Memcache, 4);
    s.connect_limit = Some(10);
    s.request_limit = Some(1000);
    let a = AdmissionPlan::for_settings(&s);
    assert_eq!(a.connect, Some(LimiterSpec { capacity: 4, quantum: 1, rate: 10 }));
    assert_eq!(a.request, Some(LimiterSpec { capacity: 4, quantum: 1, rate: 1000 }));
    assert_eq!(a.close, None);
    let u = AdmissionPlan::unthrottled();
    assert_eq!((u.connect, u.request, u.close), (None, None, None));
}

#[test]
fn measurement_stops_at_window_limit() {
    let mut m = MeasurementLoop::new(1000, Some(5), 0);
    assert_eq!(m.tick(0), Tick::Wait);
    assert_eq!(m.tick(999), Tick::Wait);
    assert_eq!(m.window(), 0);
    assert_eq!(m.tick(1000), Tick::Report);
    assert_eq!(m.window(), 1);
    assert_eq!(m.tick(1500), Tick::Wait);
    assert_eq!(m.tick(2000), Tick::Report);
    assert_eq!(m.tick(3001), Tick::Report);
    assert_eq!(m.tick(4000), Tick::Report);
    assert_eq!(m.window(), 4);
    assert_eq!(m.tick(4999), Tick::Wait);
    assert_eq!(m.tick(5000), Tick::Finish);
    assert_eq!(m.window(), 5);
}

#[test]
fn measurement_boundaries_do_not_drift() {
    let mut m = MeasurementLoop::new(1000, None, 0);
    // a late tick counts one window; the next boundary stays at 2000
    assert_eq!(m.tick(1900), Tick::Report);
    assert_eq!(m.tick(1999), Tick::Wait);
    assert_eq!(m.tick(2000), Tick::Report);
    // far behind: one window per tick until caught up
    assert_eq!(m.tick(5000), Tick::Report);
    assert_eq!(m.tick(5000), Tick::Report);
    assert_eq!(m.tick(5000), Tick::Report);
    assert_eq!(m.tick(5000), Tick::Wait);
    assert_eq!(m.window(), 5);
}

#[test]
fn measurement_without_limit_runs_on() {
    for windows in [None, Some(0)] {
        let mut s = settings(Protocol::Echo, 1);
        s.windows = windows;
        let mut m = measurement_for(&s, 0);
        for k in 1..=1000u64 {
            assert_eq!(m.tick(k * 1000), Tick::Report);
        }
        assert_eq!(m.window(), 1000);
    }
}

#[test]
fn measurement_interval_in_milliseconds() {
    let mut s = settings(Protocol::Echo, 1);
    s.interval_secs = 2;
    s.windows = Some(1);
    let mut m = measurement_for(&s, 500);
    assert_eq!(m.tick(2499), Tick::Wait);
    assert_eq!(m.tick(2500), Tick::Finish);
    assert_eq!(m.window(), 1);
}

#[test]
fn measurement_saturates_at_the_end_of_the_clock() {
    let mut m = MeasurementLoop::new(u64::MAX, Some(3), 10);
    assert_eq!(m.tick(u64::MAX - 1), Tick::Wait);
    assert_eq!(m.tick(u64::MAX), Tick::Report);
    assert_eq!(m.tick(u64::MAX), Tick::Report);
    assert_eq!(m.tick(u64::MAX), Tick::Finish);
}

#[test]
fn memcache_warmup_then_steady_state() {
    let mut s = settings(Protocol::Memcache, 4);
    s.warmup_target_ppm = Some(900_000);
    s.request_limit = Some(200);
    let plan = plan_run(&s);
    let warmup = plan.warmup.expect("warmup is planned");
    assert_eq!(warmup.pool.workers.len(), 4);
    assert!(warmup.pool.workers.iter().all(|w| w.codec == CodecKind::Memcache));
    assert_eq!(warmup.pool.admission.connect, None);
    assert_eq!(warmup.pool.admission.request, None);
    assert_eq!(warmup.pool.admission.close, None);
    let mut c = warmup.controller;
    assert_eq!(c.observe(900, 100), WarmupStep::Continue);
    assert_eq!(c.observe(95, 5), WarmupStep::Continue);
    assert_eq!(c.observe(9, 1), WarmupStep::Converged);
    assert_eq!(plan.steady.workers.len(), 4);
    assert_eq!(
        plan.steady.admission.request,
        Some(LimiterSpec { capacity: 4, quantum: 1, rate: 200 })
    );
}
