//! Orchestration core of a load generator for cache and RPC services: how a
//! run is planned, when cache warmup has converged, how rate limiters are
//! sized, and when the measurement loop reports and ends.

mod launch;
mod limits;
mod measure;
mod plan;
mod settings;
mod warmup;

pub use launch::{codec_for, codec_spec, is_pool_for, launch_plan, CodecKind, RedisMode, WorkerSpec};
pub use limits::{limiter_for, limiter_spec_of, AdmissionPlan, LimiterSpec};
pub use settings::{Protocol, RunSettings};
pub use warmup::{
    hitrate_meets, lemma_below_target_resets_streak, lemma_converges_iff_three_consecutive,
    lemma_empty_interval_never_meets, lemma_streak_three_iff_last_three_met, meets_target,
    next_streak, streak_after, Observation, WarmupController, WarmupState, WarmupStep,
    CONVERGENCE_STREAK, PPM_SCALE,
};
pub use measure::{
    lemma_replay_ends_exactly_at_limit, lemma_replay_without_limit_never_ends,
    lemma_tick_counts_one_window, replay, sat_add, tick_spec, window_limit, LoopState,
    MeasurementLoop, Tick,
};
pub use plan::{
    lemma_request_bucket_sizing, measurement_for, plan_run, secs_to_ms, steady_admission, PhasePlan, RunPlan, WarmupPhase,
};
