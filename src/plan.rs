//! The plan of a whole run: an optional unthrottled warmup phase, then the
//! steady-state phase with its rate limits, then the measurement loop.

use vstd::prelude::*;
use crate::launch::{is_pool_for, launch_plan, WorkerSpec};
use crate::limits::{limiter_spec_of, AdmissionPlan, LimiterSpec};
use crate::measure::{sat_add, window_limit, MeasurementLoop};
use crate::settings::RunSettings;
use crate::warmup::WarmupController;

verus! {

/// The workers of one phase and the gates they share.
pub struct PhasePlan {
    pub workers: Vec<WorkerSpec>,
    pub admission: AdmissionPlan,
}

/// The warmup phase: its pool and the controller that decides when it ends.
pub struct WarmupPhase {
    pub controller: WarmupController,
    pub pool: PhasePlan,
}

/// Everything a run starts, in order.
pub struct RunPlan {
    pub warmup: Option<WarmupPhase>,
    pub steady: PhasePlan,
}

/// The steady-state gates that the settings call for.
pub open spec fn steady_admission(settings: RunSettings) -> AdmissionPlan {
    AdmissionPlan {
        connect: limiter_spec_of(settings.clients, settings.connect_limit),
        request: limiter_spec_of(settings.clients, settings.request_limit),
        close: limiter_spec_of(settings.clients, settings.close_limit),
    }
}

/// `secs` in milliseconds, held at `u64::MAX`.
pub open spec fn secs_to_ms(secs: u64) -> u64 {
    if secs * 1000 <= u64::MAX {
        (secs * 1000) as u64
    } else {
        u64::MAX
    }
}

/// Plans a run. Warmup comes only when a target is set; it runs a full pool
/// with no gate. The steady-state pool runs behind the configured gates.
pub fn plan_run(settings: &RunSettings) -> (r: RunPlan)
    ensures
        r.warmup is None <==> settings.warmup_target_ppm is None,
        r.warmup matches Some(w) ==> ({
            &&& w.controller@.target_ppm == settings.warmup_target_ppm->Some_0 as nat
            &&& w.controller@.streak == 0
            &&& is_pool_for(w.pool.workers@, settings.protocol, settings.clients)
            &&& w.pool.admission.connect is None
            &&& w.pool.admission.request is None
            &&& w.pool.admission.close is None
        }),
        is_pool_for(r.steady.workers@, settings.protocol, settings.clients),
        r.steady.admission == steady_admission(*settings),
{
    let warmup = match WarmupController::for_target(settings.warmup_target_ppm) {
        Some(controller) => Some(
            WarmupPhase {
                controller,
                pool: PhasePlan {
                    workers: launch_plan(settings.protocol, settings.clients),
                    admission: AdmissionPlan::unthrottled(),
                },
            },
        ),
        None => None,
    };
    let steady = PhasePlan {
        workers: launch_plan(settings.protocol, settings.clients),
        admission: AdmissionPlan::for_settings(settings),
    };
    RunPlan { warmup, steady }
}

/// The measurement loop of the steady-state phase, started at `now_ms`.
pub fn measurement_for(settings: &RunSettings, now_ms: u64) -> (r: MeasurementLoop)
    ensures
        r@.interval_ms == secs_to_ms(settings.interval_secs),
        r@.limit == window_limit(settings.windows),
        r@.window == 0,
        r@.next_boundary_ms == sat_add(now_ms, secs_to_ms(settings.interval_secs)),
        r@.wf(),
{
    let interval_ms = if settings.interval_secs <= u64::MAX / 1000 {
        settings.interval_secs * 1000
    } else {
        u64::MAX
    };
    MeasurementLoop::new(interval_ms, settings.windows, now_ms)
}

/// A request limit of `limit` per second over `clients` clients gives a
/// request bucket of capacity `clients`, one token per refill and `limit`
/// refills per second; no limit, or zero, gives no request bucket.
pub proof fn lemma_request_bucket_sizing(settings: RunSettings)
    ensures
        settings.request_limit is Some && settings.request_limit->Some_0 > 0 ==> steady_admission(
            settings,
        ).request == Some(
            (LimiterSpec {
                capacity: settings.clients as u64,
                quantum: 1,
                rate: settings.request_limit->Some_0,
            }),
        ),
        (settings.request_limit is None || settings.request_limit == Some(0u64))
            ==> steady_admission(settings).request is None,
{
}

} // verus!
