//! Sizing of the connect, request and close rate limiters of a run phase.

use vstd::prelude::*;
use crate::settings::RunSettings;

verus! {

/// Parameters of one token bucket: how many tokens it holds, how many each
/// refill adds, and how many refills happen per second.
#[derive(Clone, Copy, Debug, PartialEq, Eq, Structural)]
pub struct LimiterSpec {
    pub capacity: u64,
    pub quantum: u64,
    pub rate: u64,
}

/// The bucket for a configured limit: capacity one token per client, one
/// token per refill, `limit` refills per second. A limit of zero or none
/// means no bucket (no admission delay).
pub open spec fn limiter_spec_of(clients: usize, limit: Option<u64>) -> Option<LimiterSpec> {
    match limit {
        Some(l) => if l > 0 {
            Some(LimiterSpec { capacity: clients as u64, quantum: 1, rate: l })
        } else {
            None
        },
        None => None,
    }
}

/// Sizes the bucket of one limiter; see `limiter_spec_of`.
pub fn limiter_for(clients: usize, limit: Option<u64>) -> (r: Option<LimiterSpec>)
    ensures
        r == limiter_spec_of(clients, limit),
{
    match limit {
        Some(l) => {
            if l > 0 {
                Some(LimiterSpec { capacity: clients as u64, quantum: 1, rate: l })
            } else {
                None
            }
        },
        None => None,
    }
}

/// The three admission gates of a run phase; none means unthrottled.
#[derive(Clone, Copy, Debug, PartialEq, Eq, Structural)]
pub struct AdmissionPlan {
    pub connect: Option<LimiterSpec>,
    pub request: Option<LimiterSpec>,
    pub close: Option<LimiterSpec>,
}

impl AdmissionPlan {
    /// No gate at all, as warmup runs.
    pub fn unthrottled() -> (r: Self)
        ensures
            r.connect is None,
            r.request is None,
            r.close is None,
    {
        AdmissionPlan { connect: None, request: None, close: None }
    }

    /// The gates of the steady-state phase, each from its configured limit.
    pub fn for_settings(settings: &RunSettings) -> (r: Self)
        ensures
            r.connect == limiter_spec_of(settings.clients, settings.connect_limit),
            r.request == limiter_spec_of(settings.clients, settings.request_limit),
            r.close == limiter_spec_of(settings.clients, settings.close_limit),
    {
        AdmissionPlan {
            connect: limiter_for(settings.clients, settings.connect_limit),
            request: limiter_for(settings.clients, settings.request_limit),
            close: limiter_for(settings.clients, settings.close_limit),
        }
    }
}

} // verus!
