//! The run settings that the orchestration core reads.

use vstd::prelude::*;

verus! {

/// The wire protocol that every client of a run speaks.
#[derive(Clone, Copy, Debug, PartialEq, Eq, Structural)]
pub enum Protocol {
    Echo,
    Memcache,
    ThriftCache,
    PelikanRds,
    Ping,
    RedisResp,
    RedisInline,
}

/// The settings of one run, as plain values.
#[derive(Clone, Copy, Debug, PartialEq, Eq, Structural)]
pub struct RunSettings {
    pub protocol: Protocol,
    /// Number of concurrent clients.
    pub clients: usize,
    /// Length of a measurement interval, in seconds.
    pub interval_secs: u64,
    /// Number of windows after which the run ends; zero or none: no end.
    pub windows: Option<u64>,
    /// Hit-rate at which warmup ends, in parts per million; none: no warmup.
    pub warmup_target_ppm: Option<u32>,
    /// New connections per second, over the whole pool.
    pub connect_limit: Option<u64>,
    /// Requests per second, over the whole pool.
    pub request_limit: Option<u64>,
    /// Deliberate connection closes per second, over the whole pool.
    pub close_limit: Option<u64>,
}

} // verus!
