//! The client pool: which workers a phase starts, and with which codec.

use vstd::prelude::*;
use crate::settings::Protocol;

verus! {

/// How a Redis codec frames its commands.
#[derive(Clone, Copy, Debug, PartialEq, Eq, Structural)]
pub enum RedisMode {
    Resp,
    Inline,
}

/// The codec implementation that a worker owns.
#[derive(Clone, Copy, Debug, PartialEq, Eq, Structural)]
pub enum CodecKind {
    Echo,
    Memcache,
    ThriftCache,
    PelikanRds,
    Ping,
    Redis(RedisMode),
}

/// The codec that serves a protocol.
pub open spec fn codec_spec(protocol: Protocol) -> CodecKind {
    match protocol {
        Protocol::Echo => CodecKind::Echo,
        Protocol::Memcache => CodecKind::Memcache,
        Protocol::ThriftCache => CodecKind::ThriftCache,
        Protocol::PelikanRds => CodecKind::PelikanRds,
        Protocol::Ping => CodecKind::Ping,
        Protocol::RedisResp => CodecKind::Redis(RedisMode::Resp),
        Protocol::RedisInline => CodecKind::Redis(RedisMode::Inline),
    }
}

/// Picks the codec for a protocol; see `codec_spec`.
pub fn codec_for(protocol: Protocol) -> (r: CodecKind)
    ensures
        r == codec_spec(protocol),
{
    match protocol {
        Protocol::Echo => CodecKind::Echo,
        Protocol::Memcache => CodecKind::Memcache,
        Protocol::ThriftCache => CodecKind::ThriftCache,
        Protocol::PelikanRds => CodecKind::PelikanRds,
        Protocol::Ping => CodecKind::Ping,
        Protocol::RedisResp => CodecKind::Redis(RedisMode::Resp),
        Protocol::RedisInline => CodecKind::Redis(RedisMode::Inline),
    }
}

/// One worker of a pool: its slot and its codec.
#[derive(Clone, Copy, Debug, PartialEq, Eq, Structural)]
pub struct WorkerSpec {
    pub index: usize,
    pub codec: CodecKind,
}

/// A pool of `clients` workers, one per slot `0..clients`, in slot order,
/// each with the codec of the protocol.
pub open spec fn is_pool_for(pool: Seq<WorkerSpec>, protocol: Protocol, clients: usize) -> bool {
    &&& pool.len() == clients
    &&& forall|i: int|
        0 <= i < pool.len() ==> (#[trigger] pool[i]).index == i && pool[i].codec == codec_spec(protocol)
}

/// The workers that a pool of `clients` starts.
pub fn launch_plan(protocol: Protocol, clients: usize) -> (r: Vec<WorkerSpec>)
    ensures
        is_pool_for(r@, protocol, clients),
{
    let codec = codec_for(protocol);
    let mut pool: Vec<WorkerSpec> = Vec::new();
    let mut i: usize = 0;
    while i < clients
        invariant
            i <= clients,
            codec == codec_spec(protocol),
            pool@.len() == i,
            forall|j: int|
                0 <= j < i ==> (#[trigger] pool@[j]).index == j && pool@[j].codec == codec_spec(protocol),
        decreases clients - i,
    {
        pool.push(WorkerSpec { index: i, codec });
        i = i + 1;
    }
    pool
}

} // verus!
