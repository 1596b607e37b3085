//! The immutable description of one trace.

use vstd::prelude::*;

verus! {

/// Everything a trace is asked to do, fixed before probing begins.
#[derive(Debug)]
pub struct TraceRequest {
    /// Hostname or literal address to trace towards.
    pub host: String,
    /// Highest TTL to probe; the trace never goes past it.
    pub max_hops: u32,
    /// Number of probes sent at each TTL.
    pub probes_per_hop: u32,
    /// How long one probe waits for a reply, in milliseconds.
    pub timeout_ms: u64,
    /// Destination port of the very first probe; later probes advance from
    /// it.
    pub start_port: u16,
}

impl TraceRequest {
    /// A request for `host` with the customary traceroute defaults: 30
    /// hops at most, 3 probes per hop, a 2000 ms timeout, and ports
    /// starting at 33434.
    pub fn new(host: String) -> (r: TraceRequest)
        ensures
            r.host@ == host@,
            r.max_hops == 30,
            r.probes_per_hop == 3,
            r.timeout_ms == 2000,
            r.start_port == 33434,
    {
        TraceRequest { host, max_hops: 30, probes_per_hop: 3, timeout_ms: 2000, start_port: 33434 }
    }
}

} // verus!
