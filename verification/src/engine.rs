//! The hop-by-hop probing engine.
//!
//! [`TraceState`] carries everything the trace decides with between hops:
//! how many hops are done, the accumulated destination-port offset, and
//! whether the destination has replied.  The transport performs sends and
//! receives and reports one [`ProbeEvent`] per probe; the engine computes
//! every port, records every hop, and decides termination.
//! [`trace_with_events`] runs a whole trace against a pre-recorded schedule
//! of events, one per probe, which is how the engine's end-to-end behaviour
//! is stated and exercised without any socket.
//!
//! Destination ports advance by one per probe and by `probes_per_hop` per
//! hop, wrapping in the 16-bit port space; a wrapped port is simply another
//! valid port, not an error.

use vstd::prelude::*;

use vstd::arithmetic::div_mod::{lemma_add_mod_noop, lemma_add_mod_noop_right, lemma_small_mod};

use crate::addr::{first_v4, select_ipv4, CandidateAddress, Ipv4Address, TraceError};
use crate::probe::{classify_probe, classify_spec, representative_spec, HopResult, ProbeEvent,
    ProbeOutcome};
use crate::request::TraceRequest;

verus! {

/// The destination port of probe `probe` of the hop at TTL `hop + 1`:
/// ports start at `start` and advance by one per probe and by
/// `probes_per_hop` per hop, wrapping in the 16-bit port space.
pub open spec fn probe_port_spec(start: u16, hop: int, probes_per_hop: int, probe: int) -> int
    recommends
        0 <= hop,
        0 <= probes_per_hop,
        0 <= probe,
{
    (start + hop * probes_per_hop + probe) % 0x10000
}

/// Port uniqueness within a run: as long as the whole trace fits in the
/// 16-bit port space without wrapping, no two probes are ever sent to the
/// same destination port.
pub proof fn lemma_ports_distinct(
    start: u16,
    probes_per_hop: int,
    max_hops: int,
    h1: int,
    p1: int,
    h2: int,
    p2: int,
)
    requires
        0 <= h1 < max_hops,
        0 <= h2 < max_hops,
        0 <= p1 < probes_per_hop,
        0 <= p2 < probes_per_hop,
        !(h1 == h2 && p1 == p2),
        start + max_hops * probes_per_hop <= 0x10000,
    ensures
        probe_port_spec(start, h1, probes_per_hop, p1) != probe_port_spec(
            start,
            h2,
            probes_per_hop,
            p2,
        ),
{
    let v1 = start + h1 * probes_per_hop + p1;
    let v2 = start + h2 * probes_per_hop + p2;
    assert((h1 + 1) * probes_per_hop <= max_hops * probes_per_hop) by (nonlinear_arith)
        requires
            h1 + 1 <= max_hops,
            0 <= probes_per_hop,
    ;
    assert((h2 + 1) * probes_per_hop <= max_hops * probes_per_hop) by (nonlinear_arith)
        requires
            h2 + 1 <= max_hops,
            0 <= probes_per_hop,
    ;
    assert((h1 + 1) * probes_per_hop == h1 * probes_per_hop + probes_per_hop) by (nonlinear_arith);
    assert((h2 + 1) * probes_per_hop == h2 * probes_per_hop + probes_per_hop) by (nonlinear_arith);
    assert(0 <= h1 * probes_per_hop) by (nonlinear_arith)
        requires
            0 <= h1,
            0 <= probes_per_hop,
    ;
    assert(0 <= h2 * probes_per_hop) by (nonlinear_arith)
        requires
            0 <= h2,
            0 <= probes_per_hop,
    ;
    lemma_small_mod(v1 as nat, 0x10000 as nat);
    lemma_small_mod(v2 as nat, 0x10000 as nat);
    if h1 < h2 {
        assert(h1 * probes_per_hop + probes_per_hop <= h2 * probes_per_hop) by (nonlinear_arith)
            requires
                h1 + 1 <= h2,
                0 <= probes_per_hop,
        ;
    } else if h2 < h1 {
        assert(h2 * probes_per_hop + probes_per_hop <= h1 * probes_per_hop) by (nonlinear_arith)
            requires
                h2 + 1 <= h1,
                0 <= probes_per_hop,
        ;
    }
}

/// Everything the trace decides with between hops.
pub struct TraceState {
    /// The resolved destination; a hop representing it ends the trace.
    pub dest: Ipv4Address,
    /// Highest TTL that will be probed.
    pub max_hops: u32,
    /// Probes sent at each TTL.
    pub probes_per_hop: u32,
    /// Destination port of the first probe of the first hop.
    pub start_port: u16,
    /// Hops recorded so far; the next hop is probed with TTL one above it.
    pub hops_done: u32,
    /// Accumulated port offset of the next hop, wrapped to 16 bits.
    pub port_offset: u16,
    /// Whether a recorded hop was attributed to the destination.
    pub reached: bool,
}

impl TraceState {
    /// The state's invariant: the trace never goes past `max_hops`, the
    /// port offset is exactly the wrapped accumulated offset, and the
    /// destination can only have replied on a recorded hop.
    pub open spec fn wf(self) -> bool {
        &&& self.hops_done <= self.max_hops
        &&& self.port_offset == (self.start_port + self.hops_done
            * self.probes_per_hop) % (0x10000 as int)
        &&& (self.reached ==> self.hops_done >= 1)
    }

    /// The trace is over: the destination replied, or every TTL up to
    /// `max_hops` was probed.
    pub open spec fn finished_spec(self) -> bool {
        self.reached || self.hops_done == self.max_hops
    }

    /// Fresh state for a trace towards `dest`: no hop probed yet, ports
    /// starting at `start_port`.
    pub fn new(dest: Ipv4Address, max_hops: u32, probes_per_hop: u32, start_port: u16) -> (r:
        TraceState)
        ensures
            r.wf(),
            r.dest == dest,
            r.max_hops == max_hops,
            r.probes_per_hop == probes_per_hop,
            r.start_port == start_port,
            r.hops_done == 0,
            r.port_offset == start_port,
            !r.reached,
    {
        proof {
            lemma_small_mod(start_port as nat, 0x10000 as nat);
        }
        TraceState {
            dest,
            max_hops,
            probes_per_hop,
            start_port,
            hops_done: 0,
            port_offset: start_port,
            reached: false,
        }
    }

    /// Whether the trace is over.
    pub fn is_finished(&self) -> (r: bool)
        ensures
            r == self.finished_spec(),
    {
        self.reached || self.hops_done == self.max_hops
    }

    /// The TTL the next hop's probes go out with.
    pub fn current_ttl(&self) -> (ttl: u32)
        requires
            self.wf(),
            !self.finished_spec(),
        ensures
            ttl == self.hops_done + 1,
    {
        self.hops_done + 1
    }

    /// The destination port of probe `probe` of the next hop.
    pub fn probe_port(&self, probe: u32) -> (port: u16)
        requires
            self.wf(),
        ensures
            port == probe_port_spec(
                self.start_port,
                self.hops_done as int,
                self.probes_per_hop as int,
                probe as int,
            ),
    {
        let extra: u32 = probe % 0x10000;
        let sum: u32 = self.port_offset as u32 + extra;
        let port: u16 = (sum % 0x10000) as u16;
        proof {
            let m: int = 0x10000;
            let base: int = self.start_port + self.hops_done * self.probes_per_hop;
            lemma_add_mod_noop_right(self.port_offset as int, probe as int, m);
            lemma_add_mod_noop_right(base % m, probe as int, m);
            lemma_add_mod_noop(base, probe as int, m);
        }
        port
    }

    /// Record the outcomes of the hop just probed: remember whether its
    /// representative address is the destination, count the hop, and
    /// advance the port offset by one whole hop, wrapping in the 16-bit
    /// port space.
    pub fn record_hop(&mut self, outcomes: Vec<ProbeOutcome>) -> (hop: HopResult)
        requires
            old(self).wf(),
            !old(self).finished_spec(),
            outcomes@.len() == old(self).probes_per_hop,
        ensures
            final(self).wf(),
            hop.ttl == old(self).hops_done + 1,
            hop.outcomes == outcomes,
            final(self).dest == old(self).dest,
            final(self).max_hops == old(self).max_hops,
            final(self).probes_per_hop == old(self).probes_per_hop,
            final(self).start_port == old(self).start_port,
            final(self).hops_done == old(self).hops_done + 1,
            final(self).reached <==> representative_spec(outcomes@) == Some(old(self).dest),
    {
        let ttl = self.hops_done + 1;
        let hop = HopResult { ttl, outcomes };
        self.reached = hop.reaches(self.dest);
        self.hops_done = ttl;
        let advance: u32 = self.probes_per_hop % 0x10000;
        let sum: u32 = self.port_offset as u32 + advance;
        self.port_offset = (sum % 0x10000) as u16;
        proof {
            let m: int = 0x10000;
            let base: int = old(self).start_port + old(self).hops_done * old(self).probes_per_hop;
            lemma_add_mod_noop_right(old(self).port_offset as int, old(self).probes_per_hop as int, m);
            lemma_add_mod_noop_right(base % m, old(self).probes_per_hop as int, m);
            lemma_add_mod_noop(base, old(self).probes_per_hop as int, m);
            let h: int = old(self).hops_done as int;
            let k: int = old(self).probes_per_hop as int;
            assert((h + 1) * k == h * k + k) by (nonlinear_arith);
        }
        hop
    }
}

/// A whole trace's result: its hops in TTL order, and whether it stopped
/// because the destination replied.
pub struct TraceReport {
    pub hops: Vec<HopResult>,
    pub reached: bool,
}

/// Turn a resolution result into a ready trace state, or explain why the
/// trace cannot start.  When this fails, no probe is ever sent.
pub fn prepare_trace(req: &TraceRequest, candidates: &Vec<CandidateAddress>) -> (r: Result<
    TraceState,
    TraceError,
>)
    ensures
        match r {
            Ok(st) => {
                &&& first_v4(candidates@) == Some(st.dest)
                &&& st.wf()
                &&& st.max_hops == req.max_hops
                &&& st.probes_per_hop == req.probes_per_hop
                &&& st.start_port == req.start_port
                &&& st.hops_done == 0
                &&& !st.reached
            },
            Err(e) => {
                &&& first_v4(candidates@) is None
                &&& e is ResolutionFailure
            },
        },
{
    match select_ipv4(candidates) {
        Ok(ip) => Ok(TraceState::new(ip, req.max_hops, req.probes_per_hop, req.start_port)),
        Err(e) => Err(e),
    }
}

/// Run a whole trace against a schedule of transport events, one per
/// probe: hop `h`'s probes are answered by `events[h]`.  The report holds
/// one hop per TTL actually probed, with TTLs exactly `1, 2, ...` in
/// order, exactly `probes_per_hop` outcomes per hop, each the recorded
/// classification of its event; no hop before the last represents the
/// destination, and the trace stops early exactly when the last one does.
pub fn trace_with_events(req: &TraceRequest, dest: Ipv4Address, events: &Vec<Vec<ProbeEvent>>) -> (
    report: TraceReport)
    requires
        events@.len() == req.max_hops,
        forall|h: int| 0 <= h < events@.len() ==> (#[trigger] events@[h])@.len()
            == req.probes_per_hop,
    ensures
        report.hops@.len() <= req.max_hops,
        forall|i: int| 0 <= i < report.hops@.len() ==> (#[trigger] report.hops@[i]).ttl == i + 1,
        forall|i: int| 0 <= i < report.hops@.len() ==> (#[trigger] report.hops@[i]).outcomes@.len()
            == req.probes_per_hop,
        forall|i: int, j: int|
            0 <= i < report.hops@.len() && 0 <= j < req.probes_per_hop ==> (#[trigger] report.hops@[
                i
            ].outcomes@[j]) == classify_spec(events@[i]@[j]),
        forall|i: int| 0 <= i < report.hops@.len() ==> ((representative_spec(
            (#[trigger] report.hops@[i]).outcomes@,
        ) == Some(dest)) <==> (report.reached && i == report.hops@.len() - 1)),
        !report.reached ==> report.hops@.len() == req.max_hops,
        report.reached ==> report.hops@.len() >= 1,
{
    let mut state = TraceState::new(dest, req.max_hops, req.probes_per_hop, req.start_port);
    let mut hops: Vec<HopResult> = Vec::new();
    while state.hops_done < state.max_hops && !state.reached
        invariant
            state.wf(),
            state.dest == dest,
            state.max_hops == req.max_hops,
            state.probes_per_hop == req.probes_per_hop,
            events@.len() == req.max_hops,
            forall|h: int| 0 <= h < events@.len() ==> (#[trigger] events@[h])@.len()
                == req.probes_per_hop,
            hops@.len() == state.hops_done,
            forall|i: int| 0 <= i < hops@.len() ==> (#[trigger] hops@[i]).ttl == i + 1,
            forall|i: int| 0 <= i < hops@.len() ==> (#[trigger] hops@[i]).outcomes@.len()
                == req.probes_per_hop,
            forall|i: int, j: int|
                0 <= i < hops@.len() && 0 <= j < req.probes_per_hop ==> (#[trigger] hops@[
                    i
                ].outcomes@[j]) == classify_spec(events@[i]@[j]),
            forall|i: int| 0 <= i < hops@.len() ==> ((representative_spec(
                (#[trigger] hops@[i]).outcomes@,
            ) == Some(dest)) <==> (state.reached && i == hops@.len() - 1)),
        decreases state.max_hops - state.hops_done,
    {
        let hop_index: usize = state.hops_done as usize;
        let hop_events: &Vec<ProbeEvent> = &events[hop_index];
        let n_probes = hop_events.len();
        let mut outcomes: Vec<ProbeOutcome> = Vec::new();
        let mut j: usize = 0;
        while j < n_probes
            invariant
                j <= n_probes,
                n_probes == hop_events@.len(),
                outcomes@.len() == j,
                forall|k: int| 0 <= k < j ==> (#[trigger] outcomes@[k]) == classify_spec(
                    hop_events@[k],
                ),
            decreases n_probes - j,
        {
            let o = classify_probe(&hop_events[j]);
            outcomes.push(o);
            j = j + 1;
        }
        let hop = state.record_hop(outcomes);
        hops.push(hop);
    }
    TraceReport { hops, reached: state.reached }
}

} // verus!
