//! Probes, their transport events, and their recorded outcomes.
//!
//! One probe is one outbound UDP datagram at a given TTL.  The transport
//! (raw-socket I/O outside the library) reports what happened to it as a
//! [`ProbeEvent`]; [`classify_probe`] turns that event into the
//! [`ProbeOutcome`] that the hop records.  A hop's representative address
//! is the first probe outcome, in probe order, that carries a source
//! address; it decides early termination of the trace.

use vstd::prelude::*;

use crate::addr::Ipv4Address;
use crate::packet::parsed_icmp;

verus! {

/// What the transport observed for one probe, within the hop's timeout
/// window.
#[derive(Debug)]
pub enum ProbeEvent {
    /// The send itself failed; nothing was ever in flight.
    SendFailed,
    /// No reply arrived within the timeout.
    TimedOut,
    /// A datagram arrived on the ICMP receive socket: its raw bytes, the
    /// address it came from, and the elapsed time since the send, in
    /// milliseconds.
    Received { data: Vec<u8>, source: Ipv4Address, rtt_ms: u64 },
}

/// What the hop records for one probe.
#[derive(Clone, Copy, Debug, PartialEq, Eq, Structural)]
pub enum ProbeOutcome {
    /// No reply within the timeout, or nothing sent: a missing data point.
    Timeout,
    /// A parseable ICMP reply, attributed to its sender.
    Replied { source: Ipv4Address, rtt_ms: u64, icmp_type: u8, icmp_code: u8 },
    /// A reply too malformed to parse: the elapsed time is kept, but the
    /// reply is not attributed to any address.
    Unattributed { rtt_ms: u64 },
}

/// The source address an outcome is attributed to, if any.
pub open spec fn outcome_source(o: ProbeOutcome) -> Option<Ipv4Address> {
    match o {
        ProbeOutcome::Replied { source, .. } => Some(source),
        _ => None,
    }
}

/// How an event is recorded: a failed send and a timeout are both a missing
/// data point; a received datagram is attributed to its sender exactly when
/// its IPv4 header and ICMP type and code can be parsed out of it.
pub open spec fn classify_spec(ev: ProbeEvent) -> ProbeOutcome {
    match ev {
        ProbeEvent::SendFailed => ProbeOutcome::Timeout,
        ProbeEvent::TimedOut => ProbeOutcome::Timeout,
        ProbeEvent::Received { data, source, rtt_ms } => match parsed_icmp(data@) {
            Some(tc) => ProbeOutcome::Replied {
                source,
                rtt_ms,
                icmp_type: tc.0,
                icmp_code: tc.1,
            },
            None => ProbeOutcome::Unattributed { rtt_ms },
        },
    }
}

/// Record one probe's transport event as its outcome.
pub fn classify_probe(ev: &ProbeEvent) -> (o: ProbeOutcome)
    ensures
        o == classify_spec(*ev),
{
    match ev {
        ProbeEvent::SendFailed => ProbeOutcome::Timeout,
        ProbeEvent::TimedOut => ProbeOutcome::Timeout,
        ProbeEvent::Received { data, source, rtt_ms } => match crate::packet::parse_icmp_message(
            data,
        ) {
            Some(tc) => ProbeOutcome::Replied {
                source: *source,
                rtt_ms: *rtt_ms,
                icmp_type: tc.0,
                icmp_code: tc.1,
            },
            None => ProbeOutcome::Unattributed { rtt_ms: *rtt_ms },
        },
    }
}

/// The hop's representative address: the first outcome, in probe order,
/// that carries a source address.
pub open spec fn representative_spec(outcomes: Seq<ProbeOutcome>) -> Option<Ipv4Address>
    decreases outcomes.len(),
{
    if outcomes.len() == 0 {
        None
    } else if outcome_source(outcomes[0]) is Some {
        outcome_source(outcomes[0])
    } else {
        representative_spec(outcomes.drop_first())
    }
}

/// One hop of the trace: the TTL its probes were sent with, and one
/// outcome per probe, in probe order.
#[derive(Debug)]
pub struct HopResult {
    pub ttl: u32,
    pub outcomes: Vec<ProbeOutcome>,
}

impl HopResult {
    /// The hop's representative address, or `None` when no probe was
    /// attributed.
    pub fn representative(&self) -> (r: Option<Ipv4Address>)
        ensures
            r == representative_spec(self.outcomes@),
    {
        representative_address(&self.outcomes)
    }

    /// Whether this hop's representative address is `dest`: the trace's
    /// destination-reached signal.
    pub fn reaches(&self, dest: Ipv4Address) -> (r: bool)
        ensures
            r == (representative_spec(self.outcomes@) == Some(dest)),
    {
        match self.representative() {
            Some(ip) => ip == dest,
            None => false,
        }
    }
}

/// Find the first outcome that carries a source address.
pub fn representative_address(outcomes: &Vec<ProbeOutcome>) -> (r: Option<Ipv4Address>)
    ensures
        r == representative_spec(outcomes@),
{
    let n = outcomes.len();
    let mut i: usize = 0;
    proof {
        assert(outcomes@.skip(0) =~= outcomes@);
    }
    while i < n
        invariant
            i <= n,
            n == outcomes@.len(),
            representative_spec(outcomes@) == representative_spec(outcomes@.skip(i as int)),
        decreases n - i,
    {
        assert(outcomes@.skip(i as int)[0] == outcomes@[i as int]);
        match outcomes[i] {
            ProbeOutcome::Replied { source, .. } => {
                return Some(source);
            },
            _ => {
                proof {
                    assert(outcomes@.skip(i as int).drop_first() =~= outcomes@.skip(i + 1));
                }
                i = i + 1;
            },
        }
    }
    assert(outcomes@.skip(i as int).len() == 0);
    None
}

} // verus!
