//! IPv4 addresses, resolution candidates, and the trace error taxonomy.
//!
//! The trace works on IPv4 alone.  Name resolution itself is an operating
//! system service and happens outside the library; it hands back a list of
//! [`CandidateAddress`] values (one per resolved socket address, IPv4 ones
//! carrying their octets), and [`select_ipv4`] picks the destination from
//! that list or explains why none can be picked.

use vstd::prelude::*;

verus! {

/// An IPv4 address as four octets.
#[derive(Clone, Copy, Debug, PartialEq, Eq, Structural)]
pub struct Ipv4Address {
    pub a: u8,
    pub b: u8,
    pub c: u8,
    pub d: u8,
}

impl Ipv4Address {
    /// Build an address from its four dotted-quad octets, in order.
    pub fn new(a: u8, b: u8, c: u8, d: u8) -> (r: Ipv4Address)
        ensures
            r == (Ipv4Address { a, b, c, d }),
    {
        Ipv4Address { a, b, c, d }
    }
}

/// One address produced by name resolution: either an IPv4 address, carried
/// in full, or an address of another family, which the trace cannot use.
#[derive(Clone, Copy, Debug, PartialEq, Eq, Structural)]
pub enum CandidateAddress {
    V4(Ipv4Address),
    OtherFamily,
}

/// Why resolution produced no usable destination.
#[derive(Clone, Copy, Debug, PartialEq, Eq, Structural)]
pub enum ResolutionFailureKind {
    /// The host did not resolve to any address at all.
    NoAddress,
    /// The host resolved, but only to addresses of an unsupported family.
    UnsupportedFamilyOnly,
}

/// A fatal, setup-phase trace error.  Per-probe losses are not errors and
/// are recorded as probe outcomes instead.
#[derive(Clone, Copy, Debug, PartialEq, Eq, Structural)]
pub enum TraceError {
    /// The host does not resolve, or resolves only to an unsupported
    /// address family; the trace never starts.
    ResolutionFailure(ResolutionFailureKind),
    /// The receive or send capability could not be set up (typically a
    /// privilege denial on the raw ICMP socket); the trace never starts.
    SocketSetupFailure,
}

impl TraceError {
    /// A diagnostic line for the operator, distinguishing the failure kinds.
    pub fn message(&self) -> (m: &'static str)
        ensures
            m@ == match *self {
                TraceError::ResolutionFailure(ResolutionFailureKind::NoAddress) => "failed to resolve host"@,
                TraceError::ResolutionFailure(ResolutionFailureKind::UnsupportedFamilyOnly) => "host resolved only to non-IPv4 addresses, which are unsupported"@,
                TraceError::SocketSetupFailure => "could not set up trace sockets (raw ICMP receive needs elevated privilege)"@,
            },
    {
        match *self {
            TraceError::ResolutionFailure(ResolutionFailureKind::NoAddress) => "failed to resolve host",
            TraceError::ResolutionFailure(ResolutionFailureKind::UnsupportedFamilyOnly) => "host resolved only to non-IPv4 addresses, which are unsupported",
            TraceError::SocketSetupFailure => "could not set up trace sockets (raw ICMP receive needs elevated privilege)",
        }
    }
}

/// The first IPv4 entry of a resolution result, if any.
pub open spec fn first_v4(candidates: Seq<CandidateAddress>) -> Option<Ipv4Address>
    decreases candidates.len(),
{
    if candidates.len() == 0 {
        None
    } else {
        match candidates[0] {
            CandidateAddress::V4(ip) => Some(ip),
            CandidateAddress::OtherFamily => first_v4(candidates.drop_first()),
        }
    }
}

/// Pick the trace destination from a resolution result: the first IPv4
/// entry.  An empty list means the host did not resolve; a non-empty list
/// without any IPv4 entry means it resolved only to unsupported families.
pub fn select_ipv4(candidates: &Vec<CandidateAddress>) -> (r: Result<Ipv4Address, TraceError>)
    ensures
        match r {
            Ok(ip) => first_v4(candidates@) == Some(ip),
            Err(e) => {
                &&& first_v4(candidates@) is None
                &&& e == if candidates@.len() == 0 {
                    TraceError::ResolutionFailure(ResolutionFailureKind::NoAddress)
                } else {
                    TraceError::ResolutionFailure(ResolutionFailureKind::UnsupportedFamilyOnly)
                }
            },
        },
{
    let n = candidates.len();
    let mut i: usize = 0;
    proof {
        assert(candidates@.skip(0) =~= candidates@);
    }
    while i < n
        invariant
            i <= n,
            n == candidates@.len(),
            first_v4(candidates@) == first_v4(candidates@.skip(i as int)),
            forall|k: int| 0 <= k < i ==> candidates@[k] is OtherFamily,
        decreases n - i,
    {
        match candidates[i] {
            CandidateAddress::V4(ip) => {
                assert(candidates@.skip(i as int)[0] == candidates@[i as int]);
                return Ok(ip);
            },
            CandidateAddress::OtherFamily => {
                proof {
                    assert(candidates@.skip(i as int)[0] == candidates@[i as int]);
                    assert(candidates@.skip(i as int).drop_first() =~= candidates@.skip(i + 1));
                }
                i = i + 1;
            },
        }
    }
    assert(candidates@.skip(i as int).len() == 0);
    if n == 0 {
        Err(TraceError::ResolutionFailure(ResolutionFailureKind::NoAddress))
    } else {
        Err(TraceError::ResolutionFailure(ResolutionFailureKind::UnsupportedFamilyOnly))
    }
}

} // verus!
