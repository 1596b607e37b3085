//! Probe payloads and ICMP reply datagrams.
//!
//! An ICMP reply arrives as a raw IPv4 datagram: the IPv4 header (whose
//! length in bytes is four times the low nibble of the first byte) followed
//! by the ICMP type and code.  A datagram too short to hold both header and
//! those two bytes is malformed.
//!
//! An outgoing probe carries a short textual payload tagged with the TTL,
//! the probe index, and a random nonce, so that distinct probes carry
//! distinct payloads with overwhelming likelihood.  The nonce is drawn from
//! the process-wide random generator; everything after the draw is verified
//! for every nonce value.

use vstd::prelude::*;

use crate::digits::{dec_bytes, lemma_dec_bytes_are_digits, lemma_dec_bytes_injective, push_dec};

verus! {

/// Length in bytes of the IPv4 header that opens `b`: four times the low
/// nibble of the first byte.
pub open spec fn ip_header_len(b: Seq<u8>) -> int
    recommends
        b.len() >= 1,
{
    4 * (b[0] & 0x0f)
}

/// The ICMP type and code carried by the raw IPv4 datagram `b`, or `None`
/// when the datagram is too short to hold its own IPv4 header plus the two
/// ICMP bytes.
pub open spec fn parsed_icmp(b: Seq<u8>) -> Option<(u8, u8)> {
    if b.len() >= 1 && b.len() >= ip_header_len(b) + 2 {
        Some((b[ip_header_len(b)], b[ip_header_len(b) + 1]))
    } else {
        None
    }
}

/// Read the ICMP type and code out of a raw IPv4 datagram, or report it
/// malformed.
pub fn parse_icmp_message(buf: &Vec<u8>) -> (r: Option<(u8, u8)>)
    ensures
        r == parsed_icmp(buf@),
{
    if buf.len() == 0 {
        return None;
    }
    let header_len: usize = ((buf[0] & 0x0f) as usize) * 4;
    if buf.len() >= header_len + 2 {
        Some((buf[header_len], buf[header_len + 1]))
    } else {
        None
    }
}

/// How the trace reads an ICMP message, following the two-message-type
/// mechanism of UDP traceroute.
#[derive(Clone, Copy, Debug, PartialEq, Eq, Structural)]
pub enum IcmpKind {
    /// Type 11: a router on the way decremented the TTL to zero.
    TimeExceeded,
    /// Type 3: the destination answered; code 3 (port unreachable) is the
    /// expected destination-reached signal for a UDP probe.
    DestinationUnreachable { port_unreachable: bool },
    /// Type 0: not expected for UDP probes, tolerated.
    EchoReply,
    /// Anything else: recorded, not specially interpreted.
    Other,
}

/// The reading of an ICMP type and code.
pub open spec fn icmp_kind(icmp_type: u8, icmp_code: u8) -> IcmpKind {
    if icmp_type == 11 {
        IcmpKind::TimeExceeded
    } else if icmp_type == 3 {
        IcmpKind::DestinationUnreachable { port_unreachable: icmp_code == 3 }
    } else if icmp_type == 0 {
        IcmpKind::EchoReply
    } else {
        IcmpKind::Other
    }
}

/// Classify an ICMP type and code.  Termination of the trace is decided by
/// address match alone, never by this classification; it is for reporting.
pub fn classify_icmp(icmp_type: u8, icmp_code: u8) -> (k: IcmpKind)
    ensures
        k == icmp_kind(icmp_type, icmp_code),
{
    if icmp_type == 11 {
        IcmpKind::TimeExceeded
    } else if icmp_type == 3 {
        IcmpKind::DestinationUnreachable { port_unreachable: icmp_code == 3 }
    } else if icmp_type == 0 {
        IcmpKind::EchoReply
    } else {
        IcmpKind::Other
    }
}

/// The byte `b'_'`, the separator inside a probe payload.
pub const UNDERSCORE_BYTE: u8 = 95;

/// The fixed tag that opens every probe payload: the ASCII bytes of
/// `"TRACEROUTE_RUST_"`.
pub open spec fn payload_prefix() -> Seq<u8> {
    seq![84u8, 82u8, 65u8, 67u8, 69u8, 82u8, 79u8, 85u8, 84u8, 69u8, 95u8, 82u8, 85u8, 83u8, 84u8, 95u8]
}

/// The probe payload: the fixed tag, then TTL, probe index and nonce in
/// decimal, separated by underscores.
pub open spec fn payload_bytes(ttl: u32, probe: u32, nonce: u16) -> Seq<u8> {
    payload_prefix() + dec_bytes(ttl as nat) + seq![UNDERSCORE_BYTE] + dec_bytes(probe as nat)
        + seq![UNDERSCORE_BYTE] + dec_bytes(nonce as nat)
}

/// Build the payload for the probe at `ttl` and `probe` with the given
/// nonce.
pub fn build_probe_payload(ttl: u32, probe: u32, nonce: u16) -> (v: Vec<u8>)
    ensures
        v@ == payload_bytes(ttl, probe, nonce),
{
    let mut v: Vec<u8> = Vec::new();
    v.push(84);  // 'T'
    v.push(82);  // 'R'
    v.push(65);  // 'A'
    v.push(67);  // 'C'
    v.push(69);  // 'E'
    v.push(82);  // 'R'
    v.push(79);  // 'O'
    v.push(85);  // 'U'
    v.push(84);  // 'T'
    v.push(69);  // 'E'
    v.push(95);  // '_'
    v.push(82);  // 'R'
    v.push(85);  // 'U'
    v.push(83);  // 'S'
    v.push(84);  // 'T'
    v.push(95);  // '_'
    assert(v@ =~= payload_prefix());
    push_dec(&mut v, ttl as u64);
    v.push(UNDERSCORE_BYTE);
    push_dec(&mut v, probe as u64);
    v.push(UNDERSCORE_BYTE);
    push_dec(&mut v, nonce as u64);
    assert(v@ =~= payload_bytes(ttl, probe, nonce));
    v
}

/// Sequences free of the separator byte, followed by the separator, split
/// uniquely: the parts on both sides of the first separator match.
proof fn lemma_split_at_separator(a1: Seq<u8>, r1: Seq<u8>, a2: Seq<u8>, r2: Seq<u8>)
    requires
        a1 + seq![UNDERSCORE_BYTE] + r1 == a2 + seq![UNDERSCORE_BYTE] + r2,
        forall|i: int| 0 <= i < a1.len() ==> #[trigger] a1[i] != UNDERSCORE_BYTE,
        forall|i: int| 0 <= i < a2.len() ==> #[trigger] a2[i] != UNDERSCORE_BYTE,
    ensures
        a1 == a2,
        r1 == r2,
{
    let s1 = a1 + seq![UNDERSCORE_BYTE] + r1;
    let s2 = a2 + seq![UNDERSCORE_BYTE] + r2;
    if a1.len() < a2.len() {
        assert(s1[a1.len() as int] == UNDERSCORE_BYTE);
        assert(s2[a1.len() as int] == a2[a1.len() as int]);
        assert(false);
    }
    if a2.len() < a1.len() {
        assert(s2[a2.len() as int] == UNDERSCORE_BYTE);
        assert(s1[a2.len() as int] == a1[a2.len() as int]);
        assert(false);
    }
    assert forall|i: int| 0 <= i < a1.len() implies a1[i] == a2[i] by {
        assert(s1[i] == a1[i]);
        assert(s2[i] == a2[i]);
    }
    assert(a1 =~= a2);
    assert(s1.len() == a1.len() + 1 + r1.len());
    assert(s2.len() == a2.len() + 1 + r2.len());
    assert(r1.len() == r2.len());
    assert forall|i: int| 0 <= i < r1.len() implies r1[i] == r2[i] by {
        assert(s1[a1.len() + 1 + i] == r1[i]);
        assert(s2[a2.len() + 1 + i] == r2[i]);
    }
    assert(r1 =~= r2);
}

/// Payloads are uniquely tagged: probes that differ in TTL, probe index,
/// or nonce never carry the same payload, which is what lets a payload
/// echoed inside a reply be told apart from any other probe's.
pub proof fn lemma_payload_unique(t1: u32, p1: u32, n1: u16, t2: u32, p2: u32, n2: u16)
    requires
        payload_bytes(t1, p1, n1) == payload_bytes(t2, p2, n2),
    ensures
        t1 == t2,
        p1 == p2,
        n1 == n2,
{
    let sep = seq![UNDERSCORE_BYTE];
    let rest1 = dec_bytes(p1 as nat) + sep + dec_bytes(n1 as nat);
    let rest2 = dec_bytes(p2 as nat) + sep + dec_bytes(n2 as nat);
    let tail1 = dec_bytes(t1 as nat) + sep + rest1;
    let tail2 = dec_bytes(t2 as nat) + sep + rest2;
    assert(payload_bytes(t1, p1, n1) =~= payload_prefix() + tail1);
    assert(payload_bytes(t2, p2, n2) =~= payload_prefix() + tail2);
    assert(tail1.len() == tail2.len());
    assert forall|i: int| 0 <= i < tail1.len() implies tail1[i] == tail2[i] by {
        assert((payload_prefix() + tail1)[payload_prefix().len() + i] == tail1[i]);
        assert((payload_prefix() + tail2)[payload_prefix().len() + i] == tail2[i]);
    }
    assert(tail1 =~= tail2);
    lemma_dec_bytes_are_digits(t1 as nat);
    lemma_dec_bytes_are_digits(t2 as nat);
    lemma_dec_bytes_are_digits(p1 as nat);
    lemma_dec_bytes_are_digits(p2 as nat);
    lemma_split_at_separator(dec_bytes(t1 as nat), rest1, dec_bytes(t2 as nat), rest2);
    lemma_dec_bytes_injective(t1 as nat, t2 as nat);
    lemma_split_at_separator(
        dec_bytes(p1 as nat),
        dec_bytes(n1 as nat),
        dec_bytes(p2 as nat),
        dec_bytes(n2 as nat),
    );
    lemma_dec_bytes_injective(p1 as nat, p2 as nat);
    lemma_dec_bytes_injective(n1 as nat, n2 as nat);
}

/// Relies on rand::random: draws a value of the asked-for type from the
/// thread-local generator.  Nothing can be promised of a random value.
#[verifier::external_body]
fn random_nonce() -> u16 {
    rand::random::<u16>()
}

/// Build the payload for the probe at `ttl` and `probe`, tagged with a
/// fresh random nonce.
pub fn make_payload(ttl: u32, probe: u32) -> (v: Vec<u8>)
    ensures
        exists|nonce: u16| v@ == payload_bytes(ttl, probe, nonce),
{
    let nonce = random_nonce();
    let v = build_probe_payload(ttl, probe, nonce);
    proof {
        assert(v@ == payload_bytes(ttl, probe, nonce));
    }
    v
}

} // verus!
