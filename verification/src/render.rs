//! Textual rendering of hop results.
//!
//! One hop becomes one output line: the TTL, then the hop's representative
//! address or `*`, then one field per probe holding its round-trip time in
//! milliseconds or `*` for a timed-out or unattributed probe, all separated
//! by two spaces.  The functions here produce the exact bytes of the line;
//! writing them to a stream happens outside the library.

use vstd::prelude::*;

use crate::addr::Ipv4Address;
use crate::digits::{dec_bytes, push_dec};
use crate::probe::{representative_address, representative_spec, HopResult, ProbeOutcome};

verus! {

/// The byte `b'*'`: a missing address or a missing round-trip time.
pub const STAR_BYTE: u8 = 42;

/// The byte `b'.'`, the separator of a dotted quad.
pub const DOT_BYTE: u8 = 46;

/// The byte `b' '`.
pub const SPACE_BYTE: u8 = 32;

/// The dotted-quad rendering of an IPv4 address.
pub open spec fn ipv4_bytes(ip: Ipv4Address) -> Seq<u8> {
    dec_bytes(ip.a as nat) + seq![DOT_BYTE] + dec_bytes(ip.b as nat) + seq![DOT_BYTE] + dec_bytes(
        ip.c as nat,
    ) + seq![DOT_BYTE] + dec_bytes(ip.d as nat)
}

/// Append the dotted-quad rendering of `ip` to `out`.
pub fn push_ipv4(out: &mut Vec<u8>, ip: Ipv4Address)
    ensures
        final(out)@ == old(out)@ + ipv4_bytes(ip),
{
    push_dec(out, ip.a as u64);
    out.push(DOT_BYTE);
    push_dec(out, ip.b as u64);
    out.push(DOT_BYTE);
    push_dec(out, ip.c as u64);
    out.push(DOT_BYTE);
    push_dec(out, ip.d as u64);
    assert(out@ =~= old(out)@ + ipv4_bytes(ip));
}

/// One probe's field on the hop line: the round-trip time of an attributed
/// reply, in milliseconds with a `ms` unit, or `*`.
pub open spec fn outcome_bytes(o: ProbeOutcome) -> Seq<u8> {
    match o {
        ProbeOutcome::Replied { rtt_ms, .. } => dec_bytes(rtt_ms as nat) + seq![
            SPACE_BYTE,
            109u8,
            115u8,
        ],
        _ => seq![STAR_BYTE],
    }
}

/// The probe fields of a hop line, in probe order, each preceded by two
/// spaces.
pub open spec fn outcome_fields(s: Seq<ProbeOutcome>) -> Seq<u8>
    decreases s.len(),
{
    if s.len() == 0 {
        Seq::empty()
    } else {
        outcome_fields(s.drop_last()) + seq![SPACE_BYTE, SPACE_BYTE] + outcome_bytes(s.last())
    }
}

/// The whole hop line: TTL, two spaces, the representative address or `*`,
/// then the probe fields.
pub open spec fn hop_line_bytes(hop: HopResult) -> Seq<u8> {
    dec_bytes(hop.ttl as nat) + seq![SPACE_BYTE, SPACE_BYTE] + match representative_spec(
        hop.outcomes@,
    ) {
        Some(ip) => ipv4_bytes(ip),
        None => seq![STAR_BYTE],
    } + outcome_fields(hop.outcomes@)
}

/// Render one hop as the bytes of its output line.
pub fn format_hop_line(hop: &HopResult) -> (line: Vec<u8>)
    ensures
        line@ == hop_line_bytes(*hop),
{
    let mut line: Vec<u8> = Vec::new();
    push_dec(&mut line, hop.ttl as u64);
    line.push(SPACE_BYTE);
    line.push(SPACE_BYTE);
    match representative_address(&hop.outcomes) {
        Some(ip) => push_ipv4(&mut line, ip),
        None => line.push(STAR_BYTE),
    }
    let ghost head = line@;
    proof {
        assert(head =~= dec_bytes(hop.ttl as nat) + seq![SPACE_BYTE, SPACE_BYTE] + match
            representative_spec(hop.outcomes@) {
            Some(ip) => ipv4_bytes(ip),
            None => seq![STAR_BYTE],
        });
        assert(hop.outcomes@.subrange(0, 0) =~= Seq::<ProbeOutcome>::empty());
        assert(head + outcome_fields(hop.outcomes@.subrange(0, 0)) =~= head);
    }
    let n = hop.outcomes.len();
    let mut i: usize = 0;
    while i < n
        invariant
            i <= n,
            n == hop.outcomes@.len(),
            line@ == head + outcome_fields(hop.outcomes@.subrange(0, i as int)),
        decreases n - i,
    {
        line.push(SPACE_BYTE);
        line.push(SPACE_BYTE);
        match hop.outcomes[i] {
            ProbeOutcome::Replied { rtt_ms, .. } => {
                push_dec(&mut line, rtt_ms);
                line.push(SPACE_BYTE);
                line.push(109);  // 'm'
                line.push(115);  // 's'
            },
            _ => {
                line.push(STAR_BYTE);
            },
        }
        proof {
            let done = hop.outcomes@.subrange(0, i + 1);
            assert(done.drop_last() =~= hop.outcomes@.subrange(0, i as int));
            assert(done.last() == hop.outcomes@[i as int]);
            assert(line@ =~= head + outcome_fields(done));
        }
        i = i + 1;
    }
    proof {
        assert(hop.outcomes@.subrange(0, n as int) =~= hop.outcomes@);
    }
    line
}

/// The terminal notice printed when a hop's representative address is the
/// destination itself.
pub fn reached_notice() -> (s: &'static str)
    ensures
        s@ == "Reached destination."@,
{
    "Reached destination."
}

} // verus!
