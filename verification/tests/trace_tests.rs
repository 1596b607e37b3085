use traceroute::addr::{CandidateAddress, Ipv4Address, ResolutionFailureKind, TraceError};
use traceroute::addr::select_ipv4;
use traceroute::engine::{prepare_trace, trace_with_events, TraceState};
use traceroute::packet::{build_probe_payload, classify_icmp, make_payload, parse_icmp_message,
    IcmpKind};
use traceroute::probe::{classify_probe, representative_address, HopResult, ProbeEvent,
    ProbeOutcome};
use traceroute::render::{format_hop_line, reached_notice};
use traceroute::request::TraceRequest;

fn ip(a: u8, b: u8, c: u8, d: u8) -> Ipv4Address {
    Ipv4Address::new(a, b, c, d)
}

/// A minimal raw IPv4 datagram carrying an ICMP header: a 20-byte IPv4
/// header (version 4, header length 5 words) followed by the ICMP type and
/// code.
fn icmp_datagram(icmp_type: u8, icmp_code: u8) -> Vec<u8> {
    let mut v = vec![0u8; 20];
    v[0] = 0x45;
    v.push(icmp_type);
    v.push(icmp_code);
    v
}

fn request(max_hops: u32, probes_per_hop: u32, start_port: u16) -> TraceRequest {
    let mut req = TraceRequest::new(String::from("example.com"));
    req.max_hops = max_hops;
    req.probes_per_hop = probes_per_hop;
    req.start_port = start_port;
    req
}

#[test]
fn sanity_check() {
    assert_eq!(1 + 1, 2);
}

#[test]
fn request_defaults() {
    let req = TraceRequest::new(String::from("example.com"));
    assert_eq!(req.host, "example.com");
    assert_eq!(req.max_hops, 30);
    assert_eq!(req.probes_per_hop, 3);
    assert_eq!(req.timeout_ms, 2000);
    assert_eq!(req.start_port, 33434);
}

#[test]
fn resolve_picks_first_ipv4() {
    let candidates = vec![
        CandidateAddress::OtherFamily,
        CandidateAddress::V4(ip(1, 2, 3, 4)),
        CandidateAddress::V4(ip(5, 6, 7, 8)),
    ];
    assert_eq!(select_ipv4(&candidates), Ok(ip(1, 2, 3, 4)));
}

#[test]
fn resolve_nothing_is_no_address() {
    let candidates: Vec<CandidateAddress> = Vec::new();
    let r = select_ipv4(&candidates);
    assert_eq!(
        r,
        Err(TraceError::ResolutionFailure(ResolutionFailureKind::NoAddress))
    );
    assert_eq!(r.unwrap_err().message(), "failed to resolve host");
}

#[test]
fn resolve_ipv6_only_is_unsupported_family() {
    let candidates = vec![CandidateAddress::OtherFamily, CandidateAddress::OtherFamily];
    let r = select_ipv4(&candidates);
    assert_eq!(
        r,
        Err(TraceError::ResolutionFailure(ResolutionFailureKind::UnsupportedFamilyOnly))
    );
    assert_eq!(
        r.unwrap_err().message(),
        "host resolved only to non-IPv4 addresses, which are unsupported"
    );
}

#[test]
fn ipv6_only_resolution_sends_no_probes() {
    let req = request(3, 1, 33434);
    let candidates = vec![CandidateAddress::OtherFamily];
    match prepare_trace(&req, &candidates) {
        Ok(_) => panic!("a trace must not start without an IPv4 destination"),
        Err(e) => assert_eq!(
            e,
            TraceError::ResolutionFailure(ResolutionFailureKind::UnsupportedFamilyOnly)
        ),
    }
}

#[test]
fn socket_setup_failure_message() {
    assert_eq!(
        TraceError::SocketSetupFailure.message(),
        "could not set up trace sockets (raw ICMP receive needs elevated privilege)"
    );
}

#[test]
fn parse_reads_type_and_code_after_header() {
    let datagram = icmp_datagram(11, 0);
    assert_eq!(parse_icmp_message(&datagram), Some((11, 0)));
}

#[test]
fn parse_honours_header_length_nibble() {
    // Header length 6 words = 24 bytes.
    let mut v = vec![0u8; 24];
    v[0] = 0x46;
    v.push(3);
    v.push(3);
    assert_eq!(parse_icmp_message(&v), Some((3, 3)));
}

#[test]
fn parse_rejects_short_datagrams() {
    assert_eq!(parse_icmp_message(&Vec::new()), None);
    assert_eq!(parse_icmp_message(&vec![0x45u8]), None);
    // 20-byte header plus only the type byte: the code is missing.
    let mut v = vec![0u8; 20];
    v[0] = 0x45;
    v.push(11);
    assert_eq!(parse_icmp_message(&v), None);
}

#[test]
fn icmp_kinds() {
    assert_eq!(classify_icmp(11, 0), IcmpKind::TimeExceeded);
    assert_eq!(
        classify_icmp(3, 3),
        IcmpKind::DestinationUnreachable { port_unreachable: true }
    );
    assert_eq!(
        classify_icmp(3, 1),
        IcmpKind::DestinationUnreachable { port_unreachable: false }
    );
    assert_eq!(classify_icmp(0, 0), IcmpKind::EchoReply);
    assert_eq!(classify_icmp(5, 0), IcmpKind::Other);
}

#[test]
fn timeouts_and_failed_sends_are_missing_data_points() {
    assert_eq!(classify_probe(&ProbeEvent::TimedOut), ProbeOutcome::Timeout);
    assert_eq!(classify_probe(&ProbeEvent::SendFailed), ProbeOutcome::Timeout);
}

#[test]
fn replies_are_attributed_to_their_sender() {
    let ev = ProbeEvent::Received {
        data: icmp_datagram(11, 0),
        source: ip(10, 0, 0, 1),
        rtt_ms: 23,
    };
    assert_eq!(
        classify_probe(&ev),
        ProbeOutcome::Replied { source: ip(10, 0, 0, 1), rtt_ms: 23, icmp_type: 11, icmp_code: 0 }
    );
}

#[test]
fn malformed_replies_keep_time_but_no_address() {
    let ev = ProbeEvent::Received {
        data: vec![0x45u8, 0u8],
        source: ip(10, 0, 0, 1),
        rtt_ms: 17,
    };
    assert_eq!(classify_probe(&ev), ProbeOutcome::Unattributed { rtt_ms: 17 });
}

#[test]
fn representative_is_first_attributed_outcome() {
    let outcomes = vec![
        ProbeOutcome::Timeout,
        ProbeOutcome::Unattributed { rtt_ms: 9 },
        ProbeOutcome::Replied { source: ip(10, 0, 0, 2), rtt_ms: 12, icmp_type: 11, icmp_code: 0 },
        ProbeOutcome::Replied { source: ip(10, 0, 0, 3), rtt_ms: 14, icmp_type: 11, icmp_code: 0 },
    ];
    assert_eq!(representative_address(&outcomes), Some(ip(10, 0, 0, 2)));
    assert_eq!(representative_address(&vec![ProbeOutcome::Timeout]), None);
}

#[test]
fn ports_advance_without_reuse() {
    let mut state = TraceState::new(ip(9, 9, 9, 9), 3, 3, 33434);
    let mut seen: Vec<u16> = Vec::new();
    for _hop in 0..3 {
        for p in 0..3 {
            seen.push(state.probe_port(p));
        }
        state.record_hop(vec![ProbeOutcome::Timeout; 3]);
    }
    assert_eq!(
        seen,
        vec![33434, 33435, 33436, 33437, 33438, 33439, 33440, 33441, 33442]
    );
    for a in 0..seen.len() {
        for b in (a + 1)..seen.len() {
            assert_ne!(seen[a], seen[b]);
        }
    }
}

#[test]
fn ports_wrap_in_the_16_bit_space() {
    let mut state = TraceState::new(ip(9, 9, 9, 9), 2, 3, 65534);
    assert_eq!(state.probe_port(0), 65534);
    assert_eq!(state.probe_port(1), 65535);
    assert_eq!(state.probe_port(2), 0);
    state.record_hop(vec![ProbeOutcome::Timeout; 3]);
    assert_eq!(state.probe_port(0), 1);
}

#[test]
fn payload_carries_ttl_probe_and_nonce() {
    let v = build_probe_payload(5, 2, 77);
    assert_eq!(v, b"TRACEROUTE_RUST_5_2_77".to_vec());
}

#[test]
fn fresh_payload_is_tagged_with_ttl_and_probe() {
    let v = make_payload(12, 0);
    assert!(v.starts_with(b"TRACEROUTE_RUST_12_0_"));
    for &byte in &v[b"TRACEROUTE_RUST_12_0_".len()..] {
        assert!(byte.is_ascii_digit());
    }
}

#[test]
fn hop_line_with_all_timeouts() {
    let hop = HopResult { ttl: 1, outcomes: vec![ProbeOutcome::Timeout] };
    assert_eq!(format_hop_line(&hop), b"1  *  *".to_vec());
}

#[test]
fn hop_line_with_reply_and_timeout() {
    let hop = HopResult {
        ttl: 2,
        outcomes: vec![
            ProbeOutcome::Replied { source: ip(1, 2, 3, 4), rtt_ms: 23, icmp_type: 11, icmp_code: 0 },
            ProbeOutcome::Timeout,
        ],
    };
    assert_eq!(format_hop_line(&hop), b"2  1.2.3.4  23 ms  *".to_vec());
}

#[test]
fn hop_line_unattributed_shows_stars() {
    let hop = HopResult {
        ttl: 7,
        outcomes: vec![ProbeOutcome::Unattributed { rtt_ms: 31 }, ProbeOutcome::Timeout],
    };
    assert_eq!(format_hop_line(&hop), b"7  *  *  *".to_vec());
}

#[test]
fn all_hops_time_out() {
    // Destination 93.184.216.34, three hops at most, one probe per hop,
    // every probe lost: three hop lines of stars and no early stop.
    let req = request(3, 1, 33434);
    let dest = ip(93, 184, 216, 34);
    let events = vec![
        vec![ProbeEvent::TimedOut],
        vec![ProbeEvent::TimedOut],
        vec![ProbeEvent::TimedOut],
    ];
    let report = trace_with_events(&req, dest, &events);
    assert!(!report.reached);
    assert_eq!(report.hops.len(), 3);
    for (i, hop) in report.hops.iter().enumerate() {
        assert_eq!(hop.ttl as usize, i + 1);
        assert_eq!(hop.outcomes.len(), 1);
        assert_eq!(hop.outcomes[0], ProbeOutcome::Timeout);
    }
    assert_eq!(format_hop_line(&report.hops[0]), b"1  *  *".to_vec());
    assert_eq!(format_hop_line(&report.hops[1]), b"2  *  *".to_vec());
    assert_eq!(format_hop_line(&report.hops[2]), b"3  *  *".to_vec());
}

#[test]
fn trace_stops_at_the_destination() {
    // Two routers answer with time-exceeded, then the destination answers
    // with port-unreachable: exactly three hops, no fourth probed even
    // with thirty allowed.
    let dest = ip(93, 184, 216, 34);
    let router1 = ip(10, 0, 0, 1);
    let router2 = ip(10, 0, 0, 2);
    let req = request(30, 1, 33434);
    let mut events = vec![
        vec![ProbeEvent::Received { data: icmp_datagram(11, 0), source: router1, rtt_ms: 10 }],
        vec![ProbeEvent::Received { data: icmp_datagram(11, 0), source: router2, rtt_ms: 20 }],
        vec![ProbeEvent::Received { data: icmp_datagram(3, 3), source: dest, rtt_ms: 30 }],
    ];
    for _ in 3..30 {
        events.push(vec![ProbeEvent::TimedOut]);
    }
    let report = trace_with_events(&req, dest, &events);
    assert!(report.reached);
    assert_eq!(report.hops.len(), 3);
    assert_eq!(report.hops[0].representative(), Some(router1));
    assert_eq!(report.hops[1].representative(), Some(router2));
    assert_eq!(report.hops[2].representative(), Some(dest));
    assert!(report.hops[2].reaches(dest));
    assert_eq!(format_hop_line(&report.hops[0]), b"1  10.0.0.1  10 ms".to_vec());
    assert_eq!(format_hop_line(&report.hops[2]), b"3  93.184.216.34  30 ms".to_vec());
    assert_eq!(reached_notice(), "Reached destination.");
}

#[test]
fn every_hop_records_one_outcome_per_probe() {
    // Three probes per hop, mixed events: each hop reports exactly three
    // outcomes, in probe order.
    let dest = ip(93, 184, 216, 34);
    let router = ip(10, 0, 0, 1);
    let req = request(2, 3, 33434);
    let events = vec![
        vec![
            ProbeEvent::TimedOut,
            ProbeEvent::Received { data: icmp_datagram(11, 0), source: router, rtt_ms: 8 },
            ProbeEvent::Received { data: vec![0x45u8], source: router, rtt_ms: 9 },
        ],
        vec![ProbeEvent::SendFailed, ProbeEvent::TimedOut, ProbeEvent::TimedOut],
    ];
    let report = trace_with_events(&req, dest, &events);
    assert!(!report.reached);
    assert_eq!(report.hops.len(), 2);
    assert_eq!(
        report.hops[0].outcomes,
        vec![
            ProbeOutcome::Timeout,
            ProbeOutcome::Replied { source: router, rtt_ms: 8, icmp_type: 11, icmp_code: 0 },
            ProbeOutcome::Unattributed { rtt_ms: 9 },
        ]
    );
    assert_eq!(
        report.hops[1].outcomes,
        vec![ProbeOutcome::Timeout, ProbeOutcome::Timeout, ProbeOutcome::Timeout]
    );
}
