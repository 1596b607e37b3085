//! UDP/ICMP traceroute probing logic.
//!
//! The library holds the protocol-level core of a classic UDP traceroute:
//! destination selection from resolved addresses, per-hop destination-port
//! computation, probe payload construction, ICMP reply parsing, per-probe
//! outcome classification, hop-by-hop early-termination decisions, and the
//! textual rendering of hop lines.  The raw-socket I/O that feeds these
//! functions lives outside the library; every decision the trace makes is
//! verified here over plain values.

pub mod addr;
pub mod digits;
pub mod packet;
pub mod probe;
pub mod render;
pub mod request;
pub mod engine;
