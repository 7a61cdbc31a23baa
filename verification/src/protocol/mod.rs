//! Control protocol between client and server: message payload types and
//! the length-prefixed framing of messages on the control connection.
//! Messages travel as JSON; the JSON text is produced and read by the
//! binary around this library, the framing is checked here.

pub mod client;
pub mod clock;
pub mod session;

use vstd::prelude::*;

use crate::strutil::{dec_str, push_decimal, str_eq};
use crate::traffic::packet::{be32, u32_at};

verus! {

/// The client's test request.
#[derive(Debug, Clone)]
pub struct HelloMsg {
    pub mode: TestMode,
    pub protocol: Protocol,
    pub duration_secs: u32,
    pub packet_size: u32,
    pub rate_pps: u32,
    pub pattern: TrafficPattern,
    pub streams_per_direction: u32,
    pub rrul_baseline_secs: u32,
    pub rrul_ramp_up_ms: u32,
    pub cross_host: bool,
}

/// Port assignment for a specific stream.
#[derive(Debug, Clone, Copy, PartialEq, Eq, Structural)]
pub struct PortAssignment {
    pub stream_id: u8,
    pub port: u16,
}

/// The server's answer to a hello: where to send data.
#[derive(Debug, Clone)]
pub struct ReadyMsg {
    pub udp_port: u16,
    pub tcp_ports: Vec<PortAssignment>,
}

/// One clock synchronization round trip; the server fills in its times.
#[derive(Debug, Clone, Copy, PartialEq, Eq, Structural)]
pub struct ClockSyncMsg {
    pub client_send_ns: u128,
    pub server_recv_ns: Option<u128>,
    pub server_send_ns: Option<u128>,
}

/// Start of the data phase, with the client's own receive ports.
#[derive(Debug, Clone)]
pub struct StartMsg {
    pub client_udp_port: Option<u16>,
    pub client_tcp_ports: Vec<PortAssignment>,
}

/// A failure reported to the peer.
#[derive(Debug, Clone)]
pub struct ErrorMsg {
    pub reason: String,
}

#[derive(Debug, Clone, Copy, PartialEq, Eq, Structural)]
pub enum TestMode {
    Throughput,
    Latency,
    Rrul,
    Bidirectional,
}

#[derive(Debug, Clone, Copy, PartialEq, Eq, Structural)]
pub enum Protocol {
    Tcp,
    Udp,
}

#[derive(Debug, Clone, Copy, PartialEq, Eq, Structural)]
pub enum TrafficPattern {
    Fixed,
    Imix,
    Sweep,
}

#[derive(Debug, Clone, Copy, PartialEq, Eq, Structural)]
pub enum SessionStatus {
    Complete,
    Interrupted,
    Partial,
}

#[derive(Debug, Clone, Copy, PartialEq, Eq, Structural)]
pub enum StreamStatus {
    Complete,
    Failed,
    EarlyExit,
}

/// The test mode a command-line name stands for (names are lower case).
pub open spec fn mode_named(s: Seq<char>) -> Option<TestMode> {
    if s == "throughput"@ {
        Some(TestMode::Throughput)
    } else if s == "latency"@ {
        Some(TestMode::Latency)
    } else if s == "rrul"@ {
        Some(TestMode::Rrul)
    } else if s == "bidirectional"@ {
        Some(TestMode::Bidirectional)
    } else {
        None
    }
}

/// The traffic pattern a command-line name stands for.
pub open spec fn pattern_named(s: Seq<char>) -> Option<TrafficPattern> {
    if s == "fixed"@ {
        Some(TrafficPattern::Fixed)
    } else if s == "imix"@ {
        Some(TrafficPattern::Imix)
    } else if s == "sweep"@ {
        Some(TrafficPattern::Sweep)
    } else {
        None
    }
}

/// The throughput protocol a command-line name stands for.
pub open spec fn protocol_named(s: Seq<char>) -> Option<Protocol> {
    if s == "tcp"@ {
        Some(Protocol::Tcp)
    } else if s == "udp"@ {
        Some(Protocol::Udp)
    } else {
        None
    }
}

/// The lower-case name of a test mode, as command lines and reports use it.
pub open spec fn mode_label(m: TestMode) -> Seq<char> {
    match m {
        TestMode::Throughput => "throughput"@,
        TestMode::Latency => "latency"@,
        TestMode::Rrul => "rrul"@,
        TestMode::Bidirectional => "bidirectional"@,
    }
}

/// The lower-case name of a test mode.
pub fn mode_name(m: TestMode) -> (r: &'static str)
    ensures
        r@ == mode_label(m),
{
    match m {
        TestMode::Throughput => "throughput",
        TestMode::Latency => "latency",
        TestMode::Rrul => "rrul",
        TestMode::Bidirectional => "bidirectional",
    }
}

/// A mode's name parses back to the mode.
pub proof fn lemma_mode_name_parses(m: TestMode)
    ensures
        mode_named(mode_label(m)) == Some(m),
{
    reveal_strlit("throughput");
    reveal_strlit("latency");
    reveal_strlit("rrul");
    reveal_strlit("bidirectional");
    assert("throughput"@.len() == 10);
    assert("latency"@.len() == 7);
    assert("rrul"@.len() == 4);
    assert("bidirectional"@.len() == 13);
}

/// Parses a test mode name: throughput, latency, rrul or bidirectional.
/// `None` for any other text.
pub fn parse_mode(s: &str) -> (r: Option<TestMode>)
    ensures
        r == mode_named(s@),
{
    if str_eq(s, "throughput") {
        Some(TestMode::Throughput)
    } else if str_eq(s, "latency") {
        Some(TestMode::Latency)
    } else if str_eq(s, "rrul") {
        Some(TestMode::Rrul)
    } else if str_eq(s, "bidirectional") {
        Some(TestMode::Bidirectional)
    } else {
        None
    }
}

/// Parses a traffic pattern name: fixed, imix or sweep. `None` for any
/// other text.
pub fn parse_pattern(s: &str) -> (r: Option<TrafficPattern>)
    ensures
        r == pattern_named(s@),
{
    if str_eq(s, "fixed") {
        Some(TrafficPattern::Fixed)
    } else if str_eq(s, "imix") {
        Some(TrafficPattern::Imix)
    } else if str_eq(s, "sweep") {
        Some(TrafficPattern::Sweep)
    } else {
        None
    }
}

/// Parses a throughput protocol name: tcp or udp. `None` for any other
/// text.
pub fn parse_protocol(s: &str) -> (r: Option<Protocol>)
    ensures
        r == protocol_named(s@),
{
    if str_eq(s, "tcp") {
        Some(Protocol::Tcp)
    } else if str_eq(s, "udp") {
        Some(Protocol::Udp)
    } else {
        None
    }
}

/// Largest message body a reader accepts, in bytes.
pub const MAX_MESSAGE_SIZE: usize = 1_048_576;

/// Size of the length prefix that precedes every message body.
pub const FRAME_PREFIX_SIZE: usize = 4;

/// A framed message: the body length as a big-endian `u32` (the length
/// taken modulo 2^32), then the body.
pub open spec fn frame_bytes(body: Seq<u8>) -> Seq<u8> {
    be32(body.len() as u32) + body
}

/// The error text for a length prefix above the limit.
pub open spec fn too_large_text(len: nat) -> Seq<char> {
    "message too large: "@ + dec_str(len) + " bytes"@
}

/// What a reader makes of a 4-byte length prefix: the body length, or the
/// error text when it exceeds `MAX_MESSAGE_SIZE`.
pub open spec fn frame_len_spec(prefix: Seq<u8>) -> Result<usize, Seq<char>> {
    let len = u32_at(prefix, 0);
    if len > MAX_MESSAGE_SIZE {
        Err(too_large_text(len as nat))
    } else {
        Ok(len as usize)
    }
}

/// Frames a message body for the control connection.
pub fn encode_frame(body: &[u8]) -> (r: Vec<u8>)
    ensures
        r@ == frame_bytes(body@),
{
    let len = body.len() as u32;
    let mut out: Vec<u8> = Vec::with_capacity(4);
    out.push((len >> 24u32) as u8);
    out.push((len >> 16u32) as u8);
    out.push((len >> 8u32) as u8);
    out.push(len as u8);
    let mut i: usize = 0;
    while i < body.len()
        invariant
            i <= body@.len(),
            out@ == be32(len) + body@.subrange(0, i as int),
        decreases body@.len() - i,
    {
        out.push(body[i]);
        i = i + 1;
        assert(out@ =~= be32(len) + body@.subrange(0, i as int));
    }
    assert(body@.subrange(0, body@.len() as int) =~= body@);
    out
}

/// Reads the body length from a length prefix, refusing bodies larger than
/// `MAX_MESSAGE_SIZE`.
pub fn decode_frame_len(prefix: &[u8]) -> (r: Result<usize, String>)
    requires
        prefix@.len() == FRAME_PREFIX_SIZE,
    ensures
        match frame_len_spec(prefix@) {
            Ok(n) => r == Ok::<usize, String>(n),
            Err(m) => r matches Err(e) && e@ == m,
        },
{
    let len = ((prefix[0] as u32) << 24u32) | ((prefix[1] as u32) << 16u32) | ((prefix[2] as u32)
        << 8u32) | (prefix[3] as u32);
    if len as usize > MAX_MESSAGE_SIZE {
        let mut msg = String::from_str("message too large: ");
        push_decimal(&mut msg, len as u64);
        msg.append(" bytes");
        return Err(msg);
    }
    Ok(len as usize)
}

/// A reader that takes the length prefix of a framed body gets that body's
/// length back, for any body up to `MAX_MESSAGE_SIZE` bytes.
pub proof fn lemma_frame_round_trip(body: Seq<u8>)
    requires
        body.len() <= MAX_MESSAGE_SIZE,
    ensures
        frame_len_spec(frame_bytes(body).subrange(0, 4)) == Ok::<usize, Seq<char>>(
            body.len() as usize,
        ),
        frame_bytes(body).subrange(4, frame_bytes(body).len() as int) == body,
{
    let f = frame_bytes(body);
    let p = f.subrange(0, 4);
    let x = body.len() as u32;
    assert(p =~= be32(x));
    let b0 = p[0];
    let b1 = p[1];
    let b2 = p[2];
    let b3 = p[3];
    assert(((b0 as u32) << 24u32) | ((b1 as u32) << 16u32) | ((b2 as u32) << 8u32) | (b3 as u32)
        == x) by (bit_vector)
        requires
            b0 == (x >> 24u32) as u8,
            b1 == (x >> 16u32) as u8,
            b2 == (x >> 8u32) as u8,
            b3 == x as u8,
    ;
    assert(f.subrange(4, f.len() as int) =~= body);
}

} // verus!
