use std::time::Duration;

use bngtester::protocol::clock::{
    estimate_offset, latency_computable, one_way_latency, mono_now_ns, sync_rounds, ClockMode, ClockSample,
};
use bngtester::protocol::client::{ClientAction, ClientEvent, ClientSession};
use bngtester::protocol::session::{
    ControlMessage, FailureReason, HeartbeatTracker, ServerSession, SessionAction, SessionEvent,
    SessionState, HEARTBEAT_INTERVAL_NS, HEARTBEAT_TIMEOUT_SECS,
};
use bngtester::protocol::{
    decode_frame_len, encode_frame, mode_name, parse_mode, parse_pattern, parse_protocol, Protocol,
    SessionStatus, TestMode, TrafficPattern, MAX_MESSAGE_SIZE,
};

#[test]
fn same_host_no_correction() {
    let mode = ClockMode::SameHost;
    assert_eq!(mode.correct_latency(1000), 1000);
}

#[test]
fn estimated_offset_correction() {
    let mode = ClockMode::SyncEstimated { offset_ns: 500 };
    assert_eq!(mode.correct_latency(1500), 1000);
}

#[test]
fn clock_sample_offset() {
    let sample = ClockSample {
        client_send_ns: 1000,
        server_recv_ns: 1600,
        server_send_ns: 1700,
        client_recv_ns: 2200,
    };
    assert_eq!(sample.rtt_ns(), 1200);
    assert_eq!(sample.offset_ns(), 50);
}

#[test]
fn estimate_picks_lowest_rtt() {
    let samples = vec![
        ClockSample {
            client_send_ns: 0,
            server_recv_ns: 1000,
            server_send_ns: 1000,
            client_recv_ns: 5000,
        },
        ClockSample {
            client_send_ns: 10000,
            server_recv_ns: 10500,
            server_send_ns: 10500,
            client_recv_ns: 11000,
        },
    ];
    let offset = estimate_offset(&samples).unwrap();
    assert_eq!(offset, 0);
}

#[test]
fn mono_now_returns_nonzero() {
    assert!(mono_now_ns() > 0);
}

#[test]
fn negative_offsets_round_toward_zero() {
    let sample = ClockSample {
        client_send_ns: 1000,
        server_recv_ns: 1000,
        server_send_ns: 1000,
        client_recv_ns: 1003,
    };
    // ((1000-1000) + (1000-1003)) / 2 = -3 / 2 = -1
    assert_eq!(sample.offset_ns(), -1);
}

#[test]
fn estimate_takes_first_of_equal_rtts() {
    let samples = vec![
        ClockSample { client_send_ns: 0, server_recv_ns: 700, server_send_ns: 700, client_recv_ns: 1000 },
        ClockSample { client_send_ns: 0, server_recv_ns: 100, server_send_ns: 100, client_recv_ns: 1000 },
    ];
    assert_eq!(estimate_offset(&samples), Some(200));
    assert_eq!(estimate_offset(&[]), None);
    assert_eq!(sync_rounds(), 8);
    assert_eq!(ClockMode::SameHost.name(), "same-host");
    assert_eq!(ClockMode::SyncEstimated { offset_ns: 3 }.name(), "sync-estimated");
}

#[test]
fn initial_state() {
    let tracker = HeartbeatTracker::new();
    assert!(!tracker.is_timed_out());
    assert!(!tracker.should_send());
}

#[test]
fn heartbeat_timeout_constant() {
    assert_eq!(Duration::from_secs(HEARTBEAT_TIMEOUT_SECS), Duration::from_secs(15));
}

#[test]
fn session_state_transitions() {
    assert_ne!(SessionState::Init, SessionState::Running);
    assert_eq!(
        SessionState::Failed(FailureReason::HeartbeatTimeout),
        SessionState::Failed(FailureReason::HeartbeatTimeout)
    );
}

#[test]
fn heartbeat_timing_at_given_times() {
    let mut t = HeartbeatTracker::starting_at(1_000);
    assert!(!t.should_send_at(1_000 + HEARTBEAT_INTERVAL_NS - 1));
    assert!(t.should_send_at(1_000 + HEARTBEAT_INTERVAL_NS));
    assert_eq!(t.time_until_send_at(1_000 + 2_000_000_000), 3_000_000_000);
    assert_eq!(t.time_until_send_at(500), HEARTBEAT_INTERVAL_NS);
    t.sent_at(6_000_000_000);
    assert!(!t.should_send_at(7_000_000_000));
    assert!(!t.is_timed_out_at(15_000_000_999));
    assert!(t.is_timed_out_at(15_000_001_000));
    t.received_at(15_000_000_000);
    assert!(!t.is_timed_out_at(15_000_001_000));
}

#[test]
fn frame_round_trip() {
    let body = br#"{"type":"heartbeat"}"#;
    let framed = encode_frame(body);
    assert_eq!(framed.len(), 4 + body.len());
    assert_eq!(&framed[..4], &(body.len() as u32).to_be_bytes());
    assert_eq!(decode_frame_len(&framed[..4]), Ok(body.len()));
    assert_eq!(&framed[4..], &body[..]);
}

#[test]
fn oversized_frames_are_refused() {
    let ok = (MAX_MESSAGE_SIZE as u32).to_be_bytes();
    assert_eq!(decode_frame_len(&ok), Ok(MAX_MESSAGE_SIZE));
    let big = (MAX_MESSAGE_SIZE as u32 + 1).to_be_bytes();
    assert_eq!(
        decode_frame_len(&big),
        Err("message too large: 1048577 bytes".to_string())
    );
}

fn msg(m: ControlMessage) -> SessionEvent {
    SessionEvent::Received(m)
}

#[test]
fn server_session_happy_path() {
    let mut s = ServerSession::new();
    assert_eq!(s.step(msg(ControlMessage::Hello { cross_host: false }), 0), SessionAction::SendReady);
    assert_eq!(s.state(), SessionState::Ready);
    assert_eq!(s.clock_mode(), ClockMode::SameHost);
    assert_eq!(s.step(msg(ControlMessage::Start), 10), SessionAction::StartReceiving);
    assert_eq!(s.step(SessionEvent::HeartbeatDue, 20), SessionAction::SendHeartbeat);
    assert_eq!(s.step(SessionEvent::HeartbeatSent, 20), SessionAction::Wait);
    assert_eq!(s.step(msg(ControlMessage::Heartbeat), 30), SessionAction::Wait);
    assert_eq!(s.step(msg(ControlMessage::Stop), 40), SessionAction::StopReceiving);
    assert_eq!(s.status(), SessionStatus::Complete);
    assert_eq!(s.step(SessionEvent::ReceiverFinished, 50), SessionAction::SendResults);
    assert_eq!(s.state(), SessionState::Done);
    assert_eq!(s.step(msg(ControlMessage::Stop), 60), SessionAction::Wait);
}

#[test]
fn server_session_clock_sync_rounds() {
    let mut s = ServerSession::new();
    s.step(msg(ControlMessage::Hello { cross_host: true }), 0);
    assert_eq!(s.state(), SessionState::Syncing);
    assert_eq!(s.clock_mode(), ClockMode::SyncEstimated { offset_ns: 0 });
    for _ in 0..8 {
        assert_eq!(s.step(msg(ControlMessage::ClockSync), 0), SessionAction::ReplyClockSync);
    }
    assert_eq!(s.state(), SessionState::Ready);
    // a ninth probe is not a start
    assert_eq!(s.step(msg(ControlMessage::ClockSync), 0), SessionAction::EndUnexpectedBeforeStart);
    assert_eq!(s.state(), SessionState::Failed(FailureReason::ProtocolError));
}

#[test]
fn server_session_failures() {
    let mut s = ServerSession::new();
    assert_eq!(s.step(msg(ControlMessage::Start), 0), SessionAction::RejectNotHello);
    let mut s = ServerSession::new();
    assert_eq!(s.step(SessionEvent::Closed, 0), SessionAction::EndClosedBeforeHello);
    assert_eq!(s.state(), SessionState::Failed(FailureReason::ControlChannelLost));
    let mut s = ServerSession::new();
    s.step(msg(ControlMessage::Hello { cross_host: false }), 0);
    assert_eq!(s.step(SessionEvent::Closed, 0), SessionAction::EndClosedBeforeStart);
}

#[test]
fn server_session_interrupted_by_silence() {
    let mut s = ServerSession::new();
    s.step(msg(ControlMessage::Hello { cross_host: false }), 0);
    s.step(msg(ControlMessage::Start), 1_000);
    assert_eq!(s.step(SessionEvent::HeartbeatSent, 5_000_001_000), SessionAction::Wait);
    assert_eq!(s.step(SessionEvent::HeartbeatSent, 16_000_001_000), SessionAction::StopReceiving);
    assert_eq!(s.status(), SessionStatus::Interrupted);
}

#[test]
fn server_session_sync_ends_early_on_other_message() {
    let mut s = ServerSession::new();
    s.step(msg(ControlMessage::Hello { cross_host: true }), 0);
    s.step(msg(ControlMessage::ClockSync), 0);
    // the start that ends the probes is consumed; a second start is awaited
    assert_eq!(s.step(msg(ControlMessage::Start), 0), SessionAction::Wait);
    assert_eq!(s.state(), SessionState::Ready);
    assert_eq!(s.step(msg(ControlMessage::Start), 0), SessionAction::StartReceiving);
}

#[test]
fn mode_names() {
    assert_eq!(parse_mode("throughput"), Some(TestMode::Throughput));
    assert_eq!(parse_mode("latency"), Some(TestMode::Latency));
    assert_eq!(parse_mode("rrul"), Some(TestMode::Rrul));
    assert_eq!(parse_mode("bidirectional"), Some(TestMode::Bidirectional));
    assert_eq!(parse_mode("Latency"), None);
    assert_eq!(parse_mode(""), None);
}

#[test]
fn pattern_names() {
    assert_eq!(parse_pattern("fixed"), Some(TrafficPattern::Fixed));
    assert_eq!(parse_pattern("imix"), Some(TrafficPattern::Imix));
    assert_eq!(parse_pattern("sweep"), Some(TrafficPattern::Sweep));
    assert_eq!(parse_pattern("IMIX"), None);
}

#[test]
fn protocol_names() {
    assert_eq!(parse_protocol("tcp"), Some(Protocol::Tcp));
    assert_eq!(parse_protocol("udp"), Some(Protocol::Udp));
    assert_eq!(parse_protocol("sctp"), None);
}

#[test]
fn clock_sample_usability() {
    let good = ClockSample {
        client_send_ns: 1000,
        server_recv_ns: 1600,
        server_send_ns: 1700,
        client_recv_ns: 2200,
    };
    assert!(good.is_usable());
    let backwards = ClockSample { client_recv_ns: 999, ..good };
    assert!(!backwards.is_usable());
    let huge = ClockSample { server_recv_ns: u128::MAX, ..good };
    assert!(!huge.is_usable());
}

fn client_through_ready(cross_host: bool) -> ClientSession {
    let mut c = ClientSession::new(cross_host);
    assert_eq!(c.step(ClientEvent::Connected), ClientAction::SendHello);
    c
}

#[test]
fn client_same_host_flow() {
    let mut c = client_through_ready(false);
    assert_eq!(c.step(ClientEvent::Received(ControlMessage::Ready)), ClientAction::StartTraffic);
    assert_eq!(c.probes(), 0);
    assert_eq!(c.state(), SessionState::Running);
    assert_eq!(c.step(ClientEvent::Received(ControlMessage::Heartbeat)), ClientAction::Wait);
    assert_eq!(c.step(ClientEvent::TrafficDone), ClientAction::SendStop);
    assert_eq!(c.step(ClientEvent::Received(ControlMessage::Results)), ClientAction::ReportResults);
    assert_eq!(c.state(), SessionState::Done);
    assert_eq!(c.step(ClientEvent::Closed), ClientAction::Wait);
}

#[test]
fn client_sends_at_most_sync_rounds_probes() {
    let mut c = client_through_ready(true);
    assert_eq!(c.step(ClientEvent::Received(ControlMessage::Ready)), ClientAction::SendClockProbe);
    for _ in 1..sync_rounds() {
        assert_eq!(c.step(ClientEvent::Received(ControlMessage::ClockSync)), ClientAction::SendClockProbe);
    }
    assert_eq!(c.probes(), sync_rounds());
    assert_eq!(c.step(ClientEvent::Received(ControlMessage::ClockSync)), ClientAction::StartTraffic);
    assert_eq!(c.probes(), 8);
}

#[test]
fn client_sync_ends_on_other_answer() {
    let mut c = client_through_ready(true);
    c.step(ClientEvent::Received(ControlMessage::Ready));
    assert_eq!(c.step(ClientEvent::Closed), ClientAction::StartTraffic);
    assert_eq!(c.probes(), 1);
}

#[test]
fn client_failures_before_traffic() {
    let mut c = client_through_ready(false);
    assert_eq!(c.step(ClientEvent::Received(ControlMessage::Error)), ClientAction::FailServerError);
    assert_eq!(c.state(), SessionState::Failed(FailureReason::ProtocolError));
    let mut c = client_through_ready(false);
    assert_eq!(c.step(ClientEvent::Received(ControlMessage::Heartbeat)), ClientAction::FailExpectedReady);
    let mut c = client_through_ready(false);
    assert_eq!(c.step(ClientEvent::Closed), ClientAction::FailExpectedReady);
    assert_eq!(c.state(), SessionState::Failed(FailureReason::ControlChannelLost));
    let mut c = client_through_ready(true);
    c.step(ClientEvent::Received(ControlMessage::Ready));
    assert_eq!(c.step(ClientEvent::ReadFailed), ClientAction::FailReadError);
}

#[test]
fn client_partial_without_results() {
    let mut c = client_through_ready(false);
    c.step(ClientEvent::Received(ControlMessage::Ready));
    assert_eq!(c.step(ClientEvent::TrafficDone), ClientAction::SendStop);
    assert_eq!(c.step(ClientEvent::Received(ControlMessage::Heartbeat)), ClientAction::ReportPartial);
}

#[test]
fn mode_names_round_trip() {
    for m in [TestMode::Throughput, TestMode::Latency, TestMode::Rrul, TestMode::Bidirectional] {
        assert_eq!(parse_mode(mode_name(m)), Some(m));
    }
    assert_eq!(mode_name(TestMode::Rrul), "rrul");
}

#[test]
fn one_way_latencies() {
    assert_eq!(one_way_latency(ClockMode::SameHost, 1_000, 1_450), 450);
    assert_eq!(one_way_latency(ClockMode::SameHost, 2_000, 1_000), 0);
    let m = ClockMode::SyncEstimated { offset_ns: 50 };
    assert_eq!(one_way_latency(m, 1_000, 1_600), 550);
    assert_eq!(one_way_latency(m, 1_000, 1_020), 0);
    let back = ClockMode::SyncEstimated { offset_ns: -100 };
    assert_eq!(one_way_latency(back, 1_000, 1_000), 100);
    assert!(latency_computable(m, 1_000, 1_600));
    assert!(!latency_computable(ClockMode::SameHost, u128::MAX, 0));
    assert!(!latency_computable(ClockMode::SyncEstimated { offset_ns: i128::MIN }, 0, 10));
}

#[test]
fn clock_sample_offset_with_reply_before_probe_returns() {
    // Symmetric delay of 100 with the server 50 ahead; the client's receive
    // reading is earlier than its send reading, and the offset still holds.
    let sample = ClockSample {
        client_send_ns: 1000,
        server_recv_ns: 1150,
        server_send_ns: 850,
        client_recv_ns: 900,
    };
    assert_eq!(sample.offset_ns(), 50);
    assert!(!sample.is_usable());
}
