use bngtester::protocol::TrafficPattern;
use bngtester::traffic::tcp::{tcp_next_step, TcpStep, TcpStreamTotals};
use bngtester::traffic::generator::{
    next_packet_size, SendStep, UdpGeneratorResult, UdpSender, LAST_PACKET_SIZE,
};
use bngtester::traffic::packet::{
    build_packet, clock_now, is_seq_wrap, PacketHeader, FLAG_LAST, HEADER_SIZE,
};

#[test]
fn fixed_pattern_size() {
    assert_eq!(next_packet_size(TrafficPattern::Fixed, 512, 0), 512);
    assert_eq!(next_packet_size(TrafficPattern::Fixed, 512, 100), 512);
}

#[test]
fn imix_pattern_ratios() {
    assert_eq!(next_packet_size(TrafficPattern::Imix, 0, 0), 64);
    assert_eq!(next_packet_size(TrafficPattern::Imix, 0, 6), 64);
    assert_eq!(next_packet_size(TrafficPattern::Imix, 0, 7), 594);
    assert_eq!(next_packet_size(TrafficPattern::Imix, 0, 10), 594);
    assert_eq!(next_packet_size(TrafficPattern::Imix, 0, 11), 1518);
    assert_eq!(next_packet_size(TrafficPattern::Imix, 0, 12), 64);
}

#[test]
fn sweep_pattern_cycles() {
    assert_eq!(next_packet_size(TrafficPattern::Sweep, 0, 0), 64);
    assert_eq!(next_packet_size(TrafficPattern::Sweep, 0, 7), 1518);
    assert_eq!(next_packet_size(TrafficPattern::Sweep, 0, 8), 64);
}

#[test]
fn imix_cycle_counts() {
    let mut counts = [0u32; 3];
    for seq in 1200..1212u32 {
        match next_packet_size(TrafficPattern::Imix, 0, seq) {
            64 => counts[0] += 1,
            594 => counts[1] += 1,
            1518 => counts[2] += 1,
            other => panic!("unexpected size {other}"),
        }
    }
    assert_eq!(counts, [7, 4, 1]);
    assert_eq!(next_packet_size(TrafficPattern::Sweep, 0, 3), 512);
}

#[test]
fn header_round_trip() {
    let header = PacketHeader {
        stream_id: 3,
        flags: FLAG_LAST,
        seq: 42,
        ts_sec: 1234567890,
        ts_nsec: 999999999,
        payload_len: 512,
    };
    let mut buf = [0u8; HEADER_SIZE];
    header.write_to(&mut buf);
    let decoded = PacketHeader::read_from(&buf).unwrap();
    assert_eq!(header, decoded);
}

#[test]
fn bad_magic_returns_none() {
    let mut buf = [0u8; HEADER_SIZE];
    buf[0..4].copy_from_slice(&0xDEADBEEFu32.to_be_bytes());
    assert!(PacketHeader::read_from(&buf).is_none());
}

#[test]
fn short_buffer_returns_none() {
    let buf = [0u8; 16];
    assert!(PacketHeader::read_from(&buf).is_none());
}

#[test]
fn timestamp_ns_calculation() {
    let header = PacketHeader {
        stream_id: 0,
        flags: 0,
        seq: 0,
        ts_sec: 1,
        ts_nsec: 500_000_000,
        payload_len: 32,
    };
    assert_eq!(header.timestamp_ns(), 1_500_000_000);
}

#[test]
fn build_packet_pads_to_size() {
    let header = PacketHeader {
        stream_id: 0,
        flags: 0,
        seq: 1,
        ts_sec: 0,
        ts_nsec: 0,
        payload_len: 0,
    };
    let pkt = build_packet(&header, 64);
    assert_eq!(pkt.len(), 64);
    let decoded = PacketHeader::read_from(&pkt).unwrap();
    assert_eq!(decoded.payload_len, 64);
}

#[test]
fn build_packet_minimum_size() {
    let header = PacketHeader {
        stream_id: 0,
        flags: 0,
        seq: 1,
        ts_sec: 0,
        ts_nsec: 0,
        payload_len: 0,
    };
    let pkt = build_packet(&header, 10);
    assert_eq!(pkt.len(), HEADER_SIZE);
}

#[test]
fn clock_now_returns_nonzero() {
    let (sec, nsec) = clock_now();
    assert!(sec > 0 || nsec > 0);
}

#[test]
fn seq_wrap_detection() {
    assert!(!is_seq_wrap(100, 101));
    assert!(!is_seq_wrap(100, 200));
    assert!(!is_seq_wrap(100, 99));
    assert!(!is_seq_wrap(1000, 500));
    assert!(is_seq_wrap(u32::MAX - 10, 5));
    assert!(is_seq_wrap(u32::MAX, 0));
}

#[test]
fn is_last_flag() {
    let h = PacketHeader {
        stream_id: 0,
        flags: FLAG_LAST,
        seq: 0,
        ts_sec: 0,
        ts_nsec: 0,
        payload_len: 32,
    };
    assert!(h.is_last());

    let h2 = PacketHeader {
        stream_id: 0,
        flags: 0,
        seq: 0,
        ts_sec: 0,
        ts_nsec: 0,
        payload_len: 32,
    };
    assert!(!h2.is_last());
}

#[test]
fn header_bytes_are_big_endian() {
    let header = PacketHeader {
        stream_id: 9,
        flags: 0x0102,
        seq: 0x0A0B0C0D,
        ts_sec: 0x1122334455667788,
        ts_nsec: 0x01020304,
        payload_len: 0x00000040,
    };
    let mut buf = [0xFFu8; 40];
    header.write_to(&mut buf);
    assert_eq!(&buf[0..4], b"BNGT");
    assert_eq!(buf[4], 1);
    assert_eq!(buf[5], 9);
    assert_eq!(&buf[6..8], &[1, 2]);
    assert_eq!(&buf[8..12], &[0x0A, 0x0B, 0x0C, 0x0D]);
    assert_eq!(&buf[12..20], &[0x11, 0x22, 0x33, 0x44, 0x55, 0x66, 0x77, 0x88]);
    assert_eq!(&buf[20..24], &[1, 2, 3, 4]);
    assert_eq!(&buf[24..28], &[0, 0, 0, 0x40]);
    assert!(buf[28..].iter().all(|&b| b == 0xFF));
    assert_eq!(PacketHeader::read_from(&buf), Some(header));
    let mut wrong_version = buf;
    wrong_version[4] = 2;
    assert_eq!(PacketHeader::read_from(&wrong_version), None);
}

#[test]
fn built_packets_are_zero_padded() {
    let header = PacketHeader { stream_id: 1, flags: 0, seq: 7, ts_sec: 5, ts_nsec: 6, payload_len: 999 };
    let pkt = build_packet(&header, 100);
    assert!(pkt[28..].iter().all(|&b| b == 0));
    let decoded = PacketHeader::read_from(&pkt).unwrap();
    assert_eq!(decoded, PacketHeader { payload_len: 100, ..header });
}

#[test]
fn generator_counts_sent_packets() {
    let mut r = UdpGeneratorResult::new(3);
    assert_eq!(r.packets_sent, 0);
    r.record_sent(64);
    r.record_sent(1518);
    assert_eq!(r.stream_id, 3);
    assert_eq!(r.packets_sent, 2);
    assert_eq!(r.bytes_sent, 1582);
}

#[test]
fn sender_numbers_packets_and_ends_once() {
    let mut s = UdpSender::new(7, TrafficPattern::Imix, 512, 1_000);
    assert_eq!(s.next(0, false), SendStep::Data { seq: 0, size: 64 });
    s.sent(64);
    assert_eq!(s.next(10, false), SendStep::Data { seq: 1, size: 64 });
    // A packet that could not be sent keeps its number.
    assert_eq!(s.next(20, false), SendStep::Data { seq: 1, size: 64 });
    s.sent(64);
    assert_eq!(s.next(1_000, false), SendStep::Last { seq: 2 });
    assert_eq!(s.next(2_000, false), SendStep::Done);
    assert_eq!(s.next(0, true), SendStep::Done);
    assert_eq!(
        s.result(),
        UdpGeneratorResult { stream_id: 7, packets_sent: 2, bytes_sent: 128 }
    );
    assert_eq!(LAST_PACKET_SIZE, 32);
}

#[test]
fn sender_stops_when_cancelled() {
    let mut s = UdpSender::new(0, TrafficPattern::Fixed, 100, 10_000_000_000);
    assert_eq!(s.next(0, false), SendStep::Data { seq: 0, size: 100 });
    s.sent(100);
    assert_eq!(s.next(5, true), SendStep::Last { seq: 1 });
    assert_eq!(s.result().packets_sent, 1);
}

#[test]
fn tcp_totals_follow_polls() {
    let mut t = TcpStreamTotals::new();
    t.record_write(65536);
    t.record_info(0, 0, 10);
    assert_eq!(t.rtt_count, 0);
    assert_eq!(t.cwnd_max, 10);
    t.record_info(120, 1, 8);
    t.record_info(80, 3, 20);
    assert_eq!(t.rtt_min_us, 80);
    assert_eq!(t.rtt_max_us, 120);
    assert_eq!(t.rtt_sum_us, 200);
    assert_eq!(t.rtt_count, 2);
    assert_eq!(t.cwnd_max, 20);
    assert_eq!(t.total_retrans, 3);
    t.record_write(100);
    assert_eq!(t.bytes_sent, 65636);
}

#[test]
fn tcp_steps_and_rtt_totals() {
    assert_eq!(tcp_next_step(0, 1_000, false), TcpStep::Poll);
    assert_eq!(tcp_next_step(999, 1_000, false), TcpStep::Poll);
    assert_eq!(tcp_next_step(1_000, 1_000, false), TcpStep::Stop);
    assert_eq!(tcp_next_step(10, 1_000, true), TcpStep::Stop);
    let mut t = TcpStreamTotals::new();
    assert_eq!(t.rtt_totals(), None);
    t.record_info(0, 0, 5);
    assert_eq!(t.rtt_totals(), None);
    t.record_info(100, 0, 5);
    t.record_info(300, 0, 5);
    assert_eq!(t.rtt_totals(), Some((400, 2)));
}
