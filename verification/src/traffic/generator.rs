//! Packet-size patterns for traffic generators.

use vstd::prelude::*;

use crate::protocol::TrafficPattern;

verus! {

/// Number of packets in one IMIX cycle (Simple IMIX, 7:4:1).
pub const IMIX_CYCLE: u32 = 12;

/// Number of sizes a sweep steps through.
pub const SWEEP_LEN: usize = 8;

/// Packet size at position `pos` of the IMIX cycle: seven 64-byte packets,
/// four of 594 bytes, one of 1518.
pub open spec fn imix_size(pos: nat) -> usize {
    if pos < 7 {
        64
    } else if pos < 11 {
        594
    } else {
        1518
    }
}

/// The sizes a sweep steps through, smallest to largest.
pub open spec fn sweep_sizes() -> Seq<usize> {
    seq![64, 128, 256, 512, 768, 1024, 1280, 1518]
}

/// Size of packet number `seq` under `pattern`.
pub open spec fn packet_size_for(pattern: TrafficPattern, fixed_size: usize, seq: u32) -> usize {
    match pattern {
        TrafficPattern::Fixed => fixed_size,
        TrafficPattern::Imix => imix_size((seq % IMIX_CYCLE) as nat),
        TrafficPattern::Sweep => sweep_sizes()[(seq as int) % (SWEEP_LEN as int)],
    }
}

/// The size of the next packet for a pattern and sequence number.
pub fn next_packet_size(pattern: TrafficPattern, fixed_size: usize, seq: u32) -> (r: usize)
    ensures
        r == packet_size_for(pattern, fixed_size, seq),
{
    match pattern {
        TrafficPattern::Fixed => fixed_size,
        TrafficPattern::Imix => {
            let pos = seq % IMIX_CYCLE;
            if pos < 7 {
                64
            } else if pos < 11 {
                594
            } else {
                1518
            }
        },
        TrafficPattern::Sweep => {
            let sizes: [usize; 8] = [64, 128, 256, 512, 768, 1024, 1280, 1518];
            assert(sizes@ =~= sweep_sizes());
            sizes[(seq as usize) % SWEEP_LEN]
        },
    }
}

/// Patterns repeat: IMIX every 12 packets, a sweep every 8 (as long as the
/// sequence number does not wrap in between).
pub proof fn lemma_patterns_periodic(fixed_size: usize, seq: u32)
    ensures
        seq as int + 12 <= u32::MAX ==> packet_size_for(TrafficPattern::Imix, fixed_size, seq)
            == packet_size_for(TrafficPattern::Imix, fixed_size, (seq + 12) as u32),
        seq as int + 8 <= u32::MAX ==> packet_size_for(TrafficPattern::Sweep, fixed_size, seq)
            == packet_size_for(TrafficPattern::Sweep, fixed_size, (seq + 8) as u32),
{
    assert(((seq + 12) as int) % 12 == (seq as int) % 12) by (nonlinear_arith);
    assert(((seq + 8) as int) % 8 == (seq as int) % 8) by (nonlinear_arith);
}

/// A sweep cycle steps up strictly through eight sizes, each used once:
/// from the 64-byte minimum doubling to 512 bytes, then in 256-byte steps
/// to 1280, and last the 1518-byte Ethernet maximum; the cycle starts over
/// every 8 packets.
pub proof fn lemma_sweep_cycle(fixed_size: usize, base: u32)
    requires
        base % 8 == 0,
        base as int + 8 <= u32::MAX,
    ensures
        forall|i: u32, j: u32|
            i < j < 8 ==> #[trigger] packet_size_for(TrafficPattern::Sweep, fixed_size, (base + i) as u32)
                < #[trigger] packet_size_for(TrafficPattern::Sweep, fixed_size, (base + j) as u32),
        packet_size_for(TrafficPattern::Sweep, fixed_size, base) == 64,
        forall|k: u32|
            k < 3 ==> #[trigger] packet_size_for(TrafficPattern::Sweep, fixed_size, (base + k + 1) as u32)
                == 2 * packet_size_for(TrafficPattern::Sweep, fixed_size, (base + k) as u32),
        forall|k: u32|
            3 <= k < 6 ==> #[trigger] packet_size_for(
                TrafficPattern::Sweep,
                fixed_size,
                (base + k + 1) as u32,
            ) == packet_size_for(TrafficPattern::Sweep, fixed_size, (base + k) as u32) + 256,
        packet_size_for(TrafficPattern::Sweep, fixed_size, (base + 7) as u32) == 1518,
        packet_size_for(TrafficPattern::Sweep, fixed_size, (base + 8) as u32) == 64,
{
    let sz = sweep_sizes();
    assert(sz[0] == 64 && sz[1] == 128 && sz[2] == 256 && sz[3] == 512 && sz[4] == 768 && sz[5]
        == 1024 && sz[6] == 1280 && sz[7] == 1518);
    assert forall|i: u32, j: u32| i < j < 8 implies #[trigger] packet_size_for(
        TrafficPattern::Sweep,
        fixed_size,
        (base + i) as u32,
    ) < #[trigger] packet_size_for(TrafficPattern::Sweep, fixed_size, (base + j) as u32) by {
        lemma_offset_mod8(base, i);
        lemma_offset_mod8(base, j);
    }
    assert forall|k: u32| k < 3 implies #[trigger] packet_size_for(
        TrafficPattern::Sweep,
        fixed_size,
        (base + k + 1) as u32,
    ) == 2 * packet_size_for(TrafficPattern::Sweep, fixed_size, (base + k) as u32) by {
        lemma_offset_mod8(base, k);
        lemma_offset_mod8(base, (k + 1) as u32);
    }
    assert forall|k: u32| 3 <= k < 6 implies #[trigger] packet_size_for(
        TrafficPattern::Sweep,
        fixed_size,
        (base + k + 1) as u32,
    ) == packet_size_for(TrafficPattern::Sweep, fixed_size, (base + k) as u32) + 256 by {
        lemma_offset_mod8(base, k);
        lemma_offset_mod8(base, (k + 1) as u32);
    }
    lemma_offset_mod8(base, 0);
    lemma_offset_mod8(base, 7);
    lemma_offset_mod8(base, 8);
    assert((base + 0) as u32 == base);
}

proof fn lemma_offset_mod8(base: u32, k: u32)
    requires
        base % 8 == 0,
        k <= 8,
        base as int + 8 <= u32::MAX,
    ensures
        ((base + k) as u32) as int % 8 == (k as int) % 8,
{
    assert(((base + k) as int) % 8 == (k as int) % 8) by (nonlinear_arith)
        requires
            (base as int) % 8 == 0,
    ;
}

/// One IMIX cycle (Simple IMIX, 7:4:1) holds seven 64-byte packets, then
/// four of 594 bytes, then one of 1518 bytes, whatever the fixed size.
pub proof fn lemma_imix_cycle(fixed_size: usize, base: u32)
    requires
        base % IMIX_CYCLE == 0,
        base as int + 12 <= u32::MAX,
    ensures
        forall|k: u32|
            k < 7 ==> #[trigger] packet_size_for(TrafficPattern::Imix, fixed_size, (base + k) as u32)
                == 64,
        forall|k: u32|
            7 <= k < 11 ==> #[trigger] packet_size_for(
                TrafficPattern::Imix,
                fixed_size,
                (base + k) as u32,
            ) == 594,
        packet_size_for(TrafficPattern::Imix, fixed_size, (base + 11) as u32) == 1518,
{
    assert forall|k: u32| k < 12 implies #[trigger] packet_size_for(
        TrafficPattern::Imix,
        fixed_size,
        (base + k) as u32,
    ) == imix_size(k as nat) by {
        assert(((base + k) as int) % 12 == k as int) by (nonlinear_arith)
            requires
                (base as int) % 12 == 0,
                k < 12,
        ;
    }
    assert(packet_size_for(TrafficPattern::Imix, fixed_size, (base + 11) as u32) == imix_size(11));
}

/// What a UDP generator run sent.
#[derive(Debug, Clone, Copy, PartialEq, Eq, Structural)]
pub struct UdpGeneratorResult {
    pub stream_id: u8,
    pub packets_sent: u64,
    pub bytes_sent: u64,
}

impl UdpGeneratorResult {
    /// Nothing sent yet on stream `stream_id`.
    pub fn new(stream_id: u8) -> (r: Self)
        ensures
            r == (UdpGeneratorResult { stream_id, packets_sent: 0, bytes_sent: 0 }),
    {
        UdpGeneratorResult { stream_id, packets_sent: 0, bytes_sent: 0 }
    }

    /// Counts one packet of `bytes` bytes as sent.
    pub fn record_sent(&mut self, bytes: usize)
        requires
            old(self).packets_sent < u64::MAX,
            old(self).bytes_sent + bytes <= u64::MAX,
        ensures
            final(self).stream_id == old(self).stream_id,
            final(self).packets_sent == old(self).packets_sent + 1,
            final(self).bytes_sent == old(self).bytes_sent + bytes,
    {
        self.packets_sent = self.packets_sent + 1;
        self.bytes_sent = self.bytes_sent + bytes as u64;
    }
}

/// Size of the packet that ends a stream.
pub const LAST_PACKET_SIZE: usize = 32;

/// What a generator sends next.
#[derive(Debug, Clone, Copy, PartialEq, Eq, Structural)]
pub enum SendStep {
    /// A data packet with this sequence number and size.
    Data { seq: u32, size: usize },
    /// The packet that ends the stream, flagged as the last, with this
    /// sequence number and `LAST_PACKET_SIZE` bytes.
    Last { seq: u32 },
    /// Nothing more: the stream has ended.
    Done,
}

/// The decisions of one UDP stream generator: which packet to send next,
/// until the test duration is over or the run is cancelled, and what was
/// sent.
pub struct UdpSender {
    pattern: TrafficPattern,
    packet_size: usize,
    duration_ns: u128,
    seq: u32,
    finished: bool,
    sent: UdpGeneratorResult,
}

/// A generator's state as plain values.
pub struct UdpSenderView {
    pub pattern: TrafficPattern,
    pub packet_size: usize,
    pub duration_ns: u128,
    pub seq: u32,
    pub finished: bool,
    pub sent: UdpGeneratorResult,
}

/// Sequence numbers wrap at 2^32.
pub open spec fn seq_after(seq: u32) -> u32 {
    if seq == u32::MAX {
        0
    } else {
        (seq + 1) as u32
    }
}

/// Data packets are numbered in sending order from 0, wrapping at 2^32: the
/// next number is the count of packets sent so far, modulo 2^32.
pub open spec fn numbered(v: UdpSenderView) -> bool {
    v.seq as int == v.sent.packets_sent as int % 0x1_0000_0000
}

/// The next step of a generator `elapsed_ns` into the run: once cancelled
/// or past the duration it sends the last packet, once; before that a data
/// packet with the next sequence number and the pattern's size for it.
pub open spec fn sender_next(v: UdpSenderView, elapsed_ns: u128, cancelled: bool) -> (
    UdpSenderView,
    SendStep,
) {
    if v.finished {
        (v, SendStep::Done)
    } else if cancelled || elapsed_ns >= v.duration_ns {
        (UdpSenderView { finished: true, ..v }, SendStep::Last { seq: v.seq })
    } else {
        (v, SendStep::Data { seq: v.seq, size: packet_size_for(v.pattern, v.packet_size, v.seq) })
    }
}

impl UdpSender {
    /// The generator's state.
    pub closed spec fn view(&self) -> UdpSenderView {
        UdpSenderView {
            pattern: self.pattern,
            packet_size: self.packet_size,
            duration_ns: self.duration_ns,
            seq: self.seq,
            finished: self.finished,
            sent: self.sent,
        }
    }

    /// A generator for stream `stream_id` that has sent nothing yet.
    pub fn new(stream_id: u8, pattern: TrafficPattern, packet_size: usize, duration_ns: u128) -> (r:
        Self)
        ensures
            r.view() == (UdpSenderView {
                pattern,
                packet_size,
                duration_ns,
                seq: 0,
                finished: false,
                sent: UdpGeneratorResult { stream_id, packets_sent: 0, bytes_sent: 0 },
            }),
            numbered(r.view()),
    {
        UdpSender {
            pattern,
            packet_size,
            duration_ns,
            seq: 0,
            finished: false,
            sent: UdpGeneratorResult::new(stream_id),
        }
    }

    /// What to send next, `elapsed_ns` into the run.
    pub fn next(&mut self, elapsed_ns: u128, cancelled: bool) -> (r: SendStep)
        ensures
            (final(self).view(), r) == sender_next(old(self).view(), elapsed_ns, cancelled),
            numbered(old(self).view()) ==> numbered(final(self).view()),
    {
        if self.finished {
            SendStep::Done
        } else if cancelled || elapsed_ns >= self.duration_ns {
            self.finished = true;
            SendStep::Last { seq: self.seq }
        } else {
            SendStep::Data {
                seq: self.seq,
                size: next_packet_size(self.pattern, self.packet_size, self.seq),
            }
        }
    }

    /// Counts a data packet of `bytes` bytes as sent; the next one gets the
    /// following sequence number.
    pub fn sent(&mut self, bytes: usize)
        requires
            old(self).view().sent.packets_sent < u64::MAX,
            old(self).view().sent.bytes_sent + bytes <= u64::MAX,
        ensures
            final(self).view() == (UdpSenderView {
                seq: seq_after(old(self).view().seq),
                sent: UdpGeneratorResult {
                    packets_sent: (old(self).view().sent.packets_sent + 1) as u64,
                    bytes_sent: (old(self).view().sent.bytes_sent + bytes) as u64,
                    ..old(self).view().sent
                },
                ..old(self).view()
            }),
            numbered(old(self).view()) ==> numbered(final(self).view()),
    {
        self.sent.record_sent(bytes);
        self.seq = if self.seq == u32::MAX {
            0
        } else {
            self.seq + 1
        };
        proof {
            let p = old(self).sent.packets_sent as int;
            if numbered(old(self).view()) {
                assert((p + 1) % 0x1_0000_0000 == if p % 0x1_0000_0000 == 0xFFFF_FFFF {
                    0
                } else {
                    p % 0x1_0000_0000 + 1
                }) by (nonlinear_arith)
                    requires
                        p >= 0,
                ;
            }
        }
    }

    /// What the generator has sent.
    pub fn result(&self) -> (r: UdpGeneratorResult)
        ensures
            r == self.view().sent,
    {
        self.sent
    }
}

/// The packet that ends a stream carries the number of data packets sent
/// before it, modulo 2^32, and after it the generator sends nothing more.
pub proof fn lemma_last_packet_counts_data(v: UdpSenderView, elapsed_ns: u128, cancelled: bool)
    requires
        numbered(v),
    ensures
        sender_next(v, elapsed_ns, cancelled).1 matches SendStep::Last { seq } ==> seq as int
            == v.sent.packets_sent as int % 0x1_0000_0000,
        sender_next(v, elapsed_ns, cancelled).1 matches SendStep::Last { .. } ==> forall|
            e: u128,
            c: bool,
        | #[trigger] sender_next(sender_next(v, elapsed_ns, cancelled).0, e, c).1 == SendStep::Done,
{
}

} // verus!
