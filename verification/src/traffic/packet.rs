//! Wire format of a data packet header (32 bytes, big-endian):
//!
//! ```text
//! [magic:4][version:1][stream_id:1][flags:2][seq:4][ts_sec:8][ts_nsec:4][payload_len:4][reserved:4]
//! ```

use vstd::prelude::*;

verus! {

/// Magic bytes: "BNGT".
pub const MAGIC: u32 = 0x424E4754;

/// Current protocol version.
pub const VERSION: u8 = 1;

/// Packet header size in bytes.
pub const HEADER_SIZE: usize = 32;

/// Number of header bytes that carry fields; the rest are reserved.
pub const HEADER_FIELDS_SIZE: usize = 28;

/// Flag: last packet in stream.
pub const FLAG_LAST: u16 = 0x01;

/// Threshold for detecting sequence number wrap-around vs loss.
/// Backward gaps larger than this are treated as wraps.
pub const SEQ_WRAP_THRESHOLD: u32 = 0x7FFF_FFFF;

/// Decoded packet header.
#[derive(Debug, Clone, Copy, PartialEq, Eq, Structural)]
pub struct PacketHeader {
    pub stream_id: u8,
    pub flags: u16,
    pub seq: u32,
    pub ts_sec: u64,
    pub ts_nsec: u32,
    pub payload_len: u32,
}

/// Big-endian bytes of a `u16`.
pub open spec fn be16(x: u16) -> Seq<u8> {
    seq![(x >> 8u16) as u8, x as u8]
}

/// Big-endian bytes of a `u32`.
pub open spec fn be32(x: u32) -> Seq<u8> {
    seq![(x >> 24u32) as u8, (x >> 16u32) as u8, (x >> 8u32) as u8, x as u8]
}

/// Big-endian bytes of a `u64`.
pub open spec fn be64(x: u64) -> Seq<u8> {
    seq![
        (x >> 56u64) as u8,
        (x >> 48u64) as u8,
        (x >> 40u64) as u8,
        (x >> 32u64) as u8,
        (x >> 24u64) as u8,
        (x >> 16u64) as u8,
        (x >> 8u64) as u8,
        x as u8,
    ]
}

/// The `u16` whose big-endian bytes start at `at` in `b`.
pub open spec fn u16_at(b: Seq<u8>, at: int) -> u16 {
    ((b[at] as u16) << 8u16) | (b[at + 1] as u16)
}

/// The `u32` whose big-endian bytes start at `at` in `b`.
pub open spec fn u32_at(b: Seq<u8>, at: int) -> u32 {
    ((b[at] as u32) << 24u32) | ((b[at + 1] as u32) << 16u32) | ((b[at + 2] as u32) << 8u32) | (b[at
        + 3] as u32)
}

/// The `u64` whose big-endian bytes start at `at` in `b`.
pub open spec fn u64_at(b: Seq<u8>, at: int) -> u64 {
    ((b[at] as u64) << 56u64) | ((b[at + 1] as u64) << 48u64) | ((b[at + 2] as u64) << 40u64) | ((b[at
        + 3] as u64) << 32u64) | ((b[at + 4] as u64) << 24u64) | ((b[at + 5] as u64) << 16u64) | ((b[at
        + 6] as u64) << 8u64) | (b[at + 7] as u64)
}

/// The 28 bytes that encode a header's fields (the reserved tail excluded).
pub open spec fn header_bytes(h: PacketHeader) -> Seq<u8> {
    be32(MAGIC) + seq![VERSION, h.stream_id] + be16(h.flags) + be32(h.seq) + be64(h.ts_sec) + be32(
        h.ts_nsec,
    ) + be32(h.payload_len)
}

/// The header whose fields are encoded in `b` (magic and version not checked).
pub open spec fn decode_fields(b: Seq<u8>) -> PacketHeader {
    PacketHeader {
        stream_id: b[5],
        flags: u16_at(b, 6),
        seq: u32_at(b, 8),
        ts_sec: u64_at(b, 12),
        ts_nsec: u32_at(b, 20),
        payload_len: u32_at(b, 24),
    }
}

/// What decoding a buffer gives: nothing when it is shorter than a header
/// or its magic or version do not match, else the encoded fields.
pub open spec fn parse_header(b: Seq<u8>) -> Option<PacketHeader> {
    if b.len() < HEADER_SIZE {
        None
    } else if u32_at(b, 0) != MAGIC {
        None
    } else if b[4] != VERSION {
        None
    } else {
        Some(decode_fields(b))
    }
}

/// Total nanoseconds of a (seconds, nanoseconds) timestamp.
pub open spec fn timestamp_of(sec: u64, nsec: u32) -> nat {
    (sec * 1_000_000_000 + nsec) as nat
}

/// A sequence number that fell back by more than half the number space
/// is a wrap-around, not a late packet.
pub open spec fn seq_wraps(last_seq: u32, new_seq: u32) -> bool {
    last_seq > new_seq && last_seq - new_seq > SEQ_WRAP_THRESHOLD
}

proof fn lemma_u16_round_trip(x: u16, b0: u8, b1: u8)
    requires
        b0 == (x >> 8u16) as u8,
        b1 == x as u8,
    ensures
        ((b0 as u16) << 8u16) | (b1 as u16) == x,
{
    assert(((b0 as u16) << 8u16) | (b1 as u16) == x) by (bit_vector)
        requires
            b0 == (x >> 8u16) as u8,
            b1 == x as u8,
    ;
}

proof fn lemma_u32_round_trip(x: u32, b0: u8, b1: u8, b2: u8, b3: u8)
    requires
        b0 == (x >> 24u32) as u8,
        b1 == (x >> 16u32) as u8,
        b2 == (x >> 8u32) as u8,
        b3 == x as u8,
    ensures
        ((b0 as u32) << 24u32) | ((b1 as u32) << 16u32) | ((b2 as u32) << 8u32) | (b3 as u32) == x,
{
    assert(((b0 as u32) << 24u32) | ((b1 as u32) << 16u32) | ((b2 as u32) << 8u32) | (b3 as u32)
        == x) by (bit_vector)
        requires
            b0 == (x >> 24u32) as u8,
            b1 == (x >> 16u32) as u8,
            b2 == (x >> 8u32) as u8,
            b3 == x as u8,
    ;
}

proof fn lemma_u64_round_trip(x: u64, b: Seq<u8>)
    requires
        b == be64(x),
    ensures
        u64_at(b, 0) == x,
{
    let b0 = b[0];
    let b1 = b[1];
    let b2 = b[2];
    let b3 = b[3];
    let b4 = b[4];
    let b5 = b[5];
    let b6 = b[6];
    let b7 = b[7];
    assert(((b0 as u64) << 56u64) | ((b1 as u64) << 48u64) | ((b2 as u64) << 40u64) | ((b3 as u64)
        << 32u64) | ((b4 as u64) << 24u64) | ((b5 as u64) << 16u64) | ((b6 as u64) << 8u64) | (b7
        as u64) == x) by (bit_vector)
        requires
            b0 == (x >> 56u64) as u8,
            b1 == (x >> 48u64) as u8,
            b2 == (x >> 40u64) as u8,
            b3 == (x >> 32u64) as u8,
            b4 == (x >> 24u64) as u8,
            b5 == (x >> 16u64) as u8,
            b6 == (x >> 8u64) as u8,
            b7 == x as u8,
    ;
}

/// Decoding what a header encodes gives the header back: a buffer of at
/// least `HEADER_SIZE` bytes that starts with `header_bytes(h)` parses to `h`.
pub proof fn lemma_header_round_trip(h: PacketHeader, b: Seq<u8>)
    requires
        b.len() >= HEADER_SIZE,
        b.subrange(0, HEADER_FIELDS_SIZE as int) == header_bytes(h),
    ensures
        parse_header(b) == Some(h),
{
    let e = header_bytes(h);
    assert(e.len() == 28);
    assert forall|i: int| 0 <= i < 28 implies b[i] == e[i] by {
        assert(b.subrange(0, 28)[i] == b[i]);
    }
    lemma_u32_round_trip(MAGIC, e[0], e[1], e[2], e[3]);
    lemma_u16_round_trip(h.flags, e[6], e[7]);
    lemma_u32_round_trip(h.seq, e[8], e[9], e[10], e[11]);
    assert(b.subrange(12, 20) =~= be64(h.ts_sec));
    lemma_u64_round_trip(h.ts_sec, b.subrange(12, 20));
    assert(u64_at(b.subrange(12, 20), 0) == u64_at(b, 12));
    lemma_u32_round_trip(h.ts_nsec, e[20], e[21], e[22], e[23]);
    lemma_u32_round_trip(h.payload_len, e[24], e[25], e[26], e[27]);
    assert(decode_fields(b) == h);
}

impl PacketHeader {
    /// Serializes the header into the first `HEADER_SIZE` bytes of `buf`.
    /// Bytes 28..32 are reserved and left as they are (callers zero them).
    pub fn write_to(&self, buf: &mut [u8])
        requires
            old(buf)@.len() >= HEADER_SIZE,
        ensures
            final(buf)@.len() == old(buf)@.len(),
            final(buf)@.subrange(0, HEADER_FIELDS_SIZE as int) == header_bytes(*self),
            final(buf)@.subrange(HEADER_FIELDS_SIZE as int, final(buf)@.len() as int) == old(
                buf,
            )@.subrange(HEADER_FIELDS_SIZE as int, old(buf)@.len() as int),
    {
        buf[0] = (MAGIC >> 24u32) as u8;
        buf[1] = (MAGIC >> 16u32) as u8;
        buf[2] = (MAGIC >> 8u32) as u8;
        buf[3] = MAGIC as u8;
        buf[4] = VERSION;
        buf[5] = self.stream_id;
        buf[6] = (self.flags >> 8u16) as u8;
        buf[7] = self.flags as u8;
        buf[8] = (self.seq >> 24u32) as u8;
        buf[9] = (self.seq >> 16u32) as u8;
        buf[10] = (self.seq >> 8u32) as u8;
        buf[11] = self.seq as u8;
        buf[12] = (self.ts_sec >> 56u64) as u8;
        buf[13] = (self.ts_sec >> 48u64) as u8;
        buf[14] = (self.ts_sec >> 40u64) as u8;
        buf[15] = (self.ts_sec >> 32u64) as u8;
        buf[16] = (self.ts_sec >> 24u64) as u8;
        buf[17] = (self.ts_sec >> 16u64) as u8;
        buf[18] = (self.ts_sec >> 8u64) as u8;
        buf[19] = self.ts_sec as u8;
        buf[20] = (self.ts_nsec >> 24u32) as u8;
        buf[21] = (self.ts_nsec >> 16u32) as u8;
        buf[22] = (self.ts_nsec >> 8u32) as u8;
        buf[23] = self.ts_nsec as u8;
        buf[24] = (self.payload_len >> 24u32) as u8;
        buf[25] = (self.payload_len >> 16u32) as u8;
        buf[26] = (self.payload_len >> 8u32) as u8;
        buf[27] = self.payload_len as u8;
        assert(buf@.subrange(0, HEADER_FIELDS_SIZE as int) =~= header_bytes(*self));
        assert(buf@.subrange(HEADER_FIELDS_SIZE as int, buf@.len() as int) =~= old(buf)@.subrange(
            HEADER_FIELDS_SIZE as int,
            old(buf)@.len() as int,
        ));
    }

    /// Deserializes a header. Returns `None` if the buffer is shorter than a
    /// header or the magic or version do not match.
    pub fn read_from(buf: &[u8]) -> (r: Option<Self>)
        ensures
            r == parse_header(buf@),
    {
        if buf.len() < HEADER_SIZE {
            return None;
        }
        let magic = ((buf[0] as u32) << 24u32) | ((buf[1] as u32) << 16u32) | ((buf[2] as u32)
            << 8u32) | (buf[3] as u32);
        if magic != MAGIC {
            return None;
        }
        let version = buf[4];
        if version != VERSION {
            return None;
        }
        Some(
            PacketHeader {
                stream_id: buf[5],
                flags: ((buf[6] as u16) << 8u16) | (buf[7] as u16),
                seq: ((buf[8] as u32) << 24u32) | ((buf[9] as u32) << 16u32) | ((buf[10] as u32)
                    << 8u32) | (buf[11] as u32),
                ts_sec: ((buf[12] as u64) << 56u64) | ((buf[13] as u64) << 48u64) | ((buf[14] as u64)
                    << 40u64) | ((buf[15] as u64) << 32u64) | ((buf[16] as u64) << 24u64) | ((
                buf[17] as u64) << 16u64) | ((buf[18] as u64) << 8u64) | (buf[19] as u64),
                ts_nsec: ((buf[20] as u32) << 24u32) | ((buf[21] as u32) << 16u32) | ((buf[22]
                    as u32) << 8u32) | (buf[23] as u32),
                payload_len: ((buf[24] as u32) << 24u32) | ((buf[25] as u32) << 16u32) | ((buf[26]
                    as u32) << 8u32) | (buf[27] as u32),
            },
        )
    }

    /// The timestamp as total nanoseconds.
    pub fn timestamp_ns(&self) -> (r: u128)
        ensures
            r as nat == timestamp_of(self.ts_sec, self.ts_nsec),
    {
        timespec_to_ns(self.ts_sec, self.ts_nsec)
    }

    /// Whether this is the last packet in the stream.
    pub fn is_last(&self) -> (r: bool)
        ensures
            r == (self.flags & FLAG_LAST != 0),
    {
        self.flags & FLAG_LAST != 0
    }
}

/// Total nanoseconds of a (seconds, nanoseconds) clock reading.
pub fn timespec_to_ns(sec: u64, nsec: u32) -> (r: u128)
    ensures
        r as nat == timestamp_of(sec, nsec),
{
    sec as u128 * 1_000_000_000 + nsec as u128
}

/// Builds a packet of `max(total_size, HEADER_SIZE)` bytes: the header, with
/// `payload_len` set to that size, followed by zero bytes.
pub fn build_packet(header: &PacketHeader, total_size: usize) -> (r: Vec<u8>)
    ensures
        ({
            let size = if total_size < HEADER_SIZE {
                HEADER_SIZE
            } else {
                total_size
            };
            &&& r@.len() == size
            &&& r@.subrange(0, HEADER_FIELDS_SIZE as int) == header_bytes(
                PacketHeader { payload_len: size as u32, ..*header },
            )
            &&& forall|i: int| HEADER_FIELDS_SIZE <= i < size ==> r@[i] == 0
        }),
{
    let size = if total_size < HEADER_SIZE {
        HEADER_SIZE
    } else {
        total_size
    };
    let mut buf = vec![0u8; size];
    let mut h = *header;
    h.payload_len = size as u32;
    let ghost before = buf@;
    h.write_to(buf.as_mut_slice());
    proof {
        assert forall|i: int| HEADER_FIELDS_SIZE <= i < size implies buf@[i] == 0 by {
            assert(buf@.subrange(HEADER_FIELDS_SIZE as int, size as int)[i - 28] == buf@[i]);
            assert(before.subrange(HEADER_FIELDS_SIZE as int, size as int)[i - 28] == before[i]);
        }
    }
    buf
}

/// Whether `new_seq` appears to have wrapped relative to `last_seq`.
pub fn is_seq_wrap(last_seq: u32, new_seq: u32) -> (r: bool)
    ensures
        r == seq_wraps(last_seq, new_seq),
{
    last_seq > new_seq && (last_seq - new_seq) > SEQ_WRAP_THRESHOLD
}

/// Current `CLOCK_MONOTONIC` time as (seconds, nanoseconds), read with
/// `nix::time::clock_gettime`. Nothing is claimed of the value: it is the
/// time. When the call fails the result is (0, 0).
#[verifier::external_body]
pub fn clock_now() -> (u64, u32) {
    match nix::time::clock_gettime(nix::time::ClockId::CLOCK_MONOTONIC) {
        Ok(ts) => (ts.tv_sec() as u64, ts.tv_nsec() as u32),
        Err(_) => (0, 0),
    }
}

} // verus!
