//! Clock handling for one-way latency: correction by an estimated offset
//! between client and server clocks, and the offset estimate itself from
//! ping-pong samples over the control channel.

use vstd::prelude::*;

use crate::traffic::packet::{clock_now, timespec_to_ns, timestamp_of};

verus! {

/// Number of ping-pong rounds for clock offset estimation.
pub const SYNC_ROUNDS: usize = 8;

/// Clock synchronization mode.
#[derive(Debug, Clone, Copy, PartialEq, Eq, Structural)]
pub enum ClockMode {
    /// Both endpoints share a kernel; timestamps are used directly.
    SameHost,
    /// Clock offset estimated via control channel ping-pong.
    SyncEstimated { offset_ns: i128 },
}

/// The one-way latency after correcting a raw measurement.
pub open spec fn corrected_latency(mode: ClockMode, raw_latency_ns: i128) -> int {
    match mode {
        ClockMode::SameHost => raw_latency_ns as int,
        ClockMode::SyncEstimated { offset_ns } => raw_latency_ns - offset_ns,
    }
}

impl ClockMode {
    /// Applies clock correction to a raw one-way latency measurement.
    pub fn correct_latency(&self, raw_latency_ns: i128) -> (r: i128)
        requires
            i128::MIN <= corrected_latency(*self, raw_latency_ns) <= i128::MAX,
        ensures
            r == corrected_latency(*self, raw_latency_ns),
    {
        match self {
            ClockMode::SameHost => raw_latency_ns,
            ClockMode::SyncEstimated { offset_ns } => raw_latency_ns - *offset_ns,
        }
    }

    /// The mode's name in reports.
    pub fn name(&self) -> (r: &'static str)
        ensures
            match *self {
                ClockMode::SameHost => r@ == "same-host"@,
                ClockMode::SyncEstimated { .. } => r@ == "sync-estimated"@,
            },
    {
        match self {
            ClockMode::SameHost => "same-host",
            ClockMode::SyncEstimated { .. } => "sync-estimated",
        }
    }
}

/// The one-way latency of a packet sent at `send_ns` and received at
/// `recv_ns`, corrected for the clock mode; negative results count as 0.
pub open spec fn latency_of(mode: ClockMode, send_ns: u128, recv_ns: u128) -> int {
    let raw = recv_ns - send_ns;
    let corrected = match mode {
        ClockMode::SameHost => raw,
        ClockMode::SyncEstimated { offset_ns } => raw - offset_ns,
    };
    if corrected < 0 {
        0
    } else {
        corrected
    }
}

/// Whether the latency of a packet sent at `send_ns` and received at
/// `recv_ns` can be computed in `i128`.
pub open spec fn latency_fits(mode: ClockMode, send_ns: u128, recv_ns: u128) -> bool {
    &&& send_ns <= i128::MAX
    &&& recv_ns <= i128::MAX
    &&& match mode {
        ClockMode::SameHost => true,
        ClockMode::SyncEstimated { offset_ns } => i128::MIN <= recv_ns - send_ns - offset_ns
            <= i128::MAX,
    }
}

/// The one-way latency of a packet in nanoseconds: receive time minus send
/// time, corrected for the clock mode, and 0 when that is negative.
pub fn one_way_latency(mode: ClockMode, send_ns: u128, recv_ns: u128) -> (r: u128)
    requires
        latency_fits(mode, send_ns, recv_ns),
    ensures
        r == latency_of(mode, send_ns, recv_ns),
{
    let raw = recv_ns as i128 - send_ns as i128;
    let corrected = mode.correct_latency(raw);
    if corrected < 0 {
        0
    } else {
        corrected as u128
    }
}

/// Whether `one_way_latency` can be computed for these times.
pub fn latency_computable(mode: ClockMode, send_ns: u128, recv_ns: u128) -> (r: bool)
    ensures
        r == latency_fits(mode, send_ns, recv_ns),
{
    let max: u128 = i128::MAX as u128;
    if send_ns > max || recv_ns > max {
        return false;
    }
    let raw = recv_ns as i128 - send_ns as i128;
    match mode {
        ClockMode::SameHost => true,
        ClockMode::SyncEstimated { offset_ns } => raw.checked_sub(offset_ns).is_some(),
    }
}

/// Current monotonic time in nanoseconds. It is the time: all that is
/// known of the value is that it is a (seconds, nanoseconds) reading
/// turned into nanoseconds.
pub fn mono_now_ns() -> (r: u128)
    ensures
        exists|sec: u64, nsec: u32| r as nat == timestamp_of(sec, nsec),
{
    let (sec, nsec) = clock_now();
    timespec_to_ns(sec, nsec)
}

/// One clock sync sample: client sends, server receives and answers,
/// client receives.
#[derive(Debug, Clone, Copy, PartialEq, Eq, Structural)]
pub struct ClockSample {
    pub client_send_ns: u128,
    pub server_recv_ns: u128,
    pub server_send_ns: u128,
    pub client_recv_ns: u128,
}

/// Round-trip time seen by the client.
pub open spec fn rtt_of(s: ClockSample) -> int {
    s.client_recv_ns - s.client_send_ns
}

/// Integer division by two rounding toward zero, as `/` does on `i128`.
pub open spec fn half_toward_zero(x: int) -> int {
    if x >= 0 {
        x / 2
    } else {
        -((-x) / 2)
    }
}

/// Estimated offset (server clock minus client clock), assuming the same
/// delay in both directions.
pub open spec fn offset_of(s: ClockSample) -> int {
    half_toward_zero(
        (s.server_recv_ns - s.client_send_ns) + (s.server_send_ns - s.client_recv_ns),
    )
}

/// The sample's times fit `i128` and the client received after sending,
/// so its round-trip time and offset can be computed.
pub open spec fn sample_ok(s: ClockSample) -> bool {
    &&& offset_ok(s)
    &&& s.client_send_ns <= s.client_recv_ns
}

/// The sample's times fit `i128` and so does the sum its offset halves, so
/// its offset can be computed.
pub open spec fn offset_ok(s: ClockSample) -> bool {
    &&& s.client_send_ns <= i128::MAX
    &&& s.server_recv_ns <= i128::MAX
    &&& s.server_send_ns <= i128::MAX
    &&& s.client_recv_ns <= i128::MAX
    &&& i128::MIN <= (s.server_recv_ns - s.client_send_ns) + (s.server_send_ns - s.client_recv_ns)
        <= i128::MAX
}

impl ClockSample {
    /// Whether the sample's round-trip time and offset can be computed:
    /// its times fit `i128`, the client received after sending, and the
    /// offset sum fits `i128`.
    pub fn is_usable(&self) -> (r: bool)
        ensures
            r == sample_ok(*self),
    {
        let max: u128 = i128::MAX as u128;
        if self.client_send_ns > max || self.server_recv_ns > max || self.server_send_ns > max
            || self.client_recv_ns > max || self.client_send_ns > self.client_recv_ns {
            return false;
        }
        let t1 = self.client_send_ns as i128;
        let t2 = self.server_recv_ns as i128;
        let t3 = self.server_send_ns as i128;
        let t4 = self.client_recv_ns as i128;
        let a = t2 - t1;
        let b = t3 - t4;
        match a.checked_add(b) {
            Some(_) => true,
            None => false,
        }
    }

    /// Estimated round-trip time.
    pub fn rtt_ns(&self) -> (r: u128)
        requires
            self.client_send_ns <= self.client_recv_ns,
        ensures
            r == rtt_of(*self),
    {
        self.client_recv_ns - self.client_send_ns
    }

    /// Estimated clock offset: server time minus client time.
    pub fn offset_ns(&self) -> (r: i128)
        requires
            offset_ok(*self),
        ensures
            r == offset_of(*self),
    {
        let t1 = self.client_send_ns as i128;
        let t2 = self.server_recv_ns as i128;
        let t3 = self.server_send_ns as i128;
        let t4 = self.client_recv_ns as i128;
        let sum = (t2 - t1) + (t3 - t4);
        sum / 2
    }
}

/// The sample of a probe sent at `client_send` (client clock) that takes
/// `delay` to reach a server whose clock reads `offset` ahead, is answered
/// after `hold`, and whose answer takes `delay` back.
pub open spec fn symmetric_sample(client_send: int, delay: int, hold: int, offset: int) -> ClockSample {
    ClockSample {
        client_send_ns: client_send as u128,
        server_recv_ns: (client_send + delay + offset) as u128,
        server_send_ns: (client_send + delay + offset + hold) as u128,
        client_recv_ns: (client_send + 2 * delay + hold) as u128,
    }
}

/// With the same delay in both directions, a sample's offset estimate is
/// the true offset between the clocks, and correcting a one-way
/// measurement (true delay plus offset) by it gives the true delay.
pub proof fn lemma_symmetric_delay_offset(client_send: int, delay: int, hold: int, offset: int)
    requires
        0 <= client_send <= u128::MAX,
        0 <= delay,
        0 <= client_send + delay + offset,
        0 <= client_send + delay + offset + hold,
        0 <= client_send + 2 * delay + hold,
        client_send + 2 * delay + hold <= u128::MAX,
        client_send + delay + offset <= u128::MAX,
        client_send + delay + offset + hold <= u128::MAX,
        i128::MIN <= offset,
        delay + offset <= i128::MAX,
    ensures
        offset_of(symmetric_sample(client_send, delay, hold, offset)) == offset,
        corrected_latency(ClockMode::SyncEstimated { offset_ns: offset as i128 }, (delay + offset) as i128)
            == delay,
{
    let s = symmetric_sample(client_send, delay, hold, offset);
    assert(s.client_send_ns == client_send);
    assert(s.server_recv_ns == client_send + delay + offset);
    assert(s.server_send_ns == client_send + delay + offset + hold);
    assert(s.client_recv_ns == client_send + 2 * delay + hold);
    let sum = (s.server_recv_ns - s.client_send_ns) + (s.server_send_ns - s.client_recv_ns);
    assert(sum == 2 * offset);
    assert(half_toward_zero(2 * offset) == offset);
}

/// Index of the first sample with the lowest round-trip time.
pub open spec fn is_best_sample(samples: Seq<ClockSample>, i: int) -> bool {
    &&& 0 <= i < samples.len()
    &&& forall|j: int| 0 <= j < samples.len() ==> rtt_of(samples[i]) <= rtt_of(#[trigger] samples[j])
    &&& forall|j: int| 0 <= j < i ==> rtt_of(samples[i]) < rtt_of(#[trigger] samples[j])
}

/// Estimates the clock offset from the sample with the lowest round-trip
/// time (the most likely to have symmetric delay); the first such sample
/// when several tie. `None` without samples.
pub fn estimate_offset(samples: &[ClockSample]) -> (r: Option<i128>)
    requires
        forall|i: int| 0 <= i < samples@.len() ==> sample_ok(#[trigger] samples@[i]),
    ensures
        samples@.len() == 0 ==> r is None,
        samples@.len() > 0 ==> exists|i: int|
            is_best_sample(samples@, i) && r == Some(offset_of(samples@[i]) as i128),
{
    if samples.len() == 0 {
        return None;
    }
    let mut best: usize = 0;
    let mut best_rtt = samples[0].rtt_ns();
    let mut i: usize = 1;
    while i < samples.len()
        invariant
            forall|k: int| 0 <= k < samples@.len() ==> sample_ok(#[trigger] samples@[k]),
            0 <= best < i <= samples@.len(),
            best_rtt == rtt_of(samples@[best as int]),
            forall|j: int| 0 <= j < i ==> rtt_of(samples@[best as int]) <= rtt_of(
                #[trigger] samples@[j],
            ),
            forall|j: int| 0 <= j < best ==> rtt_of(samples@[best as int]) < rtt_of(
                #[trigger] samples@[j],
            ),
        decreases samples@.len() - i,
    {
        let rtt = samples[i].rtt_ns();
        if rtt < best_rtt {
            best = i;
            best_rtt = rtt;
        }
        i = i + 1;
    }
    let off = samples[best].offset_ns();
    assert(is_best_sample(samples@, best as int));
    Some(off)
}

/// Number of rounds to perform for clock sync.
pub fn sync_rounds() -> (r: usize)
    ensures
        r == SYNC_ROUNDS,
{
    SYNC_ROUNDS
}

} // verus!
