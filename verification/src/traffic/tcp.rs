//! Bookkeeping of a TCP throughput stream: bytes written, and the
//! congestion figures polled from the kernel's TCP_INFO while it runs.

use vstd::prelude::*;

verus! {

/// What a TCP throughput stream has written and seen of its connection.
#[derive(Debug, Clone, Copy, PartialEq, Eq, Structural)]
pub struct TcpStreamTotals {
    /// Bytes written to the connection.
    pub bytes_sent: u64,
    /// Lowest smoothed RTT polled, in microseconds (`u32::MAX` before any).
    pub rtt_min_us: u32,
    /// Highest smoothed RTT polled, in microseconds.
    pub rtt_max_us: u32,
    /// Sum of the RTTs polled, in microseconds.
    pub rtt_sum_us: u64,
    /// Number of RTTs polled.
    pub rtt_count: u64,
    /// Largest congestion window polled.
    pub cwnd_max: u32,
    /// Retransmissions at the latest poll.
    pub total_retrans: u32,
}

impl TcpStreamTotals {
    /// Nothing written or polled yet.
    pub fn new() -> (r: Self)
        ensures
            r == (TcpStreamTotals {
                bytes_sent: 0,
                rtt_min_us: u32::MAX,
                rtt_max_us: 0,
                rtt_sum_us: 0,
                rtt_count: 0,
                cwnd_max: 0,
                total_retrans: 0,
            }),
    {
        TcpStreamTotals {
            bytes_sent: 0,
            rtt_min_us: u32::MAX,
            rtt_max_us: 0,
            rtt_sum_us: 0,
            rtt_count: 0,
            cwnd_max: 0,
            total_retrans: 0,
        }
    }

    /// Counts `bytes` more bytes written.
    pub fn record_write(&mut self, bytes: usize)
        requires
            old(self).bytes_sent + bytes <= u64::MAX,
        ensures
            *final(self) == (TcpStreamTotals {
                bytes_sent: (old(self).bytes_sent + bytes) as u64,
                ..*old(self)
            }),
    {
        self.bytes_sent = self.bytes_sent + bytes as u64;
    }

    /// Takes in one poll of TCP_INFO: the smoothed RTT (ignored when zero,
    /// as before any measurement), the total retransmissions and the
    /// congestion window.
    pub fn record_info(&mut self, rtt_us: u32, total_retrans: u32, cwnd: u32)
        requires
            rtt_us > 0 ==> old(self).rtt_sum_us + rtt_us <= u64::MAX,
            rtt_us > 0 ==> old(self).rtt_count < u64::MAX,
        ensures
            final(self).bytes_sent == old(self).bytes_sent,
            final(self).total_retrans == total_retrans,
            final(self).cwnd_max == if cwnd > old(self).cwnd_max {
                cwnd
            } else {
                old(self).cwnd_max
            },
            rtt_us == 0 ==> final(self).rtt_min_us == old(self).rtt_min_us,
            rtt_us == 0 ==> final(self).rtt_max_us == old(self).rtt_max_us,
            rtt_us == 0 ==> final(self).rtt_sum_us == old(self).rtt_sum_us,
            rtt_us == 0 ==> final(self).rtt_count == old(self).rtt_count,
            rtt_us > 0 ==> final(self).rtt_min_us == (if rtt_us < old(self).rtt_min_us {
                rtt_us
            } else {
                old(self).rtt_min_us
            }),
            rtt_us > 0 ==> final(self).rtt_max_us == (if rtt_us > old(self).rtt_max_us {
                rtt_us
            } else {
                old(self).rtt_max_us
            }),
            rtt_us > 0 ==> final(self).rtt_sum_us == old(self).rtt_sum_us + rtt_us,
            rtt_us > 0 ==> final(self).rtt_count == old(self).rtt_count + 1,
    {
        if rtt_us > 0 {
            if rtt_us < self.rtt_min_us {
                self.rtt_min_us = rtt_us;
            }
            if rtt_us > self.rtt_max_us {
                self.rtt_max_us = rtt_us;
            }
            self.rtt_sum_us = self.rtt_sum_us + rtt_us as u64;
            self.rtt_count = self.rtt_count + 1;
        }
        if cwnd > self.cwnd_max {
            self.cwnd_max = cwnd;
        }
        self.total_retrans = total_retrans;
    }
}

/// What a TCP throughput stream does when its poll timer fires.
#[derive(Debug, Clone, Copy, PartialEq, Eq, Structural)]
pub enum TcpStep {
    /// Poll TCP_INFO and keep sending.
    Poll,
    /// Stop sending: the duration is over or the run was cancelled.
    Stop,
}

/// The step of a stream `elapsed_ns` into a run of `duration_ns`.
pub open spec fn tcp_step(elapsed_ns: u128, duration_ns: u128, cancelled: bool) -> TcpStep {
    if cancelled || elapsed_ns >= duration_ns {
        TcpStep::Stop
    } else {
        TcpStep::Poll
    }
}

/// Decides what a TCP throughput stream does when its poll timer fires.
pub fn tcp_next_step(elapsed_ns: u128, duration_ns: u128, cancelled: bool) -> (r: TcpStep)
    ensures
        r == tcp_step(elapsed_ns, duration_ns, cancelled),
{
    if cancelled || elapsed_ns >= duration_ns {
        TcpStep::Stop
    } else {
        TcpStep::Poll
    }
}

impl TcpStreamTotals {
    /// The sum and number of the RTTs polled, when any was: what the
    /// stream's mean RTT is computed from. `None` when no RTT was polled,
    /// and then the stream reports no TCP statistics.
    pub fn rtt_totals(&self) -> (r: Option<(u64, u64)>)
        ensures
            self.rtt_count > 0 ==> r == Some((self.rtt_sum_us, self.rtt_count)),
            self.rtt_count == 0 ==> r is None,
    {
        if self.rtt_count > 0 {
            Some((self.rtt_sum_us, self.rtt_count))
        } else {
            None
        }
    }
}

} // verus!
