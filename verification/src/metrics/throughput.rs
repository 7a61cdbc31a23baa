//! Throughput from byte counts and arrival timestamps.

use vstd::prelude::*;

verus! {

/// Tracks bytes and packets received over time.
pub struct ThroughputTracker {
    total_bytes: u64,
    total_packets: u64,
    start_ns: Option<u128>,
    last_ns: Option<u128>,
}

/// The counters of a throughput tracker.
pub struct ThroughputView {
    pub total_bytes: nat,
    pub total_packets: nat,
    pub start_ns: Option<u128>,
    pub last_ns: Option<u128>,
}

/// Nanoseconds from the first to the last packet; zero unless the last
/// came strictly after the first.
pub open spec fn duration_of(v: ThroughputView) -> nat {
    match (v.start_ns, v.last_ns) {
        (Some(start), Some(last)) => if last > start {
            (last - start) as nat
        } else {
            0
        },
        _ => 0,
    }
}

/// `count` items per `dur` nanoseconds scaled to per second with
/// `scale` (8 for bits from bytes), truncated to `u64` as the
/// implementation's final cast does; zero for a zero duration.
pub open spec fn per_second(count: nat, scale: nat, dur: nat) -> u64 {
    if dur == 0 {
        0
    } else {
        (count * scale * 1_000_000_000 / dur) as u64
    }
}

impl ThroughputTracker {
    /// The tracker's counters.
    pub closed spec fn view(&self) -> ThroughputView {
        ThroughputView {
            total_bytes: self.total_bytes as nat,
            total_packets: self.total_packets as nat,
            start_ns: self.start_ns,
            last_ns: self.last_ns,
        }
    }

    pub fn new() -> (r: Self)
        ensures
            r.view() == (ThroughputView {
                total_bytes: 0,
                total_packets: 0,
                start_ns: None,
                last_ns: None,
            }),
    {
        ThroughputTracker { total_bytes: 0, total_packets: 0, start_ns: None, last_ns: None }
    }

    /// Records a received packet of `bytes` bytes at `timestamp_ns`. The
    /// first packet's time is kept as the start; every packet's time
    /// becomes the last.
    pub fn record(&mut self, bytes: u64, timestamp_ns: u128)
        requires
            old(self).view().total_bytes + bytes <= u64::MAX,
            old(self).view().total_packets < u64::MAX,
        ensures
            final(self).view() == (ThroughputView {
                total_bytes: old(self).view().total_bytes + bytes as nat,
                total_packets: old(self).view().total_packets + 1,
                start_ns: match old(self).view().start_ns {
                    Some(s) => Some(s),
                    None => Some(timestamp_ns),
                },
                last_ns: Some(timestamp_ns),
            }),
    {
        self.total_bytes = self.total_bytes + bytes;
        self.total_packets = self.total_packets + 1;
        if self.start_ns.is_none() {
            self.start_ns = Some(timestamp_ns);
        }
        self.last_ns = Some(timestamp_ns);
    }

    /// Total bytes received.
    pub fn total_bytes(&self) -> (r: u64)
        ensures
            r == self.view().total_bytes,
    {
        self.total_bytes
    }

    /// Total packets received.
    pub fn total_packets(&self) -> (r: u64)
        ensures
            r == self.view().total_packets,
    {
        self.total_packets
    }

    /// Nanoseconds between the first and the last packet.
    pub fn duration_ns(&self) -> (r: u128)
        ensures
            r == duration_of(self.view()),
    {
        match (self.start_ns, self.last_ns) {
            (Some(start), Some(last)) => {
                if last > start {
                    last - start
                } else {
                    0
                }
            },
            _ => 0,
        }
    }

    /// Throughput in bits per second.
    pub fn bits_per_sec(&self) -> (r: u64)
        ensures
            r == per_second(self.view().total_bytes, 8, duration_of(self.view())),
            duration_of(self.view()) == 1_000_000_000 && self.view().total_bytes * 8 <= u64::MAX
                ==> r == self.view().total_bytes * 8,
    {
        proof {
            if duration_of(self.view()) == 1_000_000_000 && self.view().total_bytes * 8 <= u64::MAX {
                lemma_one_second_rates(self.view());
            }
        }
        let dur = self.duration_ns();
        if dur == 0 {
            return 0;
        }
        assert(self.total_bytes as u128 * 8 * 1_000_000_000 <= u128::MAX) by (nonlinear_arith)
            requires
                self.total_bytes <= u64::MAX,
        ;
        (self.total_bytes as u128 * 8 * 1_000_000_000 / dur) as u64
    }

    /// Throughput in packets per second.
    pub fn packets_per_sec(&self) -> (r: u64)
        ensures
            r == per_second(self.view().total_packets, 1, duration_of(self.view())),
            duration_of(self.view()) == 1_000_000_000 ==> r == self.view().total_packets,
    {
        proof {
            if duration_of(self.view()) == 1_000_000_000 && self.view().total_bytes * 8 <= u64::MAX {
                lemma_one_second_rates(self.view());
            }
        }
        let dur = self.duration_ns();
        if dur == 0 {
            return 0;
        }
        assert(self.total_packets as u128 * 1_000_000_000 <= u128::MAX) by (nonlinear_arith)
            requires
                self.total_packets <= u64::MAX,
        ;
        (self.total_packets as u128 * 1_000_000_000 / dur) as u64
    }
}

impl Default for ThroughputTracker {
    fn default() -> (r: Self)
        ensures
            r.view() == (ThroughputView {
                total_bytes: 0,
                total_packets: 0,
                start_ns: None,
                last_ns: None,
            }),
    {
        Self::new()
    }
}

/// Over exactly one second from first to last packet, the rates are the
/// totals themselves: bits per second are eight bits per byte received,
/// and packets per second are the packets received.
pub proof fn lemma_one_second_rates(v: ThroughputView)
    requires
        duration_of(v) == 1_000_000_000,
        v.total_bytes * 8 <= u64::MAX,
        v.total_packets <= u64::MAX,
    ensures
        per_second(v.total_bytes, 8, duration_of(v)) == v.total_bytes * 8,
        per_second(v.total_packets, 1, duration_of(v)) == v.total_packets,
{
    assert(v.total_bytes * 8 * 1_000_000_000 / 1_000_000_000nat == v.total_bytes * 8)
        by (nonlinear_arith);
    assert(v.total_packets * 1 * 1_000_000_000 / 1_000_000_000nat == v.total_packets)
        by (nonlinear_arith);
}

} // verus!
