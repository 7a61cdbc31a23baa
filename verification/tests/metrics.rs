use bngtester::metrics::histogram::LatencyHistogram;
use bngtester::metrics::timeseries::{SecondTotals, TimeSeriesCounters};
use bngtester::metrics::loss::LossTracker;
use bngtester::metrics::throughput::ThroughputTracker;

#[test]
fn detects_loss() {
    let mut t = LossTracker::new();
    t.record(0);
    t.record(1);
    t.record(2);
    t.record(4);
    assert_eq!(t.received(), 4);
    assert_eq!(t.estimated_lost(), 1);
}

#[test]
fn detects_reordering() {
    let mut t = LossTracker::new();
    t.record(0);
    t.record(1);
    t.record(3);
    t.record(2);
    assert_eq!(t.reordered(), 1);
}

#[test]
fn handles_wrap_around() {
    let mut t = LossTracker::new();
    t.record(u32::MAX - 2);
    t.record(u32::MAX - 1);
    t.record(u32::MAX);
    t.record(0);
    t.record(1);
    assert_eq!(t.received(), 5);
    assert_eq!(t.reordered(), 0);
}

#[test]
fn in_order_arrivals_lose_nothing() {
    let mut t = LossTracker::new();
    for i in 0..100 {
        t.record(i);
    }
    assert_eq!(t.received(), 100);
    assert_eq!(t.estimated_lost(), 0);
    assert_eq!(t.reordered(), 0);
    assert_eq!(t.highest_seq(), Some(99));
}

#[test]
fn fresh_loss_tracker_is_empty() {
    let t = LossTracker::default();
    assert_eq!(t.received(), 0);
    assert_eq!(t.estimated_lost(), 0);
    assert_eq!(t.highest_seq(), None);
}

#[test]
fn duplicates_are_not_reordering() {
    let mut t = LossTracker::new();
    t.record(5);
    t.record(5);
    assert_eq!(t.received(), 2);
    assert_eq!(t.reordered(), 0);
    assert_eq!(t.estimated_lost(), 4);
}

#[test]
fn throughput_empty_tracker() {
    let t = ThroughputTracker::new();
    assert_eq!(t.total_bytes(), 0);
    assert_eq!(t.bits_per_sec(), 0);
    assert_eq!(t.packets_per_sec(), 0);
}

#[test]
fn single_packet_zero_throughput() {
    let mut t = ThroughputTracker::new();
    t.record(1000, 1_000_000_000);
    assert_eq!(t.bits_per_sec(), 0);
}

#[test]
fn known_throughput() {
    let mut t = ThroughputTracker::new();
    t.record(500, 0);
    t.record(500, 1_000_000_000);
    assert_eq!(t.total_bytes(), 1000);
    assert_eq!(t.bits_per_sec(), 8000);
    assert_eq!(t.packets_per_sec(), 2);
}

#[test]
fn high_rate() {
    let mut t = ThroughputTracker::new();
    let bytes_per_pkt: u64 = 1500;
    let pkts = 83333;
    let ns_per_pkt = 1_000_000_000u128 / pkts;
    for i in 0..pkts {
        t.record(bytes_per_pkt, i * ns_per_pkt);
    }
    let bps = t.bits_per_sec();
    assert!(bps > 900_000_000, "got {bps} bps");
    assert!(bps < 1_100_000_000, "got {bps} bps");
}

#[test]
fn duration_spans_first_to_last() {
    let mut t = ThroughputTracker::new();
    t.record(100, 2_000);
    t.record(100, 5_000);
    t.record(100, 4_000);
    assert_eq!(t.duration_ns(), 2_000);
    assert_eq!(t.total_packets(), 3);
    // 300 bytes * 8 * 1e9 / 2000 ns
    assert_eq!(t.bits_per_sec(), 1_200_000_000);
    assert_eq!(t.packets_per_sec(), 1_500_000);
}

#[test]
fn timeseries_counters_empty() {
    let c = TimeSeriesCounters::new();
    assert!(c.seconds().is_empty());
    assert_eq!(c.start_ns(), None);
}

#[test]
fn timeseries_counts_per_second() {
    let mut c = TimeSeriesCounters::new();
    assert_eq!(c.record(5_000, 1000), 0);
    assert_eq!(c.record(500_005_000, 1000), 0);
    assert_eq!(c.start_ns(), Some(5_000));
    // Two seconds later: second 1 stays empty.
    assert_eq!(c.record(2_000_005_000, 125_000_000), 2);
    // A time before the start counts in second 0.
    assert_eq!(c.record(1_000, 10), 0);
    let s = c.seconds();
    assert_eq!(s.len(), 3);
    assert_eq!(s[0], SecondTotals { bytes: 2010, packets: 3 });
    assert_eq!(s[1], SecondTotals { bytes: 0, packets: 0 });
    assert_eq!(s[2], SecondTotals { bytes: 125_000_000, packets: 1 });
    let total: u64 = s.iter().map(|t| t.bytes).sum();
    assert_eq!(total, 2010 + 125_000_000);
}

#[test]
fn histogram_default_buckets() {
    let h = LatencyHistogram::default_buckets();
    assert!(!h.boundaries().is_empty());
    assert_eq!(h.boundaries()[0], 10_000);
    assert_eq!(h.counts().len(), h.boundaries().len() + 1);
}

#[test]
fn histogram_record() {
    let mut h = LatencyHistogram::default_buckets();
    h.record(5_000);
    assert_eq!(h.counts()[0], 1);
    h.record(15_000);
    assert_eq!(h.counts()[1], 1);
    h.record(999_000_000_000);
    assert_eq!(h.counts()[h.counts().len() - 1], 1);
}

#[test]
fn histogram_bucket_layout() {
    let h = LatencyHistogram::default_buckets();
    let b = h.boundaries();
    assert_eq!(b.len(), 280);
    assert_eq!(b[99], 1_000_000);
    assert_eq!(b[100], 1_100_000);
    assert_eq!(b[189], 10_000_000);
    assert_eq!(b[190], 11_000_000);
    assert_eq!(b[279], 100_000_000);
    // A bound itself belongs to its bucket; one past it to the next.
    assert_eq!(h.bucket_of(10_000), 0);
    assert_eq!(h.bucket_of(10_001), 1);
    assert_eq!(h.bucket_of(0), 0);
    assert_eq!(h.bucket_of(100_000_000), 279);
    assert_eq!(h.bucket_of(100_000_001), 280);
}

#[test]
fn complete_arrivals_in_any_order_lose_nothing() {
    let mut t = LossTracker::new();
    for s in [3u32, 0, 2, 1, 1] {
        t.record(s);
    }
    assert_eq!(t.highest_seq(), Some(3));
    assert_eq!(t.received(), 5);
    assert_eq!(t.estimated_lost(), 0);
}
