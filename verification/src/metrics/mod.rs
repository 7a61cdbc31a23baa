//! Receive-side metrics kept in integers: packet loss and reordering from
//! sequence numbers, throughput from byte counts and timestamps,
//! per-second traffic totals, and a latency histogram.

pub mod histogram;
pub mod loss;
pub mod throughput;
pub mod timeseries;
