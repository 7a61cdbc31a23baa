//! Test traffic: the wire format of data packets, the packet-size
//! patterns and decisions of UDP generators, and the bookkeeping of TCP
//! throughput streams.

pub mod generator;
pub mod packet;
pub mod tcp;
