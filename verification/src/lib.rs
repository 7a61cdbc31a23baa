//! bngtester: subscriber test framework for BNGs. This crate holds the
//! verified core: wire formats, metric trackers, parsers for the command
//! line syntax, stream bookkeeping and the control-session rules.

pub mod strutil;
pub mod config;
pub mod dscp;
pub mod metrics;
pub mod protocol;
pub mod report;
pub mod stream;
pub mod traffic;
