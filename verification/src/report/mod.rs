//! Report pieces kept in the library: test and stream configuration
//! metadata, the JSON-lines framing of per-packet records, the JUnit XML
//! rendering of test cases, the text report's heading and stream titles,
//! and the reading of threshold settings. Measurements that are
//! floating-point numbers, and their formatting, stay in the binary.

pub mod jsonl;
pub mod junit;
pub mod text;
pub mod thresholds;

use vstd::prelude::*;

use crate::protocol::TestMode;

verus! {

/// The test's configuration as reported.
#[derive(Debug, Clone)]
pub struct TestConfig {
    pub mode: TestMode,
    pub duration_secs: u32,
    pub client: String,
    pub server: String,
}

/// Per-stream configuration metadata for reports.
#[derive(Debug, Clone)]
pub struct StreamConfigReport {
    pub size: u32,
    pub rate_pps: u32,
    pub pattern: String,
}

} // verus!
