//! Configuration file entries that the library gives meaning to. Reading
//! and parsing the YAML files themselves is done by the binary.

use vstd::prelude::*;

verus! {

/// One per-stream override entry of a client configuration file.
#[derive(Debug, Clone)]
pub struct StreamOverrideEntry {
    pub id: u8,
    pub size: Option<u32>,
    pub rate: Option<u32>,
    pub pattern: Option<String>,
    pub dscp: Option<String>,
}

} // verus!
