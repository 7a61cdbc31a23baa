//! The text of JUnit pass/fail thresholds, `key=value`: splitting it and
//! naming the threshold. The value itself is a floating-point number,
//! read by the binary.

use vstd::prelude::*;

use crate::strutil::{split_once_char, split_once_spec, str_eq};

verus! {

/// Which threshold a `key=value` setting gives.
#[derive(Debug, Clone, Copy, PartialEq, Eq, Structural)]
pub enum ThresholdKey {
    /// Max acceptable loss percentage.
    Loss,
    /// Max acceptable p50 latency in microseconds.
    P50,
    /// Max acceptable p95 latency in microseconds.
    P95,
    /// Max acceptable p99 latency in microseconds.
    P99,
    /// Max acceptable p999 latency in microseconds.
    P999,
    /// Max acceptable jitter in microseconds.
    Jitter,
    /// Min acceptable throughput in Mbps.
    Throughput,
    /// Max acceptable bufferbloat ratio.
    Bloat,
}

/// The threshold a key names, if any.
pub open spec fn key_named(k: Seq<char>) -> Option<ThresholdKey> {
    if k == "loss"@ {
        Some(ThresholdKey::Loss)
    } else if k == "p50"@ {
        Some(ThresholdKey::P50)
    } else if k == "p95"@ {
        Some(ThresholdKey::P95)
    } else if k == "p99"@ {
        Some(ThresholdKey::P99)
    } else if k == "p999"@ {
        Some(ThresholdKey::P999)
    } else if k == "jitter"@ {
        Some(ThresholdKey::Jitter)
    } else if k == "throughput"@ {
        Some(ThresholdKey::Throughput)
    } else if k == "bloat"@ {
        Some(ThresholdKey::Bloat)
    } else {
        None
    }
}

/// The key that sets a threshold: its name in lower case.
pub open spec fn threshold_label(t: ThresholdKey) -> Seq<char> {
    match t {
        ThresholdKey::Loss => "loss"@,
        ThresholdKey::P50 => "p50"@,
        ThresholdKey::P95 => "p95"@,
        ThresholdKey::P99 => "p99"@,
        ThresholdKey::P999 => "p999"@,
        ThresholdKey::Jitter => "jitter"@,
        ThresholdKey::Throughput => "throughput"@,
        ThresholdKey::Bloat => "bloat"@,
    }
}

/// The key that sets a threshold.
pub fn threshold_name(t: ThresholdKey) -> (r: &'static str)
    ensures
        r@ == threshold_label(t),
{
    match t {
        ThresholdKey::Loss => "loss",
        ThresholdKey::P50 => "p50",
        ThresholdKey::P95 => "p95",
        ThresholdKey::P99 => "p99",
        ThresholdKey::P999 => "p999",
        ThresholdKey::Jitter => "jitter",
        ThresholdKey::Throughput => "throughput",
        ThresholdKey::Bloat => "bloat",
    }
}

/// Every threshold is set by its own name and by nothing else: a key
/// names a threshold exactly when it is that threshold's name, so no two
/// keys set the same threshold and each threshold can be set.
pub proof fn lemma_keys_name_their_thresholds(k: Seq<char>, t: ThresholdKey)
    ensures
        key_named(threshold_label(t)) == Some(t),
        key_named(k) == Some(t) ==> k == threshold_label(t),
        key_spec(threshold_label(t)) == Ok::<ThresholdKey, Seq<char>>(t),
{
    reveal_strlit("loss");
    reveal_strlit("p50");
    reveal_strlit("p95");
    reveal_strlit("p99");
    reveal_strlit("p999");
    reveal_strlit("jitter");
    reveal_strlit("throughput");
    reveal_strlit("bloat");
    assert("loss"@.len() == 4 && "p50"@.len() == 3 && "p95"@.len() == 3 && "p99"@.len() == 3
        && "p999"@.len() == 4 && "jitter"@.len() == 6 && "throughput"@.len() == 10
        && "bloat"@.len() == 5);
    assert("p50"@[1] == '5' && "p95"@[1] == '9' && "p99"@[1] == '9' && "p95"@[2] == '5'
        && "p99"@[2] == '9' && "loss"@[0] == 'l' && "p999"@[0] == 'p');
}

/// The key and value of a setting (split at its first `=`), or the error
/// text for a setting without one.
pub open spec fn split_spec(s: Seq<char>) -> Result<(Seq<char>, Seq<char>), Seq<char>> {
    match split_once_spec(s, '=') {
        Some((k, v)) => Ok((k, v)),
        None => Err("invalid threshold format: "@ + s),
    }
}

/// The threshold a key names, or the error text for an unknown key.
pub open spec fn key_spec(k: Seq<char>) -> Result<ThresholdKey, Seq<char>> {
    match key_named(k) {
        Some(t) => Ok(t),
        None => Err("unknown threshold key: "@ + k),
    }
}

/// Splits a `key=value` threshold setting at its first `=`.
pub fn split_threshold(s: &str) -> (r: Result<(&str, &str), String>)
    ensures
        match split_spec(s@) {
            Ok((k, v)) => r matches Ok((x, y)) && x@ == k && y@ == v,
            Err(m) => r matches Err(e) && e@ == m,
        },
{
    match split_once_char(s, '=') {
        Some((k, v)) => Ok((k, v)),
        None => {
            let mut msg = String::from_str("invalid threshold format: ");
            msg.append(s);
            Err(msg)
        },
    }
}

/// Names the threshold a key sets.
pub fn threshold_key(k: &str) -> (r: Result<ThresholdKey, String>)
    ensures
        match key_spec(k@) {
            Ok(t) => r == Ok::<ThresholdKey, String>(t),
            Err(m) => r matches Err(e) && e@ == m,
        },
{
    if str_eq(k, "loss") {
        Ok(ThresholdKey::Loss)
    } else if str_eq(k, "p50") {
        Ok(ThresholdKey::P50)
    } else if str_eq(k, "p95") {
        Ok(ThresholdKey::P95)
    } else if str_eq(k, "p99") {
        Ok(ThresholdKey::P99)
    } else if str_eq(k, "p999") {
        Ok(ThresholdKey::P999)
    } else if str_eq(k, "jitter") {
        Ok(ThresholdKey::Jitter)
    } else if str_eq(k, "throughput") {
        Ok(ThresholdKey::Throughput)
    } else if str_eq(k, "bloat") {
        Ok(ThresholdKey::Bloat)
    } else {
        let mut msg = String::from_str("unknown threshold key: ");
        msg.append(k);
        Err(msg)
    }
}

} // verus!
