use bngtester::protocol::{SessionStatus, TestMode};
use bngtester::report::jsonl::{JsonlWriter, PacketRecord};
use bngtester::report::text::{report_heading, stream_title};
use bngtester::report::thresholds::{split_threshold, threshold_key, ThresholdKey};
use bngtester::report::StreamConfigReport;
use bngtester::report::junit::{combine_junit_documents, escape_xml, render_junit, JunitCase};

#[test]
fn escapes_xml_specials() {
    assert_eq!(escape_xml("a<b>&\"c\""), "a&lt;b&gt;&amp;&quot;c&quot;");
    assert_eq!(escape_xml("&lt;"), "&amp;lt;");
    assert_eq!(escape_xml("plain µs"), "plain µs");
}

#[test]
fn renders_junit_suite() {
    let cases = vec![
        JunitCase {
            name: "packet_loss".to_string(),
            classname: "bngtester.latency.upstream".to_string(),
            output: "loss=0.100%".to_string(),
            failure: None,
        },
        JunitCase {
            name: "latency_p99".to_string(),
            classname: "bngtester.latency.upstream".to_string(),
            output: "latency_p99=150.0us (threshold: <100us)".to_string(),
            failure: Some("latency_p99=150.0us exceeds threshold 100us".to_string()),
        },
    ];
    let xml = render_junit("latency", &cases);
    let expected = [
        "<?xml version=\"1.0\" encoding=\"UTF-8\"?>\n",
        "<testsuites>\n",
        "  <testsuite name=\"bngtester.latency\" tests=\"2\" failures=\"1\">\n",
        "    <testcase name=\"packet_loss\" classname=\"bngtester.latency.upstream\">\n",
        "      <system-out>loss=0.100%</system-out>\n",
        "    </testcase>\n",
        "    <testcase name=\"latency_p99\" classname=\"bngtester.latency.upstream\">\n",
        "      <failure message=\"latency_p99=150.0us exceeds threshold 100us\">latency_p99=150.0us exceeds threshold 100us</failure>\n",
        "      <system-out>latency_p99=150.0us (threshold: &lt;100us)</system-out>\n",
        "    </testcase>\n",
        "  </testsuite>\n",
        "</testsuites>\n",
    ]
    .concat();
    assert_eq!(xml, expected);
    let empty = render_junit("rrul", &[]);
    assert!(empty.contains("tests=\"0\" failures=\"0\""));
}

/// The JSON text of a packet record, built field by field.
fn record_json(r: &PacketRecord) -> Vec<u8> {
    let mut m = serde_json::Map::new();
    m.insert("stream".to_string(), serde_json::Value::from(r.stream));
    m.insert("seq".to_string(), serde_json::Value::from(r.seq));
    m.insert("send_ts_ns".to_string(), serde_json::Value::from(r.send_ts_ns as u64));
    m.insert("recv_ts_ns".to_string(), serde_json::Value::from(r.recv_ts_ns as u64));
    m.insert("size".to_string(), serde_json::Value::from(r.size));
    m.insert("latency_ns".to_string(), serde_json::Value::from(r.latency_ns as i64));
    serde_json::to_vec(&serde_json::Value::Object(m)).unwrap()
}

#[test]
fn jsonl_single_record() {
    let mut w = JsonlWriter::new();
    let rec = PacketRecord {
        stream: 0,
        seq: 1,
        send_ts_ns: 1000000000,
        recv_ts_ns: 1000000450,
        size: 64,
        latency_ns: 450,
    };
    w.write_record(&record_json(&rec));
    let line = String::from_utf8(w.flush()).unwrap();
    assert!(line.ends_with('\n'));
    let parsed: serde_json::Value = serde_json::from_str(line.trim()).unwrap();
    assert_eq!(parsed["stream"], 0);
    assert_eq!(parsed["seq"], 1);
    assert_eq!(parsed["latency_ns"], 450);
}

#[test]
fn jsonl_multiple_records() {
    let mut w = JsonlWriter::new();
    for i in 0..3u32 {
        let rec = PacketRecord {
            stream: 0,
            seq: i,
            send_ts_ns: i as u128 * 1000,
            recv_ts_ns: i as u128 * 1000 + 500,
            size: 64,
            latency_ns: 500,
        };
        w.write_record(&record_json(&rec));
    }
    let output = String::from_utf8(w.flush()).unwrap();
    let lines: Vec<&str> = output.trim().lines().collect();
    assert_eq!(lines.len(), 3);
}

#[test]
fn jsonl_flush_hands_over_once() {
    let mut w = JsonlWriter::new();
    w.write_record(b"{}");
    w.write_record(b"[1]");
    assert_eq!(w.flush(), b"{}\n[1]\n".to_vec());
    assert!(w.flush().is_empty());
}

#[test]
fn text_heading_lines() {
    let h = report_heading(TestMode::Latency, 10, SessionStatus::Complete, "same-host");
    let rule: String = std::iter::repeat('═').take(50).collect();
    let expected = format!(
        "bngtester LATENCY test — 10s duration\n{rule}\n\nStatus: Complete | Clock: same-host\n\n"
    );
    assert_eq!(h, expected);
    let h = report_heading(TestMode::Bidirectional, 0, SessionStatus::Interrupted, "sync-estimated");
    assert!(h.starts_with("bngtester BIDIRECTIONAL test — 0s duration\n"));
    assert!(h.ends_with("Status: Interrupted | Clock: sync-estimated\n\n"));
}

#[test]
fn text_stream_titles() {
    assert_eq!(
        stream_title(0, "udp_latency", "upstream", None, None, None, Some(100)),
        "  Stream 0 [udp_latency ↑] 100pps\n"
    );
    let cfg = StreamConfigReport { size: 64, rate_pps: 0, pattern: "imix".to_string() };
    assert_eq!(
        stream_title(3, "udp_latency", "downstream", Some("EF"), Some("ECT0"), Some(&cfg), None),
        "  Stream 3 [udp_latency ↓ DSCP=EF ECN=ECT0 64B@unlimited imix]\n"
    );
    let cfg = StreamConfigReport { size: 1518, rate_pps: 10000, pattern: "fixed".to_string() };
    assert_eq!(
        stream_title(255, "tcp", "sideways", None, None, Some(&cfg), Some(7)),
        "  Stream 255 [tcp ? 1518B@10000pps fixed] 7pps\n"
    );
}

#[test]
fn threshold_settings_split_and_named() {
    assert_eq!(split_threshold("loss=1.0"), Ok(("loss", "1.0")));
    assert_eq!(split_threshold("p99=500"), Ok(("p99", "500")));
    assert_eq!(split_threshold("a=b=c"), Ok(("a", "b=c")));
    assert_eq!(
        split_threshold("noequalssign"),
        Err("invalid threshold format: noequalssign".to_string())
    );
    assert_eq!(threshold_key("loss"), Ok(ThresholdKey::Loss));
    assert_eq!(threshold_key("p999"), Ok(ThresholdKey::P999));
    assert_eq!(threshold_key("bloat"), Ok(ThresholdKey::Bloat));
    assert_eq!(threshold_key("throughput"), Ok(ThresholdKey::Throughput));
    assert_eq!(threshold_key("foo"), Err("unknown threshold key: foo".to_string()));
}

#[test]
fn combined_junit_renames_suites_per_client() {
    let case = JunitCase {
        name: "jitter".to_string(),
        classname: "bngtester.latency.upstream".to_string(),
        output: "jitter=1.0us".to_string(),
        failure: None,
    };
    let a = render_junit("latency", &[case.clone()]);
    let b = render_junit("rrul", &[]);
    let combined = combine_junit_documents(&[
        ("sub<1>".to_string(), a),
        ("sub-2".to_string(), b),
    ]);
    let expected = [
        "<?xml version=\"1.0\" encoding=\"UTF-8\"?>\n",
        "<testsuites>\n",
        "  <testsuite name=\"sub&lt;1&gt;/bngtester.latency\" tests=\"1\" failures=\"0\">\n",
        "    <testcase name=\"jitter\" classname=\"bngtester.latency.upstream\">\n",
        "      <system-out>jitter=1.0us</system-out>\n",
        "    </testcase>\n",
        "  </testsuite>\n",
        "  <testsuite name=\"sub-2/bngtester.rrul\" tests=\"0\" failures=\"0\">\n",
        "  </testsuite>\n",
        "</testsuites>\n",
    ]
    .concat();
    assert_eq!(combined, expected);
    assert_eq!(
        combine_junit_documents(&[]),
        "<?xml version=\"1.0\" encoding=\"UTF-8\"?>\n<testsuites>\n</testsuites>\n"
    );
}
