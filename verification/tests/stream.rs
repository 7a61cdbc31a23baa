use bngtester::protocol::{StreamStatus, TrafficPattern};
use bngtester::stream::config::{
    parse_stream_pattern, parse_stream_rate, parse_stream_size, pattern_name, StreamOverrides,
};
use bngtester::stream::{StreamDirection, StreamRegistry, StreamType};

#[test]
fn parse_size_valid() {
    let (id, size) = parse_stream_size("0=64").unwrap();
    assert_eq!(id, 0);
    assert_eq!(size, 64);
}

#[test]
fn parse_size_at_minimum() {
    let (id, size) = parse_stream_size("1=32").unwrap();
    assert_eq!(id, 1);
    assert_eq!(size, 32);
}

#[test]
fn parse_size_below_minimum() {
    assert!(parse_stream_size("0=16").is_err());
    assert!(parse_stream_size("0=31").is_err());
    assert!(parse_stream_size("0=0").is_err());
}

#[test]
fn parse_size_invalid_format() {
    assert!(parse_stream_size("no_equals").is_err());
    assert!(parse_stream_size("abc=64").is_err());
    assert!(parse_stream_size("0=abc").is_err());
}

#[test]
fn parse_rate_valid() {
    let (id, rate) = parse_stream_rate("1=10000").unwrap();
    assert_eq!(id, 1);
    assert_eq!(rate, 10000);
}

#[test]
fn parse_rate_unlimited() {
    let (id, rate) = parse_stream_rate("0=0").unwrap();
    assert_eq!(id, 0);
    assert_eq!(rate, 0);
}

#[test]
fn parse_rate_invalid() {
    assert!(parse_stream_rate("no_equals").is_err());
    assert!(parse_stream_rate("abc=100").is_err());
    assert!(parse_stream_rate("0=abc").is_err());
}

#[test]
fn parse_pattern_valid() {
    let (id, p) = parse_stream_pattern("0=fixed").unwrap();
    assert_eq!(id, 0);
    assert_eq!(p, TrafficPattern::Fixed);

    let (id, p) = parse_stream_pattern("1=imix").unwrap();
    assert_eq!(id, 1);
    assert_eq!(p, TrafficPattern::Imix);

    let (id, p) = parse_stream_pattern("2=sweep").unwrap();
    assert_eq!(id, 2);
    assert_eq!(p, TrafficPattern::Sweep);
}

#[test]
fn parse_pattern_case_insensitive() {
    let (_, p) = parse_stream_pattern("0=IMIX").unwrap();
    assert_eq!(p, TrafficPattern::Imix);

    let (_, p) = parse_stream_pattern("0=Fixed").unwrap();
    assert_eq!(p, TrafficPattern::Fixed);
}

#[test]
fn parse_pattern_invalid() {
    assert!(parse_stream_pattern("no_equals").is_err());
    assert!(parse_stream_pattern("0=invalid").is_err());
    assert!(parse_stream_pattern("abc=fixed").is_err());
}

#[test]
fn resolve_no_overrides() {
    let overrides = StreamOverrides::default();
    let resolved = overrides.resolve(0, 512, 100, TrafficPattern::Fixed, Some(46));
    assert_eq!(resolved.size, 512);
    assert_eq!(resolved.rate_pps, 100);
    assert_eq!(resolved.pattern, TrafficPattern::Fixed);
    assert_eq!(resolved.dscp, Some(46));
}

#[test]
fn resolve_with_overrides() {
    let overrides = StreamOverrides {
        sizes: vec![(0, 64)],
        rates: vec![(0, 10000)],
        patterns: vec![(0, TrafficPattern::Imix)],
        dscps: vec![(0, 34)],
    };
    let resolved = overrides.resolve(0, 512, 100, TrafficPattern::Fixed, Some(46));
    assert_eq!(resolved.size, 64);
    assert_eq!(resolved.rate_pps, 10000);
    assert_eq!(resolved.pattern, TrafficPattern::Imix);
    assert_eq!(resolved.dscp, Some(34));
}

#[test]
fn resolve_last_match_wins() {
    let overrides = StreamOverrides {
        sizes: vec![(0, 64), (0, 128)],
        rates: vec![(0, 100), (0, 200)],
        patterns: vec![(0, TrafficPattern::Imix), (0, TrafficPattern::Sweep)],
        dscps: vec![(0, 34), (0, 46)],
    };
    let resolved = overrides.resolve(0, 512, 50, TrafficPattern::Fixed, None);
    assert_eq!(resolved.size, 128);
    assert_eq!(resolved.rate_pps, 200);
    assert_eq!(resolved.pattern, TrafficPattern::Sweep);
    assert_eq!(resolved.dscp, Some(46));
}

#[test]
fn resolve_different_streams() {
    let overrides = StreamOverrides {
        sizes: vec![(0, 64), (1, 1518)],
        rates: vec![(0, 10000)],
        patterns: vec![],
        dscps: vec![],
    };
    let r0 = overrides.resolve(0, 512, 100, TrafficPattern::Fixed, None);
    assert_eq!(r0.size, 64);
    assert_eq!(r0.rate_pps, 10000);

    let r1 = overrides.resolve(1, 512, 100, TrafficPattern::Fixed, None);
    assert_eq!(r1.size, 1518);
    assert_eq!(r1.rate_pps, 100);

    let r2 = overrides.resolve(2, 512, 100, TrafficPattern::Fixed, None);
    assert_eq!(r2.size, 512);
}

#[test]
fn has_overrides_detection() {
    let overrides = StreamOverrides {
        sizes: vec![(0, 64)],
        rates: vec![],
        patterns: vec![(1, TrafficPattern::Imix)],
        dscps: vec![],
    };
    assert!(overrides.has_overrides(0));
    assert!(overrides.has_overrides(1));
    assert!(!overrides.has_overrides(2));
}

#[test]
fn resolve_global_dscp_none() {
    let overrides = StreamOverrides::default();
    let resolved = overrides.resolve(0, 512, 100, TrafficPattern::Fixed, None);
    assert_eq!(resolved.dscp, None);
}

#[test]
fn register_and_lookup() {
    let mut reg = StreamRegistry::new();
    reg.register(0, 5001, StreamDirection::Upstream, StreamType::UdpLatency);
    reg.register(1, 5002, StreamDirection::Upstream, StreamType::TcpThroughput);

    assert_eq!(reg.all().len(), 2);
    assert_eq!(reg.get(0).unwrap().port, 5001);
    assert_eq!(reg.get(1).unwrap().stream_type, StreamType::TcpThroughput);
    assert!(reg.get(99).is_none());
}

#[test]
fn port_assignments() {
    let mut reg = StreamRegistry::new();
    reg.register(0, 5001, StreamDirection::Upstream, StreamType::UdpLatency);
    reg.register(1, 5002, StreamDirection::Upstream, StreamType::TcpThroughput);
    reg.register(2, 6002, StreamDirection::Downstream, StreamType::TcpThroughput);

    let upstream_tcp = reg.upstream_tcp_ports();
    assert_eq!(upstream_tcp.len(), 1);
    assert_eq!(upstream_tcp[0].stream_id, 1);

    let downstream_tcp = reg.downstream_tcp_ports();
    assert_eq!(downstream_tcp.len(), 1);
    assert_eq!(downstream_tcp[0].stream_id, 2);
}

#[test]
fn update_status() {
    let mut reg = StreamRegistry::new();
    reg.register(0, 5001, StreamDirection::Upstream, StreamType::UdpLatency);
    reg.set_status(0, StreamStatus::Failed);
    assert_eq!(reg.get(0).unwrap().status, StreamStatus::Failed);
}

#[test]
fn parse_error_messages() {
    assert_eq!(
        parse_stream_size("no_equals").unwrap_err(),
        "invalid stream-size format: 'no_equals' (expected ID=BYTES)"
    );
    assert_eq!(parse_stream_size("abc=64").unwrap_err(), "invalid stream ID: 'abc'");
    assert_eq!(parse_stream_size("0=abc").unwrap_err(), "invalid size value: 'abc'");
    assert_eq!(
        parse_stream_size("0=31").unwrap_err(),
        "stream size 31 is below minimum (32 bytes)"
    );
    assert_eq!(parse_stream_size("0=4294967296").unwrap_err(), "invalid size value: '4294967296'");
    assert_eq!(parse_stream_size("255=4294967295").unwrap(), (255, u32::MAX));
    assert_eq!(parse_stream_size("256=64").unwrap_err(), "invalid stream ID: '256'");
    assert_eq!(
        parse_stream_rate("x").unwrap_err(),
        "invalid stream-rate format: 'x' (expected ID=PPS)"
    );
    assert_eq!(parse_stream_rate("0=abc").unwrap_err(), "invalid rate value: 'abc'");
    assert_eq!(
        parse_stream_pattern("x").unwrap_err(),
        "invalid stream-pattern format: 'x' (expected ID=PATTERN)"
    );
    assert_eq!(
        parse_stream_pattern("0=Burst").unwrap_err(),
        "invalid traffic pattern: 'Burst'. Must be: fixed, imix, sweep"
    );
}

#[test]
fn dscp_only_overrides_count() {
    let overrides = StreamOverrides {
        sizes: vec![],
        rates: vec![],
        patterns: vec![],
        dscps: vec![(3, 46)],
    };
    assert!(overrides.has_overrides(3));
    assert!(!overrides.has_overrides(0));
    let r = overrides.resolve(3, 512, 100, TrafficPattern::Fixed, None);
    assert_eq!(r.dscp, Some(46));
    assert_eq!(r.size, 512);
}

#[test]
fn first_registration_wins() {
    let mut reg = StreamRegistry::default();
    reg.register(4, 7001, StreamDirection::Downstream, StreamType::UdpThroughput);
    reg.register(4, 7002, StreamDirection::Upstream, StreamType::TcpThroughput);
    assert_eq!(reg.get(4).unwrap().port, 7001);
    reg.set_status(4, StreamStatus::EarlyExit);
    assert_eq!(reg.all()[0].status, StreamStatus::EarlyExit);
    assert_eq!(reg.all()[1].status, StreamStatus::Complete);
    assert_eq!(reg.upstream_tcp_ports()[0].port, 7002);
    assert!(reg.downstream_tcp_ports().is_empty());
}

#[test]
fn pattern_names_lower_case() {
    assert_eq!(pattern_name(TrafficPattern::Fixed), "fixed");
    assert_eq!(pattern_name(TrafficPattern::Imix), "imix");
    assert_eq!(pattern_name(TrafficPattern::Sweep), "sweep");
}

#[test]
fn config_report_only_for_overridden_streams() {
    let mut o = StreamOverrides::default();
    o.sizes.push((1, 64));
    o.patterns.push((1, TrafficPattern::Sweep));
    o.dscps.push((2, 46));
    let c = o.config_report(1, 512, 100, TrafficPattern::Fixed).unwrap();
    assert_eq!(c.size, 64);
    assert_eq!(c.rate_pps, 100);
    assert_eq!(c.pattern, "sweep");
    // A DSCP override alone reports the global size, rate and pattern.
    let c = o.config_report(2, 512, 100, TrafficPattern::Fixed).unwrap();
    assert_eq!(c.size, 512);
    assert_eq!(c.rate_pps, 100);
    assert_eq!(c.pattern, "fixed");
    assert!(o.config_report(0, 512, 100, TrafficPattern::Fixed).is_none());
}

#[test]
fn pattern_names_round_trip() {
    for p in [TrafficPattern::Fixed, TrafficPattern::Imix, TrafficPattern::Sweep] {
        assert_eq!(bngtester::protocol::parse_pattern(pattern_name(p)), Some(p));
    }
}
