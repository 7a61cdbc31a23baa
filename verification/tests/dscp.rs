use bngtester::dscp::{
    build_tos, dscp_name, parse_dscp, parse_ecn_mode, parse_stream_dscp, plan_socket_tos, tos_marking,
    EcnCodepoint, EcnCounters, EcnMode,
};

#[test]
fn parse_standard_names() {
    assert_eq!(parse_dscp("BE").unwrap(), 0);
    assert_eq!(parse_dscp("CS0").unwrap(), 0);
    assert_eq!(parse_dscp("CS1").unwrap(), 8);
    assert_eq!(parse_dscp("CS7").unwrap(), 56);
    assert_eq!(parse_dscp("AF11").unwrap(), 10);
    assert_eq!(parse_dscp("AF41").unwrap(), 34);
    assert_eq!(parse_dscp("AF43").unwrap(), 38);
    assert_eq!(parse_dscp("EF").unwrap(), 46);
}

#[test]
fn parse_case_insensitive() {
    assert_eq!(parse_dscp("ef").unwrap(), 46);
    assert_eq!(parse_dscp("af41").unwrap(), 34);
    assert_eq!(parse_dscp("cs6").unwrap(), 48);
}

#[test]
fn parse_numeric() {
    assert_eq!(parse_dscp("0").unwrap(), 0);
    assert_eq!(parse_dscp("46").unwrap(), 46);
    assert_eq!(parse_dscp("63").unwrap(), 63);
}

#[test]
fn parse_numeric_out_of_range() {
    assert!(parse_dscp("64").is_err());
    assert!(parse_dscp("255").is_err());
}

#[test]
fn parse_invalid_name() {
    assert!(parse_dscp("INVALID").is_err());
    assert!(parse_dscp("AF44").is_err());
    assert!(parse_dscp("").is_err());
}

#[test]
fn name_lookup() {
    assert_eq!(dscp_name(0), "BE");
    assert_eq!(dscp_name(46), "EF");
    assert_eq!(dscp_name(34), "AF41");
    assert_eq!(dscp_name(7), "7");
}

#[test]
fn parse_stream_dscp_valid() {
    let (id, dscp) = parse_stream_dscp("0=AF41").unwrap();
    assert_eq!(id, 0);
    assert_eq!(dscp, 34);
}

#[test]
fn parse_stream_dscp_invalid() {
    assert!(parse_stream_dscp("no_equals").is_err());
    assert!(parse_stream_dscp("abc=EF").is_err());
    assert!(parse_stream_dscp("0=INVALID").is_err());
}

#[test]
fn parse_ecn_valid() {
    assert_eq!(parse_ecn_mode("ect0").unwrap(), EcnMode::Ect0);
    assert_eq!(parse_ecn_mode("ect1").unwrap(), EcnMode::Ect1);
    assert_eq!(parse_ecn_mode("ECT0").unwrap(), EcnMode::Ect0);
}

#[test]
fn parse_ecn_invalid() {
    assert!(parse_ecn_mode("invalid").is_err());
    assert!(parse_ecn_mode("ce").is_err());
    assert!(parse_ecn_mode("").is_err());
}

#[test]
fn build_tos_dscp_only() {
    assert_eq!(build_tos(Some(46), EcnMode::Off), 184);
    assert_eq!(build_tos(Some(0), EcnMode::Off), 0);
    assert_eq!(build_tos(None, EcnMode::Off), 0);
}

#[test]
fn build_tos_ecn_only() {
    assert_eq!(build_tos(None, EcnMode::Ect0), 0b10);
    assert_eq!(build_tos(None, EcnMode::Ect1), 0b01);
}

#[test]
fn build_tos_combined() {
    assert_eq!(build_tos(Some(46), EcnMode::Ect0), 0xBA);
    assert_eq!(build_tos(Some(46), EcnMode::Ect1), 0xB9);
}

#[test]
fn ecn_codepoint_from_tos() {
    assert_eq!(EcnCodepoint::from_tos(0x00), EcnCodepoint::NotEct);
    assert_eq!(EcnCodepoint::from_tos(0x01), EcnCodepoint::Ect1);
    assert_eq!(EcnCodepoint::from_tos(0x02), EcnCodepoint::Ect0);
    assert_eq!(EcnCodepoint::from_tos(0x03), EcnCodepoint::Ce);
    assert_eq!(EcnCodepoint::from_tos(0xBA), EcnCodepoint::Ect0);
    assert_eq!(EcnCodepoint::from_tos(0xBB), EcnCodepoint::Ce);
}

#[test]
fn ecn_mode_name() {
    assert_eq!(EcnMode::Off.name(), None);
    assert_eq!(EcnMode::Ect0.name(), Some("ECT0"));
    assert_eq!(EcnMode::Ect1.name(), Some("ECT1"));
}

// --- further cases ---

#[test]
fn error_messages_name_the_input() {
    assert_eq!(parse_dscp("64").unwrap_err(), "DSCP value 64 out of range (must be 0-63)");
    assert_eq!(parse_dscp("256").unwrap_err(), "unknown DSCP codepoint: '256'");
    assert_eq!(parse_dscp("AF44").unwrap_err(), "unknown DSCP codepoint: 'AF44'");
    assert_eq!(
        parse_ecn_mode("ce").unwrap_err(),
        "invalid ECN mode: 'ce'. Must be: ect0, ect1"
    );
    assert_eq!(
        parse_stream_dscp("no_equals").unwrap_err(),
        "invalid stream-dscp format: 'no_equals' (expected ID=DSCP)"
    );
    assert_eq!(parse_stream_dscp("abc=EF").unwrap_err(), "invalid stream ID: 'abc'");
    assert_eq!(
        parse_stream_dscp("0=INVALID").unwrap_err(),
        "unknown DSCP codepoint: 'INVALID'"
    );
}

#[test]
fn numeric_syntax_follows_integer_parsing() {
    assert_eq!(parse_dscp("+46").unwrap(), 46);
    assert_eq!(parse_dscp("046").unwrap(), 46);
    assert!(parse_dscp("+").is_err());
    assert!(parse_dscp("-1").is_err());
    assert!(parse_dscp(" 46").is_err());
    assert_eq!(parse_stream_dscp("+7=ef").unwrap(), (7, 46));
    assert_eq!(parse_stream_dscp("1=2=EF").unwrap_err(), "unknown DSCP codepoint: '2=EF'");
}

#[test]
fn every_name_parses_back() {
    for v in 0u8..=63 {
        assert_eq!(parse_dscp(&dscp_name(v)).unwrap(), v);
    }
}

#[test]
fn tos_carries_dscp_and_ecn() {
    for d in 0u8..=63 {
        for (mode, cp) in [
            (EcnMode::Off, EcnCodepoint::NotEct),
            (EcnMode::Ect0, EcnCodepoint::Ect0),
            (EcnMode::Ect1, EcnCodepoint::Ect1),
        ] {
            let tos = build_tos(Some(d), mode);
            assert_eq!(EcnCodepoint::from_tos(tos), cp);
            assert_eq!(tos >> 2, d);
        }
    }
}

#[test]
fn counters_count_each_codepoint() {
    let mut c = EcnCounters::default();
    c.record(EcnCodepoint::Ect0);
    c.record(EcnCodepoint::Ect0);
    c.record(EcnCodepoint::Ce);
    c.record_unknown();
    assert_eq!(c.ect0, 2);
    assert_eq!(c.ce, 1);
    assert_eq!(c.not_ect, 0);
    assert_eq!(c.unknown, 1);
    assert_eq!(c.total_observed(), 3);
}

#[test]
fn socket_tos_plan() {
    let err = plan_socket_tos(true, "[::1]:5000", Some(46), EcnMode::Off).unwrap_err();
    assert!(err.contains("IPv4-only"));
    assert!(err.contains("[::1]:5000"));
    assert_eq!(plan_socket_tos(false, "10.0.0.1:5000", None, EcnMode::Off), Ok(None));
    assert_eq!(plan_socket_tos(false, "10.0.0.1:5000", Some(46), EcnMode::Ect0), Ok(Some(0xBA)));
}

#[test]
fn tos_marking_skips_default() {
    assert_eq!(tos_marking(None, EcnMode::Off), None);
    assert_eq!(tos_marking(Some(0), EcnMode::Off), None);
    assert_eq!(tos_marking(Some(46), EcnMode::Off), Some(184));
    assert_eq!(tos_marking(None, EcnMode::Ect0), Some(2));
    assert_eq!(tos_marking(Some(46), EcnMode::Ect1), Some(0xB9));
}

#[test]
fn ipv6_rejected() {
    let result = plan_socket_tos(true, "[::1]:5000", Some(46), EcnMode::Off);
    assert!(result.is_err());
    assert!(result.unwrap_err().contains("IPv4-only"));
}
