//! The parts of the human-readable text report that hold no measurement:
//! the heading and each stream's title line. The measurement lines, which
//! show floating-point values, are added by the binary.

use vstd::prelude::*;

use crate::protocol::{SessionStatus, TestMode};
use crate::report::StreamConfigReport;
use crate::strutil::{dec_str, push_char, push_decimal, str_eq};

verus! {

broadcast use vstd::string::group_string_axioms;

/// The test mode's name in capitals, as the heading shows it.
pub open spec fn mode_heading(m: TestMode) -> Seq<char> {
    match m {
        TestMode::Throughput => "THROUGHPUT"@,
        TestMode::Latency => "LATENCY"@,
        TestMode::Rrul => "RRUL"@,
        TestMode::Bidirectional => "BIDIRECTIONAL"@,
    }
}

/// The session status's name, as the heading shows it.
pub open spec fn status_label(s: SessionStatus) -> Seq<char> {
    match s {
        SessionStatus::Complete => "Complete"@,
        SessionStatus::Interrupted => "Interrupted"@,
        SessionStatus::Partial => "Partial"@,
    }
}

/// The rule under the title: fifty box-drawing characters.
pub open spec fn heading_rule() -> Seq<char> {
    Seq::new(50, |i: int| '═')
}

/// The report's heading: title with mode and duration, a rule, and the
/// session status with the clock mode, each block followed by a blank
/// line.
pub open spec fn heading_text(
    mode: TestMode,
    duration_secs: u32,
    status: SessionStatus,
    clock_mode: Seq<char>,
) -> Seq<char> {
    "bngtester "@ + mode_heading(mode) + " test — "@ + dec_str(duration_secs as nat)
        + "s duration\n"@ + heading_rule() + "\n"@ + "\n"@ + "Status: "@ + status_label(status)
        + " | Clock: "@ + clock_mode + "\n"@ + "\n"@
}

/// The arrow for a stream direction: up for upstream, down for
/// downstream, `?` for anything else.
pub open spec fn direction_arrow(direction: Seq<char>) -> Seq<char> {
    if direction == "upstream"@ {
        "↑"@
    } else if direction == "downstream"@ {
        "↓"@
    } else {
        "?"@
    }
}

/// The DSCP part of a stream title.
pub open spec fn dscp_part(dscp_name: Option<Seq<char>>) -> Seq<char> {
    match dscp_name {
        Some(n) => " DSCP="@ + n,
        None => Seq::empty(),
    }
}

/// The ECN part of a stream title.
pub open spec fn ecn_part(ecn_mode: Option<Seq<char>>) -> Seq<char> {
    match ecn_mode {
        Some(m) => " ECN="@ + m,
        None => Seq::empty(),
    }
}

/// A stream's configured rate: `unlimited` for 0, else packets per second.
pub open spec fn rate_text(rate_pps: u32) -> Seq<char> {
    if rate_pps == 0 {
        "unlimited"@
    } else {
        dec_str(rate_pps as nat) + "pps"@
    }
}

/// The configuration part of a stream title: size, rate and pattern.
pub open spec fn config_part(config: Option<StreamConfigReport>) -> Seq<char> {
    match config {
        Some(c) => " "@ + dec_str(c.size as nat) + "B@"@ + rate_text(c.rate_pps) + " "@
            + c.pattern@,
        None => Seq::empty(),
    }
}

/// The measured packet rate after a stream title.
pub open spec fn pps_part(pps: Option<u64>) -> Seq<char> {
    match pps {
        Some(p) => " "@ + dec_str(p as nat) + "pps"@,
        None => Seq::empty(),
    }
}

/// A stream's title line.
pub open spec fn stream_title_text(
    id: u8,
    stream_type: Seq<char>,
    direction: Seq<char>,
    dscp_name: Option<Seq<char>>,
    ecn_mode: Option<Seq<char>>,
    config: Option<StreamConfigReport>,
    pps: Option<u64>,
) -> Seq<char> {
    "  Stream "@ + dec_str(id as nat) + " ["@ + stream_type + " "@ + direction_arrow(direction)
        + dscp_part(dscp_name) + ecn_part(ecn_mode) + config_part(config) + "]"@ + pps_part(pps)
        + "\n"@
}

/// The view of an optional string slice.
pub open spec fn opt_view(o: Option<&str>) -> Option<Seq<char>> {
    match o {
        Some(s) => Some(s@),
        None => None,
    }
}

/// Renders the report's heading.
pub fn report_heading(
    mode: TestMode,
    duration_secs: u32,
    status: SessionStatus,
    clock_mode: &str,
) -> (r: String)
    ensures
        r@ == heading_text(mode, duration_secs, status, clock_mode@),
{
    let mut out = String::from_str("bngtester ");
    match mode {
        TestMode::Throughput => out.append("THROUGHPUT"),
        TestMode::Latency => out.append("LATENCY"),
        TestMode::Rrul => out.append("RRUL"),
        TestMode::Bidirectional => out.append("BIDIRECTIONAL"),
    }
    out.append(" test — ");
    push_decimal(&mut out, duration_secs as u64);
    out.append("s duration\n");
    let ghost before_rule = out@;
    let mut i: usize = 0;
    while i < 50
        invariant
            i <= 50,
            out@ == before_rule + Seq::new(i as nat, |k: int| '═'),
        decreases 50 - i,
    {
        push_char(&mut out, '═');
        i = i + 1;
        assert(out@ =~= before_rule + Seq::new(i as nat, |k: int| '═'));
    }
    out.append("\n\nStatus: ");
    match status {
        SessionStatus::Complete => out.append("Complete"),
        SessionStatus::Interrupted => out.append("Interrupted"),
        SessionStatus::Partial => out.append("Partial"),
    }
    out.append(" | Clock: ");
    out.append(clock_mode);
    out.append("\n\n");
    proof {
        reveal_strlit("\n\nStatus: ");
        reveal_strlit("\n");
        reveal_strlit("Status: ");
        reveal_strlit("\n\n");
        assert("\n\nStatus: "@ =~= "\n"@ + "\n"@ + "Status: "@);
        assert("\n\n"@ =~= "\n"@ + "\n"@);
    }
    assert(out@ =~= heading_text(mode, duration_secs, status, clock_mode@));
    out
}

/// Appends the arrow for a stream direction.
fn push_arrow(out: &mut String, direction: &str)
    ensures
        final(out)@ == old(out)@ + direction_arrow(direction@),
{
    if str_eq(direction, "upstream") {
        out.append("↑");
    } else if str_eq(direction, "downstream") {
        out.append("↓");
    } else {
        out.append("?");
    }
}

/// Appends ` <label><value>` when there is a value.
fn push_labelled(out: &mut String, label: &str, value: Option<&str>)
    ensures
        final(out)@ == old(out)@ + match value {
            Some(v) => label@ + v@,
            None => Seq::empty(),
        },
{
    match value {
        Some(v) => {
            out.append(label);
            out.append(v);
        },
        None => {
            assert(out@ =~= old(out)@ + Seq::<char>::empty());
        },
    }
}

/// Appends the configuration part of a stream title.
fn push_config_part(out: &mut String, config: Option<&StreamConfigReport>)
    ensures
        final(out)@ == old(out)@ + config_part(
            match config {
                Some(c) => Some(*c),
                None => None,
            },
        ),
{
    match config {
        Some(c) => {
            out.append(" ");
            push_decimal(out, c.size as u64);
            out.append("B@");
            let ghost mid = out@;
            if c.rate_pps == 0 {
                out.append("unlimited");
            } else {
                push_decimal(out, c.rate_pps as u64);
                out.append("pps");
            }
            assert(out@ =~= mid + rate_text(c.rate_pps));
            out.append(" ");
            out.append(c.pattern.as_str());
            assert(out@ =~= old(out)@ + config_part(Some(*c)));
        },
        None => {
            assert(out@ =~= old(out)@ + Seq::<char>::empty());
        },
    }
}

/// Appends the measured packet rate after a stream title.
fn push_pps_part(out: &mut String, pps: Option<u64>)
    ensures
        final(out)@ == old(out)@ + pps_part(pps),
{
    match pps {
        Some(p) => {
            out.append(" ");
            push_decimal(out, p);
            out.append("pps");
            assert(out@ =~= old(out)@ + pps_part(pps));
        },
        None => {
            assert(out@ =~= old(out)@ + Seq::<char>::empty());
        },
    }
}

/// Renders a stream's title line.
pub fn stream_title(
    id: u8,
    stream_type: &str,
    direction: &str,
    dscp_name: Option<&str>,
    ecn_mode: Option<&str>,
    config: Option<&StreamConfigReport>,
    pps: Option<u64>,
) -> (r: String)
    ensures
        r@ == stream_title_text(
            id,
            stream_type@,
            direction@,
            opt_view(dscp_name),
            opt_view(ecn_mode),
            match config {
                Some(c) => Some(*c),
                None => None,
            },
            pps,
        ),
{
    let mut out = String::from_str("  Stream ");
    push_decimal(&mut out, id as u64);
    out.append(" [");
    out.append(stream_type);
    out.append(" ");
    push_arrow(&mut out, direction);
    let ghost a = out@;
    push_labelled(&mut out, " DSCP=", dscp_name);
    assert(out@ =~= a + dscp_part(opt_view(dscp_name)));
    let ghost b = out@;
    push_labelled(&mut out, " ECN=", ecn_mode);
    assert(out@ =~= b + ecn_part(opt_view(ecn_mode)));
    push_config_part(&mut out, config);
    out.append("]");
    push_pps_part(&mut out, pps);
    out.append("\n");
    assert(out@ =~= stream_title_text(
        id,
        stream_type@,
        direction@,
        opt_view(dscp_name),
        opt_view(ecn_mode),
        match config {
            Some(c) => Some(*c),
            None => None,
        },
        pps,
    ));
    out
}

} // verus!
