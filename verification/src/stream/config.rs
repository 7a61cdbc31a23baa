//! Per-stream overrides of packet size, rate, pattern and DSCP: parsing of
//! the "ID=VALUE" arguments and resolution of a stream's effective settings.

use vstd::prelude::*;

use crate::dscp::{res_view, stream_id_text};
use crate::protocol::{pattern_named, TrafficPattern};
use crate::report::StreamConfigReport;
use crate::strutil::{
    all_ascii, ascii_lower, dec_str, parse_decimal, parse_unsigned, push_decimal, split_once_char,
    split_once_spec, str_eq, to_lowercase, unicode_lower,
};
use crate::traffic::packet::HEADER_SIZE;

verus! {

/// The error text for an argument without `=`; `kind` names the option
/// and `expected` the value syntax.
pub open spec fn format_text(kind: Seq<char>, s: Seq<char>, expected: Seq<char>) -> Seq<char> {
    "invalid "@ + kind + " format: '"@ + s + "' (expected ID="@ + expected + ")"@
}

/// The error text for a value that is not a `u32`; `what` names it.
pub open spec fn value_text(what: Seq<char>, v: Seq<char>) -> Seq<char> {
    "invalid "@ + what + " value: '"@ + v + "'"@
}

/// The error text for a packet size below the header size.
pub open spec fn size_minimum_text(size: nat) -> Seq<char> {
    "stream size "@ + dec_str(size) + " is below minimum (32 bytes)"@
}

/// What a per-stream size argument "ID=BYTES" denotes.
pub open spec fn stream_size_spec(s: Seq<char>) -> Result<(u8, u32), Seq<char>> {
    match split_once_spec(s, '=') {
        None => Err(format_text("stream-size"@, s, "BYTES"@)),
        Some((id_text, val_text)) => match parse_unsigned(id_text, 255) {
            None => Err(stream_id_text(id_text)),
            Some(id) => match parse_unsigned(val_text, u32::MAX as nat) {
                None => Err(value_text("size"@, val_text)),
                Some(size) => if size < HEADER_SIZE {
                    Err(size_minimum_text(size))
                } else {
                    Ok((id as u8, size as u32))
                },
            },
        },
    }
}

/// What a per-stream rate argument "ID=PPS" denotes (0 means unlimited).
pub open spec fn stream_rate_spec(s: Seq<char>) -> Result<(u8, u32), Seq<char>> {
    match split_once_spec(s, '=') {
        None => Err(format_text("stream-rate"@, s, "PPS"@)),
        Some((id_text, val_text)) => match parse_unsigned(id_text, 255) {
            None => Err(stream_id_text(id_text)),
            Some(id) => match parse_unsigned(val_text, u32::MAX as nat) {
                None => Err(value_text("rate"@, val_text)),
                Some(rate) => Ok((id as u8, rate as u32)),
            },
        },
    }
}

/// The error text for an unknown traffic pattern.
pub open spec fn pattern_text(v: Seq<char>) -> Seq<char> {
    "invalid traffic pattern: '"@ + v + "'. Must be: fixed, imix, sweep"@
}

/// The pattern named by `v`, given its lower-cased form `lower`.
pub open spec fn pattern_spec(v: Seq<char>, lower: Seq<char>) -> Result<TrafficPattern, Seq<char>> {
    if lower == "fixed"@ {
        Ok(TrafficPattern::Fixed)
    } else if lower == "imix"@ {
        Ok(TrafficPattern::Imix)
    } else if lower == "sweep"@ {
        Ok(TrafficPattern::Sweep)
    } else {
        Err(pattern_text(v))
    }
}

/// Patterns are read in any case: two texts that differ only in the case
/// of ASCII letters name the same pattern whenever one names a pattern.
pub proof fn lemma_pattern_case_insensitive(v: Seq<char>, w: Seq<char>)
    requires
        ascii_lower(v) == ascii_lower(w),
        pattern_spec(v, ascii_lower(v)) is Ok,
    ensures
        pattern_spec(w, ascii_lower(w)) == pattern_spec(v, ascii_lower(v)),
{
}

/// What a per-stream pattern argument "ID=PATTERN" denotes.
pub open spec fn stream_pattern_spec(s: Seq<char>) -> Result<(u8, TrafficPattern), Seq<char>> {
    match split_once_spec(s, '=') {
        None => Err(format_text("stream-pattern"@, s, "PATTERN"@)),
        Some((id_text, val_text)) => match parse_unsigned(id_text, 255) {
            None => Err(stream_id_text(id_text)),
            Some(id) => match pattern_spec(val_text, unicode_lower(val_text)) {
                Ok(p) => Ok((id as u8, p)),
                Err(e) => Err(e),
            },
        },
    }
}

/// Builds the error text for an argument without `=`.
fn format_error(kind: &str, s: &str, expected: &str) -> (r: String)
    ensures
        r@ == format_text(kind@, s@, expected@),
{
    let mut msg = String::from_str("invalid ");
    msg.append(kind);
    msg.append(" format: '");
    msg.append(s);
    msg.append("' (expected ID=");
    msg.append(expected);
    msg.append(")");
    assert(msg@ =~= format_text(kind@, s@, expected@));
    msg
}

/// Builds the error text for an unparsable value.
fn value_error(what: &str, v: &str) -> (r: String)
    ensures
        r@ == value_text(what@, v@),
{
    let mut msg = String::from_str("invalid ");
    msg.append(what);
    msg.append(" value: '");
    msg.append(v);
    msg.append("'");
    assert(msg@ =~= value_text(what@, v@));
    msg
}

/// Parses the stream ID before the `=`.
fn parse_stream_id(id_str: &str) -> (r: Result<u8, String>)
    ensures
        match parse_unsigned(id_str@, 255) {
            Some(v) => r == Ok::<u8, String>(v as u8),
            None => r matches Err(e) && e@ == stream_id_text(id_str@),
        },
{
    match parse_decimal(id_str, 255) {
        Some(v) => Ok(v as u8),
        None => {
            let mut msg = String::from_str("invalid stream ID: '");
            msg.append(id_str);
            msg.append("'");
            Err(msg)
        },
    }
}

/// Parses an "ID=BYTES" per-stream packet size override. The size must be
/// at least `HEADER_SIZE` (32 bytes).
pub fn parse_stream_size(s: &str) -> (r: Result<(u8, u32), String>)
    ensures
        res_view(r) == stream_size_spec(s@),
{
    let (id_str, val_str) = match split_once_char(s, '=') {
        Some(p) => p,
        None => return Err(format_error("stream-size", s, "BYTES")),
    };
    let id = match parse_stream_id(id_str) {
        Ok(id) => id,
        Err(e) => return Err(e),
    };
    let size = match parse_decimal(val_str, 0xFFFF_FFFF) {
        Some(v) => v,
        None => return Err(value_error("size", val_str)),
    };
    if (size as usize) < HEADER_SIZE {
        let mut msg = String::from_str("stream size ");
        push_decimal(&mut msg, size);
        msg.append(" is below minimum (32 bytes)");
        return Err(msg);
    }
    Ok((id, size as u32))
}

/// Parses an "ID=PPS" per-stream rate override; 0 means unlimited.
pub fn parse_stream_rate(s: &str) -> (r: Result<(u8, u32), String>)
    ensures
        res_view(r) == stream_rate_spec(s@),
{
    let (id_str, val_str) = match split_once_char(s, '=') {
        Some(p) => p,
        None => return Err(format_error("stream-rate", s, "PPS")),
    };
    let id = match parse_stream_id(id_str) {
        Ok(id) => id,
        Err(e) => return Err(e),
    };
    let rate = match parse_decimal(val_str, 0xFFFF_FFFF) {
        Some(v) => v,
        None => return Err(value_error("rate", val_str)),
    };
    Ok((id, rate as u32))
}

/// Picks the pattern named by `v`, given `lower`, the lower-cased `v`.
pub fn pattern_from_lower(v: &str, lower: &str) -> (r: Result<TrafficPattern, String>)
    ensures
        res_view(r) == pattern_spec(v@, lower@),
{
    if str_eq(lower, "fixed") {
        Ok(TrafficPattern::Fixed)
    } else if str_eq(lower, "imix") {
        Ok(TrafficPattern::Imix)
    } else if str_eq(lower, "sweep") {
        Ok(TrafficPattern::Sweep)
    } else {
        let mut msg = String::from_str("invalid traffic pattern: '");
        msg.append(v);
        msg.append("'. Must be: fixed, imix, sweep");
        Err(msg)
    }
}

/// Parses an "ID=PATTERN" per-stream traffic pattern override (fixed, imix
/// or sweep, in any case).
pub fn parse_stream_pattern(s: &str) -> (r: Result<(u8, TrafficPattern), String>)
    ensures
        res_view(r) == stream_pattern_spec(s@),
{
    let (id_str, val_str) = match split_once_char(s, '=') {
        Some(p) => p,
        None => return Err(format_error("stream-pattern", s, "PATTERN")),
    };
    let id = match parse_stream_id(id_str) {
        Ok(id) => id,
        Err(e) => return Err(e),
    };
    let lower = to_lowercase(val_str);
    match pattern_from_lower(val_str, lower.as_str()) {
        Ok(p) => Ok((id, p)),
        Err(e) => Err(e),
    }
}

/// The lower-case name of a traffic pattern, as reports show it.
pub open spec fn pattern_label(p: TrafficPattern) -> Seq<char> {
    match p {
        TrafficPattern::Fixed => "fixed"@,
        TrafficPattern::Imix => "imix"@,
        TrafficPattern::Sweep => "sweep"@,
    }
}

/// The lower-case name of a traffic pattern.
pub fn pattern_name(p: TrafficPattern) -> (r: &'static str)
    ensures
        r@ == pattern_label(p),
{
    match p {
        TrafficPattern::Fixed => "fixed",
        TrafficPattern::Imix => "imix",
        TrafficPattern::Sweep => "sweep",
    }
}

/// A pattern's name parses back to the pattern.
pub proof fn lemma_pattern_name_parses(p: TrafficPattern)
    ensures
        pattern_named(pattern_label(p)) == Some(p),
{
    reveal_strlit("fixed");
    reveal_strlit("imix");
    reveal_strlit("sweep");
    assert("fixed"@.len() == 5);
    assert("imix"@.len() == 4);
    assert("sweep"@.len() == 5);
    assert("fixed"@[0] != "sweep"@[0]);
}

/// Per-stream overrides for size, rate, pattern and DSCP, in the order
/// they were given.
#[derive(Debug)]
pub struct StreamOverrides {
    pub sizes: Vec<(u8, u32)>,
    pub rates: Vec<(u8, u32)>,
    pub patterns: Vec<(u8, TrafficPattern)>,
    pub dscps: Vec<(u8, u8)>,
}

impl Default for StreamOverrides {
    fn default() -> (r: Self)
        ensures
            r.sizes@.len() == 0,
            r.rates@.len() == 0,
            r.patterns@.len() == 0,
            r.dscps@.len() == 0,
    {
        StreamOverrides { sizes: Vec::new(), rates: Vec::new(), patterns: Vec::new(), dscps: Vec::new() }
    }
}

/// Effective configuration of one stream.
#[derive(Debug, Clone, Copy, PartialEq, Eq, Structural)]
pub struct ResolvedStreamConfig {
    pub size: u32,
    pub rate_pps: u32,
    pub pattern: TrafficPattern,
    pub dscp: Option<u8>,
}

/// The value of the last entry for `id`, if any.
pub open spec fn last_match<T>(s: Seq<(u8, T)>, id: u8) -> Option<T>
    decreases s.len(),
{
    if s.len() == 0 {
        None
    } else if s.last().0 == id {
        Some(s.last().1)
    } else {
        last_match(s.drop_last(), id)
    }
}

/// Some entry is for `id`.
pub open spec fn has_entry<T>(s: Seq<(u8, T)>, id: u8) -> bool {
    exists|i: int| 0 <= i < s.len() && (#[trigger] s[i]).0 == id
}

/// The value of the last entry for `id`, or `default` when there is none.
pub open spec fn last_or<T>(s: Seq<(u8, T)>, id: u8, default: T) -> T {
    match last_match(s, id) {
        Some(v) => v,
        None => default,
    }
}

/// A stream's settings: for each field the last override given for it,
/// else the global value.
pub open spec fn resolve_spec(
    o: StreamOverrides,
    stream_id: u8,
    global_size: u32,
    global_rate: u32,
    global_pattern: TrafficPattern,
    global_dscp: Option<u8>,
) -> ResolvedStreamConfig {
    ResolvedStreamConfig {
        size: last_or(o.sizes@, stream_id, global_size),
        rate_pps: last_or(o.rates@, stream_id, global_rate),
        pattern: last_or(o.patterns@, stream_id, global_pattern),
        dscp: match last_match(o.dscps@, stream_id) {
            Some(d) => Some(d),
            None => global_dscp,
        },
    }
}

/// Some override (size, rate, pattern or DSCP) exists for `id`.
pub open spec fn has_overrides_spec(o: StreamOverrides, stream_id: u8) -> bool {
    has_entry(o.sizes@, stream_id) || has_entry(o.rates@, stream_id) || has_entry(
        o.patterns@,
        stream_id,
    ) || has_entry(o.dscps@, stream_id)
}

/// A last entry for `id` exists exactly when some entry for `id` exists.
pub proof fn lemma_last_match_exists<T>(s: Seq<(u8, T)>, id: u8)
    ensures
        last_match(s, id) is Some <==> has_entry(s, id),
        last_match(s, id) matches Some(v) ==> exists|i: int|
            0 <= i < s.len() && s[i] == (id, v) && forall|j: int|
                i < j < s.len() ==> (#[trigger] s[j]).0 != id,
    decreases s.len(),
{
    if s.len() > 0 {
        let t = s.drop_last();
        lemma_last_match_exists(t, id);
        if s.last().0 == id {
            assert(s[s.len() - 1] == s.last());
        } else {
            if has_entry(t, id) {
                let i = choose|i: int| 0 <= i < t.len() && (#[trigger] t[i]).0 == id;
                assert(s[i] == t[i]);
            }
            if has_entry(s, id) {
                let i = choose|i: int| 0 <= i < s.len() && (#[trigger] s[i]).0 == id;
                assert(i < s.len() - 1);
                assert(t[i] == s[i]);
            }
            if last_match(t, id) is Some {
                let v = last_match(t, id)->0;
                let i = choose|i: int|
                    0 <= i < t.len() && t[i] == (id, v) && forall|j: int|
                        i < j < t.len() ==> (#[trigger] t[j]).0 != id;
                assert(s[i] == t[i]);
                assert forall|j: int| i < j < s.len() implies (#[trigger] s[j]).0 != id by {
                    if j < s.len() - 1 {
                        assert(s[j] == t[j]);
                    }
                }
            }
        }
    }
}

/// A stream without overrides runs with the global size, rate, pattern
/// and DSCP.
pub proof fn lemma_no_overrides_resolves_to_globals(
    o: StreamOverrides,
    stream_id: u8,
    global_size: u32,
    global_rate: u32,
    global_pattern: TrafficPattern,
    global_dscp: Option<u8>,
)
    requires
        !has_overrides_spec(o, stream_id),
    ensures
        ({
            let r = resolve_spec(o, stream_id, global_size, global_rate, global_pattern, global_dscp);
            &&& r.size == global_size
            &&& r.rate_pps == global_rate
            &&& r.pattern == global_pattern
            &&& r.dscp == global_dscp
        }),
{
    lemma_last_match_exists(o.sizes@, stream_id);
    lemma_last_match_exists(o.rates@, stream_id);
    lemma_last_match_exists(o.patterns@, stream_id);
    lemma_last_match_exists(o.dscps@, stream_id);
}

/// The value of the last entry for `id` in `v`.
fn find_last<T: Copy>(v: &Vec<(u8, T)>, id: u8) -> (r: Option<T>)
    ensures
        r == last_match(v@, id),
{
    let mut i = v.len();
    assert(v@.subrange(0, i as int) =~= v@);
    while i > 0
        invariant
            i <= v@.len(),
            last_match(v@, id) == last_match(v@.subrange(0, i as int), id),
        decreases i,
    {
        let e = v[i - 1];
        let ghost pre = v@.subrange(0, i as int);
        assert(pre.last() == e);
        if e.0 == id {
            return Some(e.1);
        }
        assert(pre.drop_last() =~= v@.subrange(0, i - 1));
        i = i - 1;
    }
    proof {
        assert(v@.subrange(0, 0) =~= Seq::<(u8, T)>::empty());
    }
    None
}

/// Whether some entry of `v` is for `id`.
fn any_entry<T>(v: &Vec<(u8, T)>, id: u8) -> (r: bool)
    ensures
        r == has_entry(v@, id),
{
    let mut i: usize = 0;
    while i < v.len()
        invariant
            i <= v@.len(),
            forall|j: int| 0 <= j < i ==> (#[trigger] v@[j]).0 != id,
        decreases v@.len() - i,
    {
        if v[i].0 == id {
            assert(v@[i as int].0 == id);
            return true;
        }
        i = i + 1;
    }
    false
}

impl StreamOverrides {
    /// The effective configuration of a stream: for each field the last
    /// override given for the stream wins, else the global value applies.
    pub fn resolve(
        &self,
        stream_id: u8,
        global_size: u32,
        global_rate: u32,
        global_pattern: TrafficPattern,
        global_dscp: Option<u8>,
    ) -> (r: ResolvedStreamConfig)
        ensures
            r == resolve_spec(*self, stream_id, global_size, global_rate, global_pattern, global_dscp),
    {
        let size = match find_last(&self.sizes, stream_id) {
            Some(v) => v,
            None => global_size,
        };
        let rate_pps = match find_last(&self.rates, stream_id) {
            Some(v) => v,
            None => global_rate,
        };
        let pattern = match find_last(&self.patterns, stream_id) {
            Some(v) => v,
            None => global_pattern,
        };
        let dscp = match find_last(&self.dscps, stream_id) {
            Some(v) => Some(v),
            None => global_dscp,
        };
        ResolvedStreamConfig { size, rate_pps, pattern, dscp }
    }

    /// The configuration a report shows for a stream: its effective size,
    /// rate and pattern name when the stream has any override; `None` when
    /// it runs on the global settings.
    pub fn config_report(
        &self,
        stream_id: u8,
        global_size: u32,
        global_rate: u32,
        global_pattern: TrafficPattern,
    ) -> (r: Option<StreamConfigReport>)
        ensures
            has_overrides_spec(*self, stream_id) ==> (r matches Some(c) && {
                let res = resolve_spec(*self, stream_id, global_size, global_rate, global_pattern, None);
                &&& c.size == res.size
                &&& c.rate_pps == res.rate_pps
                &&& c.pattern@ == pattern_label(res.pattern)
            }),
            !has_overrides_spec(*self, stream_id) ==> r is None,
    {
        if !self.has_overrides(stream_id) {
            return None;
        }
        let res = self.resolve(stream_id, global_size, global_rate, global_pattern, None);
        Some(
            StreamConfigReport {
                size: res.size,
                rate_pps: res.rate_pps,
                pattern: String::from_str(pattern_name(res.pattern)),
            },
        )
    }

    /// Whether any override (size, rate, pattern or DSCP) exists for the
    /// stream.
    pub fn has_overrides(&self, stream_id: u8) -> (r: bool)
        ensures
            r == has_overrides_spec(*self, stream_id),
    {
        any_entry(&self.sizes, stream_id) || any_entry(&self.rates, stream_id) || any_entry(
            &self.patterns,
            stream_id,
        ) || any_entry(&self.dscps, stream_id)
    }
}

} // verus!
