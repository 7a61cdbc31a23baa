//! DSCP and ECN: parsing the command-line names, building the IPv4 TOS
//! byte, reading the ECN codepoint back from a received TOS byte, and
//! counting observed codepoints. Setting socket options is left to the
//! binary; `plan_socket_tos` decides what to set.

use vstd::prelude::*;

use crate::strutil::{
    all_ascii, all_digits, ascii_lower, ascii_upper, dec_str, decimal_string, digit_char, is_digit,
    parse_decimal, parse_unsigned, push_decimal, split_once_char, split_once_spec, str_eq,
    to_lowercase, to_uppercase, unicode_lower, unicode_upper, unsigned_body,
};

verus! {

broadcast use vstd::string::group_string_axioms;

// --- ECN ---
/// ECN mode for outgoing packets.
#[derive(Debug, Clone, Copy, PartialEq, Eq, Structural)]
pub enum EcnMode {
    Off,
    Ect0,
    Ect1,
}

impl EcnMode {
    /// The mode's display name; `None` when ECN is off.
    pub fn name(&self) -> (r: Option<&'static str>)
        ensures
            match *self {
                EcnMode::Off => r is None,
                EcnMode::Ect0 => r matches Some(n) && n@ == "ECT0"@,
                EcnMode::Ect1 => r matches Some(n) && n@ == "ECT1"@,
            },
    {
        match self {
            EcnMode::Off => None,
            EcnMode::Ect0 => Some("ECT0"),
            EcnMode::Ect1 => Some("ECT1"),
        }
    }
}

/// A `Result` with its error text taken by view.
pub open spec fn res_view<T>(r: Result<T, String>) -> Result<T, Seq<char>> {
    match r {
        Ok(v) => Ok(v),
        Err(e) => Err(e@),
    }
}

/// The error text for an ECN mode that is not recognized.
pub open spec fn ecn_error_text(s: Seq<char>) -> Seq<char> {
    "invalid ECN mode: '"@ + s + "'. Must be: ect0, ect1"@
}

/// The ECN mode named by `s`, given its lower-cased form `lower`.
pub open spec fn ecn_mode_spec(s: Seq<char>, lower: Seq<char>) -> Result<EcnMode, Seq<char>> {
    if lower == "ect0"@ {
        Ok(EcnMode::Ect0)
    } else if lower == "ect1"@ {
        Ok(EcnMode::Ect1)
    } else {
        Err(ecn_error_text(s))
    }
}

/// Picks the ECN mode named by `s`, given `lower`, the lower-cased `s`.
pub fn ecn_mode_from_lower(s: &str, lower: &str) -> (r: Result<EcnMode, String>)
    ensures
        res_view(r) == ecn_mode_spec(s@, lower@),
{
    if str_eq(lower, "ect0") {
        Ok(EcnMode::Ect0)
    } else if str_eq(lower, "ect1") {
        Ok(EcnMode::Ect1)
    } else {
        let mut msg = String::from_str("invalid ECN mode: '");
        msg.append(s);
        msg.append("'. Must be: ect0, ect1");
        Err(msg)
    }
}

/// Parses an ECN mode ("ect0" or "ect1", any case).
pub fn parse_ecn_mode(s: &str) -> (r: Result<EcnMode, String>)
    ensures
        res_view(r) == ecn_mode_spec(s@, unicode_lower(s@)),
        all_ascii(s@) ==> res_view(r) == ecn_mode_spec(s@, ascii_lower(s@)),
{
    let lower = to_lowercase(s);
    ecn_mode_from_lower(s, lower.as_str())
}

/// Modes are read in any case: two texts that differ only in the case of
/// ASCII letters name the same mode whenever one names a mode.
pub proof fn lemma_ecn_case_insensitive(s: Seq<char>, t: Seq<char>)
    requires
        ascii_lower(s) == ascii_lower(t),
        ecn_mode_spec(s, ascii_lower(s)) is Ok,
    ensures
        ecn_mode_spec(t, ascii_lower(t)) == ecn_mode_spec(s, ascii_lower(s)),
{
}

/// ECN codepoint observed on a received packet.
#[derive(Debug, Clone, Copy, PartialEq, Eq, Structural)]
pub enum EcnCodepoint {
    NotEct,
    Ect1,
    Ect0,
    Ce,
}

/// The codepoint carried by the two low bits of a TOS byte.
pub open spec fn codepoint_of_tos(tos: u8) -> EcnCodepoint {
    let bits = tos & 3u8;
    if bits == 0 {
        EcnCodepoint::NotEct
    } else if bits == 1 {
        EcnCodepoint::Ect1
    } else if bits == 2 {
        EcnCodepoint::Ect0
    } else {
        EcnCodepoint::Ce
    }
}

impl EcnCodepoint {
    /// Extracts the ECN codepoint from a TOS byte.
    pub fn from_tos(tos: u8) -> (r: Self)
        ensures
            r == codepoint_of_tos(tos),
    {
        let bits = tos & 0x03;
        if bits == 0 {
            EcnCodepoint::NotEct
        } else if bits == 1 {
            EcnCodepoint::Ect1
        } else if bits == 2 {
            EcnCodepoint::Ect0
        } else {
            EcnCodepoint::Ce
        }
    }
}

/// Counts of ECN codepoints on received packets.
#[derive(Debug, Clone)]
pub struct EcnCounters {
    pub not_ect: u64,
    pub ect0: u64,
    pub ect1: u64,
    pub ce: u64,
    pub unknown: u64,
}

impl Default for EcnCounters {
    fn default() -> (r: Self)
        ensures
            r.not_ect == 0 && r.ect0 == 0 && r.ect1 == 0 && r.ce == 0 && r.unknown == 0,
    {
        EcnCounters { not_ect: 0, ect0: 0, ect1: 0, ce: 0, unknown: 0 }
    }
}

/// The counter that `record` increments for a codepoint.
pub open spec fn counter_of(c: EcnCounters, cp: EcnCodepoint) -> u64 {
    match cp {
        EcnCodepoint::NotEct => c.not_ect,
        EcnCodepoint::Ect0 => c.ect0,
        EcnCodepoint::Ect1 => c.ect1,
        EcnCodepoint::Ce => c.ce,
    }
}

/// Packets with a known ECN state.
pub open spec fn observed_total(c: EcnCounters) -> int {
    c.not_ect + c.ect0 + c.ect1 + c.ce
}

impl EcnCounters {
    /// Counts one packet with the given codepoint.
    pub fn record(&mut self, codepoint: EcnCodepoint)
        requires
            counter_of(*old(self), codepoint) < u64::MAX,
        ensures
            counter_of(*final(self), codepoint) == counter_of(*old(self), codepoint) + 1,
            forall|other: EcnCodepoint|
                other != codepoint ==> #[trigger] counter_of(*final(self), other) == counter_of(
                    *old(self),
                    other,
                ),
            final(self).unknown == old(self).unknown,
    {
        match codepoint {
            EcnCodepoint::NotEct => self.not_ect = self.not_ect + 1,
            EcnCodepoint::Ect0 => self.ect0 = self.ect0 + 1,
            EcnCodepoint::Ect1 => self.ect1 = self.ect1 + 1,
            EcnCodepoint::Ce => self.ce = self.ce + 1,
        }
    }

    /// Counts one packet whose TOS byte could not be read.
    pub fn record_unknown(&mut self)
        requires
            old(self).unknown < u64::MAX,
        ensures
            final(self).unknown == old(self).unknown + 1,
            final(self).not_ect == old(self).not_ect,
            final(self).ect0 == old(self).ect0,
            final(self).ect1 == old(self).ect1,
            final(self).ce == old(self).ce,
    {
        self.unknown = self.unknown + 1;
    }

    /// Total packets with known ECN state (unknowns excluded).
    pub fn total_observed(&self) -> (r: u64)
        requires
            observed_total(*self) <= u64::MAX,
        ensures
            r == observed_total(*self),
    {
        self.not_ect + self.ect0 + self.ect1 + self.ce
    }
}

// --- DSCP ---
/// The DSCP value of a standard per-hop-behaviour name (upper case).
pub open spec fn dscp_by_name(u: Seq<char>) -> Option<u8> {
    if u == "BE"@ || u == "CS0"@ {
        Some(0)
    } else if u == "CS1"@ {
        Some(8)
    } else if u == "CS2"@ {
        Some(16)
    } else if u == "CS3"@ {
        Some(24)
    } else if u == "CS4"@ {
        Some(32)
    } else if u == "CS5"@ {
        Some(40)
    } else if u == "CS6"@ {
        Some(48)
    } else if u == "CS7"@ {
        Some(56)
    } else if u == "AF11"@ {
        Some(10)
    } else if u == "AF12"@ {
        Some(12)
    } else if u == "AF13"@ {
        Some(14)
    } else if u == "AF21"@ {
        Some(18)
    } else if u == "AF22"@ {
        Some(20)
    } else if u == "AF23"@ {
        Some(22)
    } else if u == "AF31"@ {
        Some(26)
    } else if u == "AF32"@ {
        Some(28)
    } else if u == "AF33"@ {
        Some(30)
    } else if u == "AF41"@ {
        Some(34)
    } else if u == "AF42"@ {
        Some(36)
    } else if u == "AF43"@ {
        Some(38)
    } else if u == "EF"@ {
        Some(46)
    } else {
        None
    }
}

/// The error text for text that is neither a name nor a number.
pub open spec fn unknown_dscp_text(s: Seq<char>) -> Seq<char> {
    "unknown DSCP codepoint: '"@ + s + "'"@
}

/// The error text for a number above 63.
pub open spec fn dscp_range_text(v: nat) -> Seq<char> {
    "DSCP value "@ + dec_str(v) + " out of range (must be 0-63)"@
}

/// The DSCP value that `s` denotes, given its upper-cased form `upper`: a
/// standard name, else a decimal number from 0 to 63.
pub open spec fn dscp_spec(s: Seq<char>, upper: Seq<char>) -> Result<u8, Seq<char>> {
    match dscp_by_name(upper) {
        Some(v) => Ok(v),
        None => match parse_unsigned(s, 255) {
            None => Err(unknown_dscp_text(s)),
            Some(v) => if v > 63 {
                Err(dscp_range_text(v))
            } else {
                Ok(v as u8)
            },
        },
    }
}

/// Resolves `s` to a DSCP value, given `upper`, the upper-cased `s`.
pub fn dscp_from_upper(s: &str, upper: &str) -> (r: Result<u8, String>)
    ensures
        res_view(r) == dscp_spec(s@, upper@),
{
    let u = upper;
    if str_eq(u, "BE") || str_eq(u, "CS0") {
        return Ok(0);
    } else if str_eq(u, "CS1") {
        return Ok(8);
    } else if str_eq(u, "CS2") {
        return Ok(16);
    } else if str_eq(u, "CS3") {
        return Ok(24);
    } else if str_eq(u, "CS4") {
        return Ok(32);
    } else if str_eq(u, "CS5") {
        return Ok(40);
    } else if str_eq(u, "CS6") {
        return Ok(48);
    } else if str_eq(u, "CS7") {
        return Ok(56);
    } else if str_eq(u, "AF11") {
        return Ok(10);
    } else if str_eq(u, "AF12") {
        return Ok(12);
    } else if str_eq(u, "AF13") {
        return Ok(14);
    } else if str_eq(u, "AF21") {
        return Ok(18);
    } else if str_eq(u, "AF22") {
        return Ok(20);
    } else if str_eq(u, "AF23") {
        return Ok(22);
    } else if str_eq(u, "AF31") {
        return Ok(26);
    } else if str_eq(u, "AF32") {
        return Ok(28);
    } else if str_eq(u, "AF33") {
        return Ok(30);
    } else if str_eq(u, "AF41") {
        return Ok(34);
    } else if str_eq(u, "AF42") {
        return Ok(36);
    } else if str_eq(u, "AF43") {
        return Ok(38);
    } else if str_eq(u, "EF") {
        return Ok(46);
    }
    match parse_decimal(s, 255) {
        None => {
            let mut msg = String::from_str("unknown DSCP codepoint: '");
            msg.append(s);
            msg.append("'");
            Err(msg)
        },
        Some(v) => {
            if v > 63 {
                let mut msg = String::from_str("DSCP value ");
                push_decimal(&mut msg, v);
                msg.append(" out of range (must be 0-63)");
                Err(msg)
            } else {
                Ok(v as u8)
            }
        },
    }
}

/// Names are read in any case: two texts that differ only in the case of
/// ASCII letters denote the same DSCP value whenever one denotes a value
/// (a number is written the same either way).
pub proof fn lemma_dscp_case_insensitive(s: Seq<char>, t: Seq<char>)
    requires
        ascii_upper(s) == ascii_upper(t),
        dscp_spec(s, ascii_upper(s)) is Ok,
    ensures
        dscp_spec(t, ascii_upper(t)) == dscp_spec(s, ascii_upper(s)),
{
    if dscp_by_name(ascii_upper(s)) is None {
        let d = unsigned_body(s);
        assert(d.len() > 0 && all_digits(d));
        assert forall|i: int| 0 <= i < s.len() implies (s[i] == '+' || is_digit(s[i])) by {
            if s.len() > 0 && s[0] == '+' {
                if i > 0 {
                    assert(d[i - 1] == s[i]);
                    assert(is_digit(d[i - 1]));
                }
            } else {
                assert(d[i] == s[i]);
                assert(is_digit(d[i]));
            }
        }
        assert(s.len() == t.len()) by {
            assert(ascii_upper(s).len() == s.len());
            assert(ascii_upper(t).len() == t.len());
        }
        assert forall|i: int| 0 <= i < s.len() implies t[i] == s[i] by {
            assert(s[i] == '+' || is_digit(s[i]));
            assert(ascii_upper(s)[i] == s[i]);
            assert(ascii_upper(t)[i] == ascii_upper(s)[i]);
            assert(ascii_upper(t)[i] == (if 'a' <= t[i] && t[i] <= 'z' {
                ((t[i] as int) - 32) as char
            } else {
                t[i]
            }));
        }
        assert(t =~= s);
    }
}

/// Parses a DSCP codepoint: a standard PHB name in any case (BE, CS0-CS7,
/// AF11-AF43, EF) or a number from 0 to 63.
pub fn parse_dscp(s: &str) -> (r: Result<u8, String>)
    ensures
        res_view(r) == dscp_spec(s@, unicode_upper(s@)),
        all_ascii(s@) ==> res_view(r) == dscp_spec(s@, ascii_upper(s@)),
{
    let upper = to_uppercase(s);
    dscp_from_upper(s, upper.as_str())
}

/// The two ECN bits a mode sets in the TOS byte.
pub open spec fn ecn_bits(ecn: EcnMode) -> u8 {
    match ecn {
        EcnMode::Off => 0,
        EcnMode::Ect0 => 2,
        EcnMode::Ect1 => 1,
    }
}

/// The TOS byte for a DSCP value (none means 0) and an ECN mode: the DSCP
/// in the upper six bits, the ECN bits in the lower two.
pub open spec fn tos_of(dscp: Option<u8>, ecn: EcnMode) -> u8 {
    let d: u8 = match dscp {
        Some(v) => v,
        None => 0,
    };
    ((d << 2u8) | ecn_bits(ecn)) as u8
}

/// Builds a TOS byte from DSCP and ECN mode.
pub fn build_tos(dscp: Option<u8>, ecn: EcnMode) -> (r: u8)
    ensures
        r == tos_of(dscp, ecn),
{
    let d: u8 = match dscp {
        Some(v) => v,
        None => 0,
    };
    let dscp_bits = d << 2u8;
    let ecn_bits: u8 = match ecn {
        EcnMode::Off => 0,
        EcnMode::Ect0 => 0b10,
        EcnMode::Ect1 => 0b01,
    };
    dscp_bits | ecn_bits
}

/// The TOS byte outgoing packets are marked with; none when it would be
/// the default 0.
pub open spec fn marking_of(dscp: Option<u8>, ecn: EcnMode) -> Option<u8> {
    if tos_of(dscp, ecn) == 0 {
        None
    } else {
        Some(tos_of(dscp, ecn))
    }
}

/// The TOS byte to mark a stream's packets with, if any.
pub fn tos_marking(dscp: Option<u8>, ecn: EcnMode) -> (r: Option<u8>)
    ensures
        r == marking_of(dscp, ecn),
{
    let tos = build_tos(dscp, ecn);
    if tos != 0 {
        Some(tos)
    } else {
        None
    }
}

/// The codepoint a receiver reads back for packets sent with a mode.
pub open spec fn codepoint_of_mode(ecn: EcnMode) -> EcnCodepoint {
    match ecn {
        EcnMode::Off => EcnCodepoint::NotEct,
        EcnMode::Ect0 => EcnCodepoint::Ect0,
        EcnMode::Ect1 => EcnCodepoint::Ect1,
    }
}

/// A TOS byte built from a DSCP value and an ECN mode carries both: the
/// receiver reads the mode's codepoint back, and the upper six bits are the
/// DSCP value (when it fits in six bits).
pub proof fn lemma_tos_round_trip(dscp: Option<u8>, ecn: EcnMode)
    ensures
        codepoint_of_tos(tos_of(dscp, ecn)) == codepoint_of_mode(ecn),
        (dscp matches Some(d) && d < 64) ==> tos_of(dscp, ecn) >> 2u8 == dscp->0,
        dscp is None ==> tos_of(dscp, ecn) >> 2u8 == 0,
{
    let d: u8 = match dscp {
        Some(v) => v,
        None => 0,
    };
    let e = ecn_bits(ecn);
    assert(e < 4);
    let t = tos_of(dscp, ecn);
    assert(t == ((d << 2u8) | e) as u8);
    assert((((d << 2u8) | e) as u8) & 3u8 == e) by (bit_vector)
        requires
            e < 4,
    ;
    assert(d < 64 ==> (((d << 2u8) | e) as u8) >> 2u8 == d) by (bit_vector)
        requires
            e < 4,
    ;
}

/// The display name of a DSCP value: its standard name, or the number.
pub open spec fn dscp_name_spec(dscp: u8) -> Seq<char> {
    if dscp == 0 {
        "BE"@
    } else if dscp == 8 {
        "CS1"@
    } else if dscp == 16 {
        "CS2"@
    } else if dscp == 24 {
        "CS3"@
    } else if dscp == 32 {
        "CS4"@
    } else if dscp == 40 {
        "CS5"@
    } else if dscp == 48 {
        "CS6"@
    } else if dscp == 56 {
        "CS7"@
    } else if dscp == 10 {
        "AF11"@
    } else if dscp == 12 {
        "AF12"@
    } else if dscp == 14 {
        "AF13"@
    } else if dscp == 18 {
        "AF21"@
    } else if dscp == 20 {
        "AF22"@
    } else if dscp == 22 {
        "AF23"@
    } else if dscp == 26 {
        "AF31"@
    } else if dscp == 28 {
        "AF32"@
    } else if dscp == 30 {
        "AF33"@
    } else if dscp == 34 {
        "AF41"@
    } else if dscp == 36 {
        "AF42"@
    } else if dscp == 38 {
        "AF43"@
    } else if dscp == 46 {
        "EF"@
    } else {
        dec_str(dscp as nat)
    }
}

proof fn lemma_dscp_name_literals()
    ensures
        "BE"@.len() == 2 && "BE"@[0] == 'B' && "BE"@[1] == 'E',
        "CS0"@.len() == 3 && "CS0"@[0] == 'C' && "CS0"@[1] == 'S' && "CS0"@[2] == '0',
        "CS1"@.len() == 3 && "CS1"@[0] == 'C' && "CS1"@[1] == 'S' && "CS1"@[2] == '1',
        "CS2"@.len() == 3 && "CS2"@[0] == 'C' && "CS2"@[1] == 'S' && "CS2"@[2] == '2',
        "CS3"@.len() == 3 && "CS3"@[0] == 'C' && "CS3"@[1] == 'S' && "CS3"@[2] == '3',
        "CS4"@.len() == 3 && "CS4"@[0] == 'C' && "CS4"@[1] == 'S' && "CS4"@[2] == '4',
        "CS5"@.len() == 3 && "CS5"@[0] == 'C' && "CS5"@[1] == 'S' && "CS5"@[2] == '5',
        "CS6"@.len() == 3 && "CS6"@[0] == 'C' && "CS6"@[1] == 'S' && "CS6"@[2] == '6',
        "CS7"@.len() == 3 && "CS7"@[0] == 'C' && "CS7"@[1] == 'S' && "CS7"@[2] == '7',
        "AF11"@.len() == 4 && "AF11"@[0] == 'A' && "AF11"@[1] == 'F' && "AF11"@[2] == '1' && "AF11"@[3] == '1',
        "AF12"@.len() == 4 && "AF12"@[0] == 'A' && "AF12"@[1] == 'F' && "AF12"@[2] == '1' && "AF12"@[3] == '2',
        "AF13"@.len() == 4 && "AF13"@[0] == 'A' && "AF13"@[1] == 'F' && "AF13"@[2] == '1' && "AF13"@[3] == '3',
        "AF21"@.len() == 4 && "AF21"@[0] == 'A' && "AF21"@[1] == 'F' && "AF21"@[2] == '2' && "AF21"@[3] == '1',
        "AF22"@.len() == 4 && "AF22"@[0] == 'A' && "AF22"@[1] == 'F' && "AF22"@[2] == '2' && "AF22"@[3] == '2',
        "AF23"@.len() == 4 && "AF23"@[0] == 'A' && "AF23"@[1] == 'F' && "AF23"@[2] == '2' && "AF23"@[3] == '3',
        "AF31"@.len() == 4 && "AF31"@[0] == 'A' && "AF31"@[1] == 'F' && "AF31"@[2] == '3' && "AF31"@[3] == '1',
        "AF32"@.len() == 4 && "AF32"@[0] == 'A' && "AF32"@[1] == 'F' && "AF32"@[2] == '3' && "AF32"@[3] == '2',
        "AF33"@.len() == 4 && "AF33"@[0] == 'A' && "AF33"@[1] == 'F' && "AF33"@[2] == '3' && "AF33"@[3] == '3',
        "AF41"@.len() == 4 && "AF41"@[0] == 'A' && "AF41"@[1] == 'F' && "AF41"@[2] == '4' && "AF41"@[3] == '1',
        "AF42"@.len() == 4 && "AF42"@[0] == 'A' && "AF42"@[1] == 'F' && "AF42"@[2] == '4' && "AF42"@[3] == '2',
        "AF43"@.len() == 4 && "AF43"@[0] == 'A' && "AF43"@[1] == 'F' && "AF43"@[2] == '4' && "AF43"@[3] == '3',
        "EF"@.len() == 2 && "EF"@[0] == 'E' && "EF"@[1] == 'F',
{
    reveal_strlit("BE");
    assert("BE"@.len() == 2 && "BE"@[0] == 'B' && "BE"@[1] == 'E');
    reveal_strlit("CS0");
    assert("CS0"@.len() == 3 && "CS0"@[0] == 'C' && "CS0"@[1] == 'S' && "CS0"@[2] == '0');
    reveal_strlit("CS1");
    assert("CS1"@.len() == 3 && "CS1"@[0] == 'C' && "CS1"@[1] == 'S' && "CS1"@[2] == '1');
    reveal_strlit("CS2");
    assert("CS2"@.len() == 3 && "CS2"@[0] == 'C' && "CS2"@[1] == 'S' && "CS2"@[2] == '2');
    reveal_strlit("CS3");
    assert("CS3"@.len() == 3 && "CS3"@[0] == 'C' && "CS3"@[1] == 'S' && "CS3"@[2] == '3');
    reveal_strlit("CS4");
    assert("CS4"@.len() == 3 && "CS4"@[0] == 'C' && "CS4"@[1] == 'S' && "CS4"@[2] == '4');
    reveal_strlit("CS5");
    assert("CS5"@.len() == 3 && "CS5"@[0] == 'C' && "CS5"@[1] == 'S' && "CS5"@[2] == '5');
    reveal_strlit("CS6");
    assert("CS6"@.len() == 3 && "CS6"@[0] == 'C' && "CS6"@[1] == 'S' && "CS6"@[2] == '6');
    reveal_strlit("CS7");
    assert("CS7"@.len() == 3 && "CS7"@[0] == 'C' && "CS7"@[1] == 'S' && "CS7"@[2] == '7');
    reveal_strlit("AF11");
    assert("AF11"@.len() == 4 && "AF11"@[0] == 'A' && "AF11"@[1] == 'F' && "AF11"@[2] == '1' && "AF11"@[3] == '1');
    reveal_strlit("AF12");
    assert("AF12"@.len() == 4 && "AF12"@[0] == 'A' && "AF12"@[1] == 'F' && "AF12"@[2] == '1' && "AF12"@[3] == '2');
    reveal_strlit("AF13");
    assert("AF13"@.len() == 4 && "AF13"@[0] == 'A' && "AF13"@[1] == 'F' && "AF13"@[2] == '1' && "AF13"@[3] == '3');
    reveal_strlit("AF21");
    assert("AF21"@.len() == 4 && "AF21"@[0] == 'A' && "AF21"@[1] == 'F' && "AF21"@[2] == '2' && "AF21"@[3] == '1');
    reveal_strlit("AF22");
    assert("AF22"@.len() == 4 && "AF22"@[0] == 'A' && "AF22"@[1] == 'F' && "AF22"@[2] == '2' && "AF22"@[3] == '2');
    reveal_strlit("AF23");
    assert("AF23"@.len() == 4 && "AF23"@[0] == 'A' && "AF23"@[1] == 'F' && "AF23"@[2] == '2' && "AF23"@[3] == '3');
    reveal_strlit("AF31");
    assert("AF31"@.len() == 4 && "AF31"@[0] == 'A' && "AF31"@[1] == 'F' && "AF31"@[2] == '3' && "AF31"@[3] == '1');
    reveal_strlit("AF32");
    assert("AF32"@.len() == 4 && "AF32"@[0] == 'A' && "AF32"@[1] == 'F' && "AF32"@[2] == '3' && "AF32"@[3] == '2');
    reveal_strlit("AF33");
    assert("AF33"@.len() == 4 && "AF33"@[0] == 'A' && "AF33"@[1] == 'F' && "AF33"@[2] == '3' && "AF33"@[3] == '3');
    reveal_strlit("AF41");
    assert("AF41"@.len() == 4 && "AF41"@[0] == 'A' && "AF41"@[1] == 'F' && "AF41"@[2] == '4' && "AF41"@[3] == '1');
    reveal_strlit("AF42");
    assert("AF42"@.len() == 4 && "AF42"@[0] == 'A' && "AF42"@[1] == 'F' && "AF42"@[2] == '4' && "AF42"@[3] == '2');
    reveal_strlit("AF43");
    assert("AF43"@.len() == 4 && "AF43"@[0] == 'A' && "AF43"@[1] == 'F' && "AF43"@[2] == '4' && "AF43"@[3] == '3');
    reveal_strlit("EF");
    assert("EF"@.len() == 2 && "EF"@[0] == 'E' && "EF"@[1] == 'F');
}

/// The assured-forwarding name `AFxy` (class `x`, drop precedence `y`).
pub open spec fn af_name(x: nat, y: nat) -> Seq<char> {
    seq!['A', 'F', digit_char(x), digit_char(y)]
}

/// The class-selector name `CSn`.
pub open spec fn cs_name(n: nat) -> Seq<char> {
    seq!['C', 'S', digit_char(n)]
}

/// The assured-forwarding names carry their standard codepoints (RFC
/// 2597): `AFxy` is `8x + 2y` for classes 1 to 4 and drop precedences 1 to
/// 3, both when parsed and when the value is named.
pub proof fn lemma_af_codepoints(x: nat, y: nat)
    requires
        1 <= x <= 4,
        1 <= y <= 3,
    ensures
        dscp_spec(af_name(x, y), ascii_upper(af_name(x, y))) == Ok::<u8, Seq<char>>(
            (8 * x + 2 * y) as u8,
        ),
        dscp_name_spec((8 * x + 2 * y) as u8) == af_name(x, y),
{
    lemma_dscp_name_literals();
    let n = af_name(x, y);
    assert(digit_char(1) == '1' && digit_char(2) == '2' && digit_char(3) == '3' && digit_char(4)
        == '4');
    assert(ascii_upper(n) =~= n);
    if x == 1 && y == 1 {
        assert(n =~= "AF11"@);
    } else if x == 1 && y == 2 {
        assert(n =~= "AF12"@);
    } else if x == 1 && y == 3 {
        assert(n =~= "AF13"@);
    } else if x == 2 && y == 1 {
        assert(n =~= "AF21"@);
    } else if x == 2 && y == 2 {
        assert(n =~= "AF22"@);
    } else if x == 2 && y == 3 {
        assert(n =~= "AF23"@);
    } else if x == 3 && y == 1 {
        assert(n =~= "AF31"@);
    } else if x == 3 && y == 2 {
        assert(n =~= "AF32"@);
    } else if x == 3 && y == 3 {
        assert(n =~= "AF33"@);
    } else if x == 4 && y == 1 {
        assert(n =~= "AF41"@);
    } else if x == 4 && y == 2 {
        assert(n =~= "AF42"@);
    } else {
        assert(n =~= "AF43"@);
    }
}

/// The class selectors carry their standard codepoints (RFC 2474): `CSn`
/// is `8n` for `n` from 0 to 7, both when parsed and (from 1 on; 0 is named
/// `BE`) when the value is named; `BE` is 0 and `EF` is 46 (RFC 3246).
pub proof fn lemma_cs_codepoints(n: nat)
    requires
        n <= 7,
    ensures
        dscp_spec(cs_name(n), ascii_upper(cs_name(n))) == Ok::<u8, Seq<char>>((8 * n) as u8),
        n >= 1 ==> dscp_name_spec((8 * n) as u8) == cs_name(n),
        dscp_spec("BE"@, ascii_upper("BE"@)) == Ok::<u8, Seq<char>>(0),
        dscp_spec("EF"@, ascii_upper("EF"@)) == Ok::<u8, Seq<char>>(46),
        dscp_name_spec(46) == "EF"@,
{
    lemma_dscp_name_literals();
    let c = cs_name(n);
    assert(digit_char(0) == '0' && digit_char(1) == '1' && digit_char(2) == '2' && digit_char(3)
        == '3' && digit_char(4) == '4' && digit_char(5) == '5' && digit_char(6) == '6'
        && digit_char(7) == '7');
    assert(ascii_upper(c) =~= c);
    assert(ascii_upper("BE"@) =~= "BE"@);
    assert(ascii_upper("EF"@) =~= "EF"@);
    if n == 0 {
        assert(c =~= "CS0"@);
    } else if n == 1 {
        assert(c =~= "CS1"@);
    } else if n == 2 {
        assert(c =~= "CS2"@);
    } else if n == 3 {
        assert(c =~= "CS3"@);
    } else if n == 4 {
        assert(c =~= "CS4"@);
    } else if n == 5 {
        assert(c =~= "CS5"@);
    } else if n == 6 {
        assert(c =~= "CS6"@);
    } else {
        assert(c =~= "CS7"@);
    }
}

/// A DSCP value's display name reads back as that value: for every value
/// from 0 to 63 the name is ASCII, and parsing it (with the ASCII
/// upper-casing that `parse_dscp` applies to ASCII text) gives the value.
pub proof fn lemma_dscp_name_parses(v: u8)
    requires
        v <= 63,
    ensures
        all_ascii(dscp_name_spec(v)),
        dscp_spec(dscp_name_spec(v), ascii_upper(dscp_name_spec(v))) == Ok::<u8, Seq<char>>(v),
{
    lemma_dscp_name_literals();
    let n = dscp_name_spec(v);
    if v == 0 || v == 8 || v == 16 || v == 24 || v == 32 || v == 40 || v == 48 || v == 56 || v == 10
        || v == 12 || v == 14 || v == 18 || v == 20 || v == 22 || v == 26 || v == 28 || v == 30 || v
        == 34 || v == 36 || v == 38 || v == 46 {
        assert(ascii_upper(n) =~= n);
        assert(dscp_by_name(n) == Some(v));
    } else {
        crate::strutil::lemma_dec_str(v as nat);
        crate::strutil::lemma_parse_dec_str(v as nat, 255);
        assert(n == dec_str(v as nat));
        assert(all_ascii(n));
        assert(ascii_upper(n) =~= n);
    }
}

/// The human-readable name for a DSCP value, or the number as text.
pub fn dscp_name(dscp: u8) -> (r: String)
    ensures
        r@ == dscp_name_spec(dscp),
{
    let name = if dscp == 0 {
        "BE"
    } else if dscp == 8 {
        "CS1"
    } else if dscp == 16 {
        "CS2"
    } else if dscp == 24 {
        "CS3"
    } else if dscp == 32 {
        "CS4"
    } else if dscp == 40 {
        "CS5"
    } else if dscp == 48 {
        "CS6"
    } else if dscp == 56 {
        "CS7"
    } else if dscp == 10 {
        "AF11"
    } else if dscp == 12 {
        "AF12"
    } else if dscp == 14 {
        "AF13"
    } else if dscp == 18 {
        "AF21"
    } else if dscp == 20 {
        "AF22"
    } else if dscp == 22 {
        "AF23"
    } else if dscp == 26 {
        "AF31"
    } else if dscp == 28 {
        "AF32"
    } else if dscp == 30 {
        "AF33"
    } else if dscp == 34 {
        "AF41"
    } else if dscp == 36 {
        "AF42"
    } else if dscp == 38 {
        "AF43"
    } else if dscp == 46 {
        "EF"
    } else {
        return decimal_string(dscp as u64);
    };
    String::from_str(name)
}

/// The error text for a per-stream DSCP argument without `=`.
pub open spec fn stream_dscp_format_text(s: Seq<char>) -> Seq<char> {
    "invalid stream-dscp format: '"@ + s + "' (expected ID=DSCP)"@
}

/// The error text for a stream ID that is not a number from 0 to 255.
pub open spec fn stream_id_text(id: Seq<char>) -> Seq<char> {
    "invalid stream ID: '"@ + id + "'"@
}

/// What a per-stream DSCP argument "ID=DSCP" denotes.
pub open spec fn stream_dscp_spec(s: Seq<char>) -> Result<(u8, u8), Seq<char>> {
    match split_once_spec(s, '=') {
        None => Err(stream_dscp_format_text(s)),
        Some((id_text, dscp_text)) => match parse_unsigned(id_text, 255) {
            None => Err(stream_id_text(id_text)),
            Some(id) => match dscp_spec(dscp_text, unicode_upper(dscp_text)) {
                Ok(d) => Ok((id as u8, d)),
                Err(e) => Err(e),
            },
        },
    }
}

/// Parses a "stream_id=dscp" argument (e.g., "0=AF41").
pub fn parse_stream_dscp(s: &str) -> (r: Result<(u8, u8), String>)
    ensures
        res_view(r) == stream_dscp_spec(s@),
{
    let (id_str, dscp_str) = match split_once_char(s, '=') {
        Some(p) => p,
        None => {
            let mut msg = String::from_str("invalid stream-dscp format: '");
            msg.append(s);
            msg.append("' (expected ID=DSCP)");
            return Err(msg);
        },
    };
    let id = match parse_decimal(id_str, 255) {
        Some(v) => v as u8,
        None => {
            let mut msg = String::from_str("invalid stream ID: '");
            msg.append(id_str);
            msg.append("'");
            return Err(msg);
        },
    };
    let dscp = match parse_dscp(dscp_str) {
        Ok(d) => d,
        Err(e) => return Err(e),
    };
    Ok((id, dscp))
}

/// The error text for TOS marking on an IPv6 endpoint.
pub open spec fn ipv6_tos_text(addr: Seq<char>) -> Seq<char> {
    "TOS marking is IPv4-only. IPv6 endpoint "@ + addr
        + " requires IPV6_TCLASS (not yet supported)"@
}

/// What to do to mark a socket for the endpoint `addr_text`: refuse an IPv6
/// endpoint, set nothing when the TOS byte is the default 0, else set the
/// TOS byte built from `dscp` and `ecn`.
pub fn plan_socket_tos(addr_is_ipv6: bool, addr_text: &str, dscp: Option<u8>, ecn: EcnMode) -> (r:
    Result<Option<u8>, String>)
    ensures
        addr_is_ipv6 ==> (r matches Err(e) && e@ == ipv6_tos_text(addr_text@)),
        !addr_is_ipv6 && tos_of(dscp, ecn) == 0 ==> r == Ok::<Option<u8>, String>(None),
        !addr_is_ipv6 && tos_of(dscp, ecn) != 0 ==> r == Ok::<Option<u8>, String>(
            Some(tos_of(dscp, ecn)),
        ),
{
    if addr_is_ipv6 {
        let mut msg = String::from_str("TOS marking is IPv4-only. IPv6 endpoint ");
        msg.append(addr_text);
        msg.append(" requires IPV6_TCLASS (not yet supported)");
        return Err(msg);
    }
    let tos = build_tos(dscp, ecn);
    if tos == 0 {
        return Ok(None);
    }
    Ok(Some(tos))
}

} // verus!
