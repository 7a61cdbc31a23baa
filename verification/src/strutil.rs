//! Small string helpers shared by the parsers: decimal numbers in the
//! syntax that `str::parse` accepts for unsigned integers, decimal
//! rendering, splitting at the first occurrence of a character, lines,
//! trimming white space, and Unicode case mapping (delegated to std).

use vstd::prelude::*;

verus! {

/// True for the ASCII digits `0`..=`9`.
pub open spec fn is_digit(c: char) -> bool {
    '0' <= c && c <= '9'
}

/// Numeric value of an ASCII digit.
pub open spec fn digit_val(c: char) -> nat {
    (c as int - '0' as int) as nat
}

/// Every character of `s` is an ASCII digit.
pub open spec fn all_digits(s: Seq<char>) -> bool {
    forall|i: int| 0 <= i < s.len() ==> is_digit(#[trigger] s[i])
}

/// Value of a string of decimal digits (most significant first).
pub open spec fn dec_value(s: Seq<char>) -> nat
    decreases s.len(),
{
    if s.len() == 0 {
        0
    } else {
        dec_value(s.drop_last()) * 10 + digit_val(s.last())
    }
}

/// The digits part of an unsigned number: one leading `+` is allowed.
pub open spec fn unsigned_body(s: Seq<char>) -> Seq<char> {
    if s.len() > 0 && s[0] == '+' {
        s.drop_first()
    } else {
        s
    }
}

/// What `str::parse` gives for an unsigned integer type whose largest
/// value is `max`: an optional `+`, then one or more ASCII digits whose
/// value does not exceed `max`.
pub open spec fn parse_unsigned(s: Seq<char>, max: nat) -> Option<nat> {
    let d = unsigned_body(s);
    if d.len() > 0 && all_digits(d) && dec_value(d) <= max {
        Some(dec_value(d))
    } else {
        None
    }
}

/// The ASCII digit character for a value below ten.
pub open spec fn digit_char(d: nat) -> char {
    ((d + 48) as u8) as char
}

/// Decimal rendering of a natural number, without leading zeros.
pub open spec fn dec_str(n: nat) -> Seq<char>
    decreases n,
{
    if n < 10 {
        seq![digit_char(n)]
    } else {
        dec_str(n / 10).push(digit_char(n % 10))
    }
}

proof fn lemma_dec_value_prefix_le(s: Seq<char>, j: int)
    requires
        all_digits(s),
        0 <= j <= s.len(),
    ensures
        dec_value(s.subrange(0, j)) <= dec_value(s),
    decreases s.len(),
{
    if j < s.len() {
        let t = s.drop_last();
        assert(all_digits(t));
        lemma_dec_value_prefix_le(t, j);
        assert(t.subrange(0, j) =~= s.subrange(0, j));
    } else {
        assert(s.subrange(0, j) =~= s);
    }
}

/// Parses an unsigned decimal number no larger than `max`, in the syntax
/// that `str::parse` accepts for unsigned integer types.
pub fn parse_decimal(s: &str, max: u64) -> (r: Option<u64>)
    ensures
        match parse_unsigned(s@, max as nat) {
            Some(v) => r == Some(v as u64),
            None => r is None,
        },
{
    let n = s.unicode_len();
    if n == 0 {
        return None;
    }
    let mut start: usize = 0;
    if s.get_char(0) == '+' {
        start = 1;
    }
    if start == n {
        return None;
    }
    let ghost d = unsigned_body(s@);
    assert(d =~= s@.subrange(start as int, n as int));
    let mut i: usize = start;
    let mut acc: u64 = 0;
    while i < n
        invariant
            start <= i <= n,
            n == s@.len(),
            start < n,
            d == s@.subrange(start as int, n as int),
            d == unsigned_body(s@),
            all_digits(d.subrange(0, i - start)),
            acc as nat == dec_value(d.subrange(0, i - start)),
            acc <= max,
        decreases n - i,
    {
        let c = s.get_char(i);
        assert(d[i - start] == c);
        if !(c >= '0' && c <= '9') {
            assert(!is_digit(d[i - start]));
            assert(!all_digits(d));
            return None;
        }
        let dv = ((c as u32) - 48) as u64;
        assert(dv == digit_val(c));
        let ghost pre = d.subrange(0, i - start);
        let ghost next = d.subrange(0, i + 1 - start);
        assert(next.drop_last() =~= pre);
        assert(next.last() == c);
        if dv > max || acc > (max - dv) / 10 {
            assert(acc * 10 + dv > max) by (nonlinear_arith)
                requires
                    dv > max || acc > (max - dv) / 10,
                    dv <= 9,
            {
            }
            assert(dec_value(next) == acc * 10 + dv);
            proof {
                if all_digits(d) {
                    lemma_dec_value_prefix_le(d, i + 1 - start);
                }
            }
            return None;
        }
        assert(acc * 10 + dv <= max) by (nonlinear_arith)
            requires
                acc <= (max - dv) / 10,
                dv <= max,
        {
        }
        acc = acc * 10 + dv;
        i = i + 1;
        assert(all_digits(next)) by {
            assert forall|k: int| 0 <= k < next.len() implies is_digit(#[trigger] next[k]) by {
                if k < pre.len() {
                    assert(next[k] == pre[k]);
                }
            }
        }
    }
    assert(d.subrange(0, n - start) =~= d);
    Some(acc)
}


proof fn lemma_digit_char(d: nat)
    requires
        d < 10,
    ensures
        is_digit(digit_char(d)),
        digit_val(digit_char(d)) == d,
{
    assert(((d + 48) as u8) as char as int == d + 48);
}

/// Decimal rendering is all digits, starts with a digit, and reads back
/// as the number it renders.
pub proof fn lemma_dec_str(n: nat)
    ensures
        dec_str(n).len() > 0,
        all_digits(dec_str(n)),
        dec_value(dec_str(n)) == n,
    decreases n,
{
    if n < 10 {
        lemma_digit_char(n);
        assert(dec_str(n).drop_last() =~= Seq::<char>::empty());
        assert(dec_value(Seq::<char>::empty()) == 0);
        assert(dec_value(dec_str(n)) == dec_value(dec_str(n).drop_last()) * 10 + digit_val(dec_str(n).last()));
    } else {
        lemma_dec_str(n / 10);
        lemma_digit_char(n % 10);
        let s = dec_str(n);
        assert(s.drop_last() =~= dec_str(n / 10));
        assert(s.last() == digit_char(n % 10));
        assert((n / 10) * 10 + n % 10 == n) by (nonlinear_arith);
        assert(dec_value(s) == dec_value(s.drop_last()) * 10 + digit_val(s.last()));
        assert forall|i: int| 0 <= i < s.len() implies is_digit(#[trigger] s[i]) by {
            if i < s.len() - 1 {
                assert(s[i] == dec_str(n / 10)[i]);
            }
        }
    }
}

/// Parsing the decimal rendering of a number gives the number back,
/// whenever it fits the target type.
pub proof fn lemma_parse_dec_str(n: nat, max: nat)
    requires
        n <= max,
    ensures
        parse_unsigned(dec_str(n), max) == Some(n),
{
    lemma_dec_str(n);
    let s = dec_str(n);
    assert(is_digit(s[0]));
    assert(unsigned_body(s) == s);
}

/// Appends one character to a `String` (`String::push`).
#[verifier::external_body]
pub(crate) fn push_char(s: &mut String, c: char)
    ensures
        final(s)@ == old(s)@.push(c),
{
    s.push(c);
}

/// Appends the decimal rendering of `v` to `out`.
pub fn push_decimal(out: &mut String, v: u64)
    ensures
        final(out)@ == old(out)@ + dec_str(v as nat),
    decreases v,
{
    if v >= 10 {
        push_decimal(out, v / 10);
    }
    let d = (v % 10) as u8;
    let c = (d + 48) as char;
    assert(c == digit_char((v % 10) as nat));
    push_char(out, c);
    proof {
        if v >= 10 {
            assert(dec_str(v as nat) == dec_str((v / 10) as nat).push(c));
        } else {
            assert(dec_str(v as nat) == seq![c]);
        }
    }
    assert(out@ =~= old(out)@ + dec_str(v as nat));
}

/// The decimal rendering of `v` as a new `String`.
pub fn decimal_string(v: u64) -> (r: String)
    ensures
        r@ == dec_str(v as nat),
{
    let mut s = String::new();
    push_decimal(&mut s, v);
    assert(s@ =~= dec_str(v as nat));
    s
}

/// Character-wise equality of two string slices.
pub fn str_eq(a: &str, b: &str) -> (r: bool)
    ensures
        r == (a@ == b@),
{
    let n = a.unicode_len();
    if n != b.unicode_len() {
        return false;
    }
    let mut i: usize = 0;
    while i < n
        invariant
            n == a@.len(),
            n == b@.len(),
            i <= n,
            forall|j: int| 0 <= j < i ==> a@[j] == b@[j],
        decreases n - i,
    {
        if a.get_char(i) != b.get_char(i) {
            return false;
        }
        i = i + 1;
    }
    assert(a@ =~= b@);
    true
}

/// Position of the first occurrence of `c` in `s`.
pub open spec fn first_index_of(s: Seq<char>, c: char) -> Option<nat>
    decreases s.len(),
{
    if s.len() == 0 {
        None
    } else if s[0] == c {
        Some(0)
    } else {
        match first_index_of(s.drop_first(), c) {
            Some(i) => Some(i + 1),
            None => None,
        }
    }
}

/// What `str::split_once` gives for a character pattern: the text before
/// and after the first occurrence of `c`, or nothing when `c` is absent.
pub open spec fn split_once_spec(s: Seq<char>, c: char) -> Option<(Seq<char>, Seq<char>)> {
    match first_index_of(s, c) {
        Some(i) => Some((s.subrange(0, i as int), s.subrange(i as int + 1, s.len() as int))),
        None => None,
    }
}

proof fn lemma_first_index_of(s: Seq<char>, c: char, i: int)
    requires
        0 <= i <= s.len(),
        forall|j: int| 0 <= j < i ==> s[j] != c,
    ensures
        i < s.len() && s[i] == c ==> first_index_of(s, c) == Some(i as nat),
        i == s.len() ==> first_index_of(s, c) is None,
    decreases s.len(),
{
    if s.len() > 0 && i > 0 {
        let t = s.drop_first();
        assert forall|j: int| 0 <= j < i - 1 implies t[j] != c by {
            assert(t[j] == s[j + 1]);
        }
        lemma_first_index_of(t, c, i - 1);
        assert(s[0] != c);
    }
}

/// Splits `s` at the first occurrence of `c`.
pub fn split_once_char(s: &str, c: char) -> (r: Option<(&str, &str)>)
    ensures
        match split_once_spec(s@, c) {
            Some((a, b)) => r matches Some((x, y)) && x@ == a && y@ == b,
            None => r is None,
        },
{
    let n = s.unicode_len();
    let mut i: usize = 0;
    while i < n
        invariant
            n == s@.len(),
            i <= n,
            forall|j: int| 0 <= j < i ==> s@[j] != c,
        decreases n - i,
    {
        if s.get_char(i) == c {
            proof {
                lemma_first_index_of(s@, c, i as int);
            }
            let left = s.substring_char(0, i);
            let right = s.substring_char(i + 1, n);
            return Some((left, right));
        }
        i = i + 1;
    }
    proof {
        lemma_first_index_of(s@, c, i as int);
    }
    None
}

/// ASCII upper-casing of a character sequence (other characters kept).
pub open spec fn ascii_upper(s: Seq<char>) -> Seq<char> {
    s.map_values(|c: char| if 'a' <= c && c <= 'z' { ((c as int) - 32) as char } else { c })
}

/// ASCII lower-casing of a character sequence (other characters kept).
pub open spec fn ascii_lower(s: Seq<char>) -> Seq<char> {
    s.map_values(|c: char| if 'A' <= c && c <= 'Z' { ((c as int) + 32) as char } else { c })
}

/// Every character is in the ASCII range.
pub open spec fn all_ascii(s: Seq<char>) -> bool {
    forall|i: int| 0 <= i < s.len() ==> (#[trigger] s[i] as int) < 128
}

/// The full Unicode upper-case mapping that `str::to_uppercase` applies.
pub uninterp spec fn unicode_upper(s: Seq<char>) -> Seq<char>;

/// The full Unicode lower-case mapping that `str::to_lowercase` applies.
pub uninterp spec fn unicode_lower(s: Seq<char>) -> Seq<char>;

/// `str::to_uppercase`. The Unicode mapping is named, not written out;
/// on ASCII input it is the ASCII mapping, since the Unicode upper case of
/// an ASCII letter is its ASCII upper case and other ASCII characters map
/// to themselves.
#[verifier::external_body]
pub(crate) fn to_uppercase(s: &str) -> (r: String)
    ensures
        r@ == unicode_upper(s@),
        all_ascii(s@) ==> r@ == ascii_upper(s@),
{
    s.to_uppercase()
}

/// `str::to_lowercase`. The Unicode mapping is named, not written out;
/// on ASCII input it is the ASCII mapping, since the Unicode lower case of
/// an ASCII letter is its ASCII lower case and other ASCII characters map
/// to themselves.
#[verifier::external_body]
pub(crate) fn to_lowercase(s: &str) -> (r: String)
    ensures
        r@ == unicode_lower(s@),
        all_ascii(s@) ==> r@ == ascii_lower(s@),
{
    s.to_lowercase()
}

/// `p` is a prefix of `s`.
pub open spec fn has_prefix(s: Seq<char>, p: Seq<char>) -> bool {
    s.len() >= p.len() && s.subrange(0, p.len() as int) == p
}

/// Whether `s` starts with `p` (`str::starts_with` with a string pattern).
pub fn starts_with(s: &str, p: &str) -> (r: bool)
    ensures
        r == has_prefix(s@, p@),
{
    let n = s.unicode_len();
    let m = p.unicode_len();
    if n < m {
        return false;
    }
    let mut i: usize = 0;
    while i < m
        invariant
            n == s@.len(),
            m == p@.len(),
            m <= n,
            i <= m,
            forall|j: int| 0 <= j < i ==> s@[j] == p@[j],
        decreases m - i,
    {
        if s.get_char(i) != p.get_char(i) {
            assert(s@.subrange(0, m as int)[i as int] != p@[i as int]);
            return false;
        }
        i = i + 1;
    }
    assert(s@.subrange(0, m as int) =~= p@);
    true
}

/// Position of the first occurrence of a non-empty `pat` in `s`.
pub open spec fn first_occurrence(s: Seq<char>, pat: Seq<char>) -> Option<nat>
    decreases s.len(),
{
    if s.len() < pat.len() || pat.len() == 0 {
        if pat.len() == 0 {
            Some(0)
        } else {
            None
        }
    } else if s.subrange(0, pat.len() as int) == pat {
        Some(0)
    } else {
        match first_occurrence(s.drop_first(), pat) {
            Some(i) => Some(i + 1),
            None => None,
        }
    }
}

/// `s` with its first occurrence of `pat` replaced by `to`
/// (`str::replacen(pat, to, 1)`); unchanged when `pat` does not occur.
pub open spec fn replace_first_spec(s: Seq<char>, pat: Seq<char>, to: Seq<char>) -> Seq<char> {
    match first_occurrence(s, pat) {
        Some(i) => s.subrange(0, i as int) + to + s.subrange(i + pat.len() as int, s.len() as int),
        None => s,
    }
}

proof fn lemma_first_occurrence(s: Seq<char>, pat: Seq<char>, i: int)
    requires
        pat.len() > 0,
        0 <= i,
        i + pat.len() <= s.len() + 1,
        forall|j: int| 0 <= j < i ==> !has_prefix(#[trigger] s.subrange(j, s.len() as int), pat),
    ensures
        i + pat.len() <= s.len() && has_prefix(s.subrange(i, s.len() as int), pat)
            ==> first_occurrence(s, pat) == Some(i as nat),
        i + pat.len() == s.len() + 1 ==> first_occurrence(s, pat) is None,
    decreases s.len(),
{
    if s.len() >= pat.len() {
        assert(s.subrange(0, s.len() as int) =~= s);
        if i > 0 {
            assert(!has_prefix(s.subrange(0, s.len() as int), pat));
            assert(s.subrange(0, pat.len() as int) != pat);
            let t = s.drop_first();
            assert forall|j: int| 0 <= j < i - 1 implies !has_prefix(
                #[trigger] t.subrange(j, t.len() as int),
                pat,
            ) by {
                assert(t.subrange(j, t.len() as int) =~= s.subrange(j + 1, s.len() as int));
            }
            lemma_first_occurrence(t, pat, i - 1);
            if i + pat.len() <= s.len() {
                assert(t.subrange(i - 1, t.len() as int) =~= s.subrange(i, s.len() as int));
            }
        } else {
            if i + pat.len() <= s.len() && has_prefix(s.subrange(i, s.len() as int), pat) {
                assert(s.subrange(0, pat.len() as int) =~= s.subrange(0, s.len() as int).subrange(
                    0,
                    pat.len() as int,
                ));
            }
        }
    }
}

/// Replaces the first occurrence of a non-empty `pat` in `s` by `to`.
pub fn replace_first(s: &str, pat: &str, to: &str) -> (r: String)
    requires
        pat@.len() > 0,
    ensures
        r@ == replace_first_spec(s@, pat@, to@),
{
    let n = s.unicode_len();
    let m = pat.unicode_len();
    if n < m {
        assert(first_occurrence(s@, pat@) is None);
        return String::from_str(s);
    }
    let mut i: usize = 0;
    while i <= n - m
        invariant
            n == s@.len(),
            m == pat@.len(),
            m > 0,
            m <= n,
            i + m <= n + 1,
            forall|j: int| 0 <= j < i ==> !has_prefix(#[trigger] s@.subrange(j, n as int), pat@),
        decreases n + 1 - (i + m),
    {
        let rest = s.substring_char(i, n);
        if starts_with(rest, pat) {
            proof {
                lemma_first_occurrence(s@, pat@, i as int);
            }
            let mut out = String::from_str(s.substring_char(0, i));
            out.append(to);
            out.append(s.substring_char(i + m, n));
            return out;
        }
        i = i + 1;
    }
    proof {
        lemma_first_occurrence(s@, pat@, i as int);
    }
    String::from_str(s)
}

/// A line without its line ending: a carriage return right before the
/// line feed is part of the ending.
pub open spec fn strip_cr(l: Seq<char>) -> Seq<char> {
    if l.len() > 0 && l.last() == '\r' {
        l.drop_last()
    } else {
        l
    }
}

/// The lines of a text as `str::lines` yields them: split at `\n` (with a
/// preceding `\r` dropped), the final line ending optional, and no empty
/// line after a final line ending.
pub open spec fn lines_spec(s: Seq<char>) -> Seq<Seq<char>>
    decreases s.len(),
{
    match first_index_of(s, '\n') {
        None => if s.len() == 0 {
            Seq::empty()
        } else {
            seq![s]
        },
        Some(i) => if i < s.len() {
            seq![strip_cr(s.subrange(0, i as int))] + lines_spec(
                s.subrange(i as int + 1, s.len() as int),
            )
        } else {
            Seq::empty()
        },
    }
}

proof fn lemma_first_index_bound(s: Seq<char>, c: char)
    ensures
        first_index_of(s, c) matches Some(i) ==> i < s.len() && s[i as int] == c,
    decreases s.len(),
{
    if s.len() > 0 {
        lemma_first_index_bound(s.drop_first(), c);
    }
}

/// The character sequences of a sequence of strings.
pub open spec fn views_of(v: Seq<String>) -> Seq<Seq<char>> {
    Seq::new(v.len(), |i: int| v[i]@)
}

/// Splits a text into its lines, as `str::lines` does.
pub fn split_lines(s: &str) -> (r: Vec<String>)
    ensures
        views_of(r@) == lines_spec(s@),
    decreases s@.len(),
{
    match split_once_char(s, '\n') {
        None => {
            let mut v: Vec<String> = Vec::new();
            if s.unicode_len() > 0 {
                v.push(String::from_str(s));
            }
            assert(views_of(v@) =~= lines_spec(s@));
            v
        },
        Some((head, tail)) => {
            proof {
                lemma_first_index_bound(s@, '\n');
            }
            let hn = head.unicode_len();
            let line = if hn > 0 && head.get_char(hn - 1) == '\r' {
                String::from_str(head.substring_char(0, hn - 1))
            } else {
                String::from_str(head)
            };
            assert(line@ == strip_cr(head@));
            let rest = split_lines(tail);
            let mut v: Vec<String> = Vec::new();
            v.push(line);
            let mut k: usize = 0;
            while k < rest.len()
                invariant
                    k <= rest@.len(),
                    v@.len() == k + 1,
                    v@[0]@ == strip_cr(head@),
                    forall|j: int| 0 <= j < k ==> (#[trigger] v@[j + 1])@ == rest@[j]@,
                decreases rest@.len() - k,
            {
                let item = rest[k].clone();
                v.push(item);
                k = k + 1;
            }
            assert(views_of(v@) =~= seq![strip_cr(head@)] + views_of(rest@)) by {
                assert forall|j: int| 0 < j < v@.len() implies views_of(v@)[j] == views_of(
                    rest@,
                )[j - 1] by {
                    assert(v@[(j - 1) + 1] == v@[j]);
                }
            }
            v
        },
    }
}

/// Characters with the Unicode White_Space property, the white space that
/// `str::trim` removes.
pub open spec fn is_white_space(c: char) -> bool {
    ||| '\u{9}' <= c && c <= '\u{d}'
    ||| c == ' ' || c == '\u{85}' || c == '\u{a0}' || c == '\u{1680}'
    ||| '\u{2000}' <= c && c <= '\u{200a}'
    ||| c == '\u{2028}' || c == '\u{2029}' || c == '\u{202f}' || c == '\u{205f}' || c == '\u{3000}'
}

/// The text without its leading white space.
pub open spec fn trim_start_spec(s: Seq<char>) -> Seq<char>
    decreases s.len(),
{
    if s.len() > 0 && is_white_space(s[0]) {
        trim_start_spec(s.drop_first())
    } else {
        s
    }
}

/// The text without its trailing white space.
pub open spec fn trim_end_spec(s: Seq<char>) -> Seq<char>
    decreases s.len(),
{
    if s.len() > 0 && is_white_space(s.last()) {
        trim_end_spec(s.drop_last())
    } else {
        s
    }
}

/// The text without leading and trailing white space, as `str::trim`
/// gives it.
pub open spec fn trim_spec(s: Seq<char>) -> Seq<char> {
    trim_end_spec(trim_start_spec(s))
}

/// Whether a character is white space.
pub fn is_white_space_char(c: char) -> (r: bool)
    ensures
        r == is_white_space(c),
{
    ('\u{9}' <= c && c <= '\u{d}') || c == ' ' || c == '\u{85}' || c == '\u{a0}' || c
        == '\u{1680}' || ('\u{2000}' <= c && c <= '\u{200a}') || c == '\u{2028}' || c
        == '\u{2029}' || c == '\u{202f}' || c == '\u{205f}' || c == '\u{3000}'
}

/// The text without leading and trailing white space (`str::trim`).
pub fn trim(s: &str) -> (r: &str)
    ensures
        r@ == trim_spec(s@),
{
    let n = s.unicode_len();
    assert(s@.subrange(0, n as int) =~= s@);
    let mut i: usize = 0;
    while i < n && is_white_space_char(s.get_char(i))
        invariant
            n == s@.len(),
            i <= n,
            trim_start_spec(s@) == trim_start_spec(s@.subrange(i as int, n as int)),
        decreases n - i,
    {
        assert(s@.subrange(i as int, n as int).drop_first() =~= s@.subrange(i + 1, n as int));
        i = i + 1;
    }
    assert(trim_start_spec(s@) == s@.subrange(i as int, n as int)) by {
        if i == n {
            assert(s@.subrange(i as int, n as int).len() == 0);
        } else {
            assert(s@.subrange(i as int, n as int)[0] == s@[i as int]);
        }
    }
    let mut j: usize = n;
    while j > i && is_white_space_char(s.get_char(j - 1))
        invariant
            n == s@.len(),
            i <= j <= n,
            trim_spec(s@) == trim_end_spec(s@.subrange(i as int, j as int)),
        decreases j - i,
    {
        assert(s@.subrange(i as int, j as int).drop_last() =~= s@.subrange(i as int, j - 1));
        j = j - 1;
    }
    assert(trim_end_spec(s@.subrange(i as int, j as int)) == s@.subrange(i as int, j as int)) by {
        if j > i {
            assert(s@.subrange(i as int, j as int).last() == s@[j - 1]);
        }
    }
    s.substring_char(i, j)
}

} // verus!
