//! JUnit XML rendering: escaping of attribute and text content, and the
//! layout of a test suite from its test cases.

use vstd::prelude::*;

use crate::strutil::{
    dec_str, has_prefix, is_white_space, lines_spec, push_char, push_decimal, replace_first,
    replace_first_spec, split_lines, starts_with, str_eq, trim, trim_spec, trim_start_spec,
    views_of,
};

verus! {

broadcast use vstd::string::group_string_axioms;

/// One JUnit test case: its name, class, captured output and, when it
/// failed, the failure message.
#[derive(Debug, Clone)]
pub struct JunitCase {
    pub name: String,
    pub classname: String,
    pub output: String,
    pub failure: Option<String>,
}

/// The XML escape of one character.
pub open spec fn escape_char(c: char) -> Seq<char> {
    if c == '&' {
        "&amp;"@
    } else if c == '<' {
        "&lt;"@
    } else if c == '>' {
        "&gt;"@
    } else if c == '"' {
        "&quot;"@
    } else {
        seq![c]
    }
}

/// XML escape of a text: `&`, `<`, `>` and `"` replaced by entities.
pub open spec fn escape_spec(s: Seq<char>) -> Seq<char>
    decreases s.len(),
{
    if s.len() == 0 {
        Seq::empty()
    } else {
        escape_spec(s.drop_last()) + escape_char(s.last())
    }
}

/// Escapes `&`, `<`, `>` and `"` for XML attributes and text.
pub fn escape_xml(s: &str) -> (r: String)
    ensures
        r@ == escape_spec(s@),
{
    let n = s.unicode_len();
    let mut out = String::new();
    let mut i: usize = 0;
    while i < n
        invariant
            n == s@.len(),
            i <= n,
            out@ == escape_spec(s@.subrange(0, i as int)),
        decreases n - i,
    {
        let c = s.get_char(i);
        let ghost pre = s@.subrange(0, i as int);
        let ghost next = s@.subrange(0, i + 1);
        assert(next.drop_last() =~= pre);
        assert(next.last() == c);
        if c == '&' {
            out.append("&amp;");
        } else if c == '<' {
            out.append("&lt;");
        } else if c == '>' {
            out.append("&gt;");
        } else if c == '"' {
            out.append("&quot;");
        } else {
            push_char(&mut out, c);
        }
        i = i + 1;
        assert(out@ =~= escape_spec(next));
    }
    assert(s@.subrange(0, n as int) =~= s@);
    out
}

/// The XML of one test case.
pub open spec fn case_xml(c: JunitCase) -> Seq<char> {
    "    <testcase name=\""@ + escape_spec(c.name@) + "\" classname=\""@ + escape_spec(
        c.classname@,
    ) + "\">\n"@ + match c.failure {
        Some(m) => "      <failure message=\""@ + escape_spec(m@) + "\">"@ + escape_spec(m@)
            + "</failure>\n"@,
        None => Seq::empty(),
    } + "      <system-out>"@ + escape_spec(c.output@) + "</system-out>\n"@ + "    </testcase>\n"@
}

/// The XML of a list of test cases, in order.
pub open spec fn cases_xml(cs: Seq<JunitCase>) -> Seq<char>
    decreases cs.len(),
{
    if cs.len() == 0 {
        Seq::empty()
    } else {
        cases_xml(cs.drop_last()) + case_xml(cs.last())
    }
}

/// Number of failed test cases.
pub open spec fn failure_count(cs: Seq<JunitCase>) -> nat
    decreases cs.len(),
{
    if cs.len() == 0 {
        0
    } else {
        failure_count(cs.drop_last()) + if cs.last().failure is Some {
            1nat
        } else {
            0nat
        }
    }
}

/// The opening tag of a suite named after the test mode.
pub open spec fn suite_open_xml(mode: Seq<char>, tests: nat, failures: nat) -> Seq<char> {
    "  <testsuite name=\"bngtester."@ + mode + "\" tests=\""@ + dec_str(tests) + "\" failures=\""@
        + dec_str(failures) + "\">\n"@
}

/// A complete JUnit document with one suite holding the cases.
pub open spec fn junit_document(mode: Seq<char>, cs: Seq<JunitCase>) -> Seq<char> {
    "<?xml version=\"1.0\" encoding=\"UTF-8\"?>\n"@ + "<testsuites>\n"@ + suite_open_xml(
        mode,
        cs.len(),
        failure_count(cs),
    ) + cases_xml(cs) + "  </testsuite>\n"@ + "</testsuites>\n"@
}

/// A suite never counts more failures than it has test cases.
pub proof fn lemma_failures_at_most_tests(cs: Seq<JunitCase>)
    ensures
        failure_count(cs) <= cs.len(),
    decreases cs.len(),
{
    if cs.len() > 0 {
        lemma_failures_at_most_tests(cs.drop_last());
    }
}

/// Appends the XML of one test case.
fn push_case(out: &mut String, c: &JunitCase)
    ensures
        final(out)@ == old(out)@ + case_xml(*c),
{
    out.append("    <testcase name=\"");
    let name = escape_xml(c.name.as_str());
    out.append(name.as_str());
    out.append("\" classname=\"");
    let class = escape_xml(c.classname.as_str());
    out.append(class.as_str());
    out.append("\">\n");
    match &c.failure {
        Some(m) => {
            let em = escape_xml(m.as_str());
            out.append("      <failure message=\"");
            out.append(em.as_str());
            out.append("\">");
            out.append(em.as_str());
            out.append("</failure>\n");
        },
        None => {},
    }
    out.append("      <system-out>");
    let o = escape_xml(c.output.as_str());
    out.append(o.as_str());
    out.append("</system-out>\n");
    out.append("    </testcase>\n");
    assert(out@ =~= old(out)@ + case_xml(*c));
}

/// Renders a JUnit document with one suite, named `bngtester.<mode>`,
/// holding `cases` in order, with the test and failure counts.
pub fn render_junit(mode: &str, cases: &[JunitCase]) -> (r: String)
    ensures
        r@ == junit_document(mode@, cases@),
{
    let mut failures: u64 = 0;
    let mut i: usize = 0;
    while i < cases.len()
        invariant
            i <= cases@.len(),
            failures == failure_count(cases@.subrange(0, i as int)),
            failures <= i,
        decreases cases@.len() - i,
    {
        let ghost next = cases@.subrange(0, i + 1);
        assert(next.drop_last() =~= cases@.subrange(0, i as int));
        if cases[i].failure.is_some() {
            failures = failures + 1;
        }
        i = i + 1;
    }
    assert(cases@.subrange(0, cases@.len() as int) =~= cases@);
    let mut xml = String::from_str("<?xml version=\"1.0\" encoding=\"UTF-8\"?>\n");
    xml.append("<testsuites>\n");
    xml.append("  <testsuite name=\"bngtester.");
    xml.append(mode);
    xml.append("\" tests=\"");
    push_decimal(&mut xml, cases.len() as u64);
    xml.append("\" failures=\"");
    push_decimal(&mut xml, failures);
    xml.append("\">\n");
    let ghost head = xml@;
    let mut j: usize = 0;
    while j < cases.len()
        invariant
            j <= cases@.len(),
            xml@ == head + cases_xml(cases@.subrange(0, j as int)),
        decreases cases@.len() - j,
    {
        let ghost next = cases@.subrange(0, j + 1);
        assert(next.drop_last() =~= cases@.subrange(0, j as int));
        push_case(&mut xml, &cases[j]);
        j = j + 1;
        assert(xml@ =~= head + cases_xml(next));
    }
    xml.append("  </testsuite>\n");
    xml.append("</testsuites>\n");
    assert(xml@ =~= junit_document(mode@, cases@));
    xml
}

/// The opening of a suite element, whose name gets the client prefix.
pub open spec fn suite_tag() -> Seq<char> {
    "<testsuite name=\""@
}

/// A line of a client's document that belongs to its suite: not the XML
/// declaration nor the `testsuites` wrapper (judged with white space
/// trimmed).
pub open spec fn keeps_line(l: Seq<char>) -> bool {
    let t = trim_spec(l);
    !(has_prefix(t, "<?xml"@) || t == "<testsuites>"@ || t == "</testsuites>"@)
}

proof fn lemma_trim_indented(pad: nat, t: Seq<char>)
    requires
        t.len() > 0,
        !is_white_space(t[0]),
        !is_white_space(t.last()),
    ensures
        trim_spec(Seq::new(pad, |i: int| ' ') + t) == t,
    decreases pad,
{
    let l = Seq::new(pad, |i: int| ' ') + t;
    if pad == 0 {
        assert(l =~= t);
    } else {
        lemma_trim_indented((pad - 1) as nat, t);
        assert(l.drop_first() =~= Seq::new((pad - 1) as nat, |i: int| ' ') + t);
        assert(l[0] == ' ');
    }
    assert(trim_start_spec(t) == t);
}

/// The `testsuites` wrapper lines of a client's document are dropped
/// however far they are indented with spaces.
pub proof fn lemma_wrapper_lines_dropped(pad: nat)
    ensures
        !keeps_line(Seq::new(pad, |i: int| ' ') + "<testsuites>"@),
        !keeps_line(Seq::new(pad, |i: int| ' ') + "</testsuites>"@),
{
    reveal_strlit("<testsuites>");
    reveal_strlit("</testsuites>");
    lemma_trim_indented(pad, "<testsuites>"@);
    lemma_trim_indented(pad, "</testsuites>"@);
}

/// A kept line as it appears in the combined document: the suite's name
/// gets the escaped client ID and a `/` in front.
pub open spec fn combined_line(l: Seq<char>, client_id: Seq<char>) -> Seq<char> {
    if has_prefix(trim_spec(l), suite_tag()) {
        replace_first_spec(l, suite_tag(), suite_tag() + escape_spec(client_id) + "/"@)
    } else {
        l
    }
}

/// The kept lines of one client's document, each with a line feed.
pub open spec fn client_part(lines: Seq<Seq<char>>, client_id: Seq<char>) -> Seq<char>
    decreases lines.len(),
{
    if lines.len() == 0 {
        Seq::empty()
    } else {
        client_part(lines.drop_last(), client_id) + if keeps_line(lines.last()) {
            combined_line(lines.last(), client_id) + "\n"@
        } else {
            Seq::empty()
        }
    }
}

/// The suites of all clients, in order; each client is (ID, document).
pub open spec fn clients_part(cs: Seq<(Seq<char>, Seq<char>)>) -> Seq<char>
    decreases cs.len(),
{
    if cs.len() == 0 {
        Seq::empty()
    } else {
        clients_part(cs.drop_last()) + client_part(lines_spec(cs.last().1), cs.last().0)
    }
}

/// The (ID, document) pairs as character sequences.
pub open spec fn client_docs(v: Seq<(String, String)>) -> Seq<(Seq<char>, Seq<char>)> {
    Seq::new(v.len(), |i: int| (v[i].0@, v[i].1@))
}

/// One JUnit document holding the suites of several clients' documents.
pub open spec fn combined_document(cs: Seq<(Seq<char>, Seq<char>)>) -> Seq<char> {
    "<?xml version=\"1.0\" encoding=\"UTF-8\"?>\n"@ + "<testsuites>\n"@ + clients_part(cs)
        + "</testsuites>\n"@
}

/// Appends the suite lines of one client's document.
fn push_client_part(out: &mut String, client_id: &str, doc: &str)
    ensures
        final(out)@ == old(out)@ + client_part(lines_spec(doc@), client_id@),
{
    let lines = split_lines(doc);
    let ghost lv = views_of(lines@);
    let esc = escape_xml(client_id);
    let mut to = String::from_str("<testsuite name=\"");
    to.append(esc.as_str());
    to.append("/");
    let mut k: usize = 0;
    while k < lines.len()
        invariant
            k <= lines@.len(),
            lv == views_of(lines@),
            lv == lines_spec(doc@),
            to@ == suite_tag() + escape_spec(client_id@) + "/"@,
            out@ == old(out)@ + client_part(lv.subrange(0, k as int), client_id@),
        decreases lines@.len() - k,
    {
        let line = lines[k].as_str();
        assert(line@ == lv[k as int]);
        let ghost next = lv.subrange(0, k + 1);
        assert(next.drop_last() =~= lv.subrange(0, k as int));
        assert(next.last() == line@);
        let t = trim(line);
        let skip = starts_with(t, "<?xml") || str_eq(t, "<testsuites>") || str_eq(t, "</testsuites>");
        if !skip {
            if starts_with(t, "<testsuite name=\"") {
                proof {
                    reveal_strlit("<testsuite name=\"");
                    assert("<testsuite name=\""@.len() > 0);
                }
                let rewritten = replace_first(line, "<testsuite name=\"", to.as_str());
                out.append(rewritten.as_str());
            } else {
                out.append(line);
            }
            out.append("\n");
        }
        k = k + 1;
        assert(out@ =~= old(out)@ + client_part(next, client_id@));
    }
    assert(lv.subrange(0, lines@.len() as int) =~= lv);
}

/// Combines per-client JUnit documents into one: each client's suite,
/// with its name prefixed by the escaped client ID and `/`, inside one
/// `testsuites` element.
pub fn combine_junit_documents(clients: &[(String, String)]) -> (r: String)
    ensures
        r@ == combined_document(client_docs(clients@)),
{
    let ghost cd = client_docs(clients@);
    let mut out = String::from_str("<?xml version=\"1.0\" encoding=\"UTF-8\"?>\n");
    out.append("<testsuites>\n");
    let ghost head = out@;
    let mut i: usize = 0;
    while i < clients.len()
        invariant
            i <= clients@.len(),
            cd == client_docs(clients@),
            out@ == head + clients_part(cd.subrange(0, i as int)),
        decreases clients@.len() - i,
    {
        let ghost next = cd.subrange(0, i + 1);
        assert(next.drop_last() =~= cd.subrange(0, i as int));
        assert(next.last() == (clients@[i as int].0@, clients@[i as int].1@));
        push_client_part(&mut out, clients[i].0.as_str(), clients[i].1.as_str());
        i = i + 1;
        assert(out@ =~= head + clients_part(next));
    }
    assert(cd.subrange(0, clients@.len() as int) =~= cd);
    out.append("</testsuites>\n");
    assert(out@ =~= combined_document(cd));
    out
}

} // verus!
