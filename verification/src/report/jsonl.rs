//! Per-packet records for JSON-lines export, and the line framing of the
//! export: one record's JSON text per line. The JSON text of a record is
//! produced, and the bytes written out, by the binary.

use vstd::prelude::*;

verus! {

/// One received packet, as exported line by line.
#[derive(Debug, Clone, Copy, PartialEq, Eq, Structural)]
pub struct PacketRecord {
    pub stream: u8,
    pub seq: u32,
    pub send_ts_ns: u128,
    pub recv_ts_ns: u128,
    pub size: u32,
    pub latency_ns: i128,
}

/// The line feed that ends every exported line.
pub const LINE_FEED: u8 = 10;

/// The export of records given as JSON texts, in order: each text followed
/// by a line feed.
pub open spec fn framed_lines(records: Seq<Seq<u8>>) -> Seq<u8>
    decreases records.len(),
{
    if records.len() == 0 {
        Seq::empty()
    } else {
        framed_lines(records.drop_last()) + records.last() + seq![LINE_FEED]
    }
}

/// Number of line feeds in `b`.
pub open spec fn line_feeds(b: Seq<u8>) -> nat
    decreases b.len(),
{
    if b.len() == 0 {
        0
    } else {
        line_feeds(b.drop_last()) + if b.last() == LINE_FEED {
            1nat
        } else {
            0nat
        }
    }
}

proof fn lemma_line_feeds_add(a: Seq<u8>, b: Seq<u8>)
    ensures
        line_feeds(a + b) == line_feeds(a) + line_feeds(b),
    decreases b.len(),
{
    if b.len() > 0 {
        lemma_line_feeds_add(a, b.drop_last());
        assert((a + b).drop_last() =~= a + b.drop_last());
        assert((a + b).last() == b.last());
    } else {
        assert(a + b =~= a);
    }
}

proof fn lemma_no_line_feed(b: Seq<u8>)
    requires
        !b.contains(LINE_FEED),
    ensures
        line_feeds(b) == 0,
    decreases b.len(),
{
    if b.len() > 0 {
        assert(!b.drop_last().contains(LINE_FEED)) by {
            if b.drop_last().contains(LINE_FEED) {
                let i = choose|i: int| 0 <= i < b.drop_last().len() && b.drop_last()[i] == LINE_FEED;
                assert(b[i] == LINE_FEED);
            }
        }
        lemma_no_line_feed(b.drop_last());
        assert(b[b.len() - 1] == b.last());
    }
}

/// Every record is exactly one line of the export: when no record's JSON
/// text holds a line feed, the export holds one line feed per record, and
/// it ends with one when any record was written.
pub proof fn lemma_one_line_per_record(records: Seq<Seq<u8>>)
    requires
        forall|i: int| 0 <= i < records.len() ==> !(#[trigger] records[i]).contains(LINE_FEED),
    ensures
        line_feeds(framed_lines(records)) == records.len(),
        records.len() > 0 ==> framed_lines(records).last() == LINE_FEED,
    decreases records.len(),
{
    if records.len() > 0 {
        let t = records.drop_last();
        assert forall|i: int| 0 <= i < t.len() implies !(#[trigger] t[i]).contains(LINE_FEED) by {
            assert(t[i] == records[i]);
        }
        lemma_one_line_per_record(t);
        let last = records.len() - 1;
        assert(records[last] == records.last());
        lemma_no_line_feed(records.last());
        lemma_line_feeds_add(framed_lines(t), records.last());
        lemma_line_feeds_add(framed_lines(t) + records.last(), seq![LINE_FEED]);
        assert(line_feeds(seq![LINE_FEED]) == 1) by {
            let one = seq![LINE_FEED];
            assert(one.drop_last() =~= Seq::<u8>::empty());
            assert(one.last() == LINE_FEED);
            assert(line_feeds(one.drop_last()) == 0);
        }
    }
}

/// The line framing of a JSON-lines export: the lines written and not yet
/// flushed.
pub struct JsonlWriter {
    pending: Vec<u8>,
}

impl JsonlWriter {
    /// The bytes written and not yet flushed.
    pub closed spec fn pending(&self) -> Seq<u8> {
        self.pending@
    }

    pub fn new() -> (r: Self)
        ensures
            r.pending() == Seq::<u8>::empty(),
    {
        JsonlWriter { pending: Vec::new() }
    }

    /// Writes one record, given as its JSON text, as one line.
    pub fn write_record(&mut self, json: &[u8])
        ensures
            final(self).pending() == old(self).pending() + json@ + seq![LINE_FEED],
    {
        let mut i: usize = 0;
        while i < json.len()
            invariant
                i <= json@.len(),
                self.pending@ == old(self).pending@ + json@.subrange(0, i as int),
            decreases json@.len() - i,
        {
            self.pending.push(json[i]);
            i = i + 1;
            assert(self.pending@ =~= old(self).pending@ + json@.subrange(0, i as int));
        }
        assert(json@.subrange(0, json@.len() as int) =~= json@);
        self.pending.push(LINE_FEED);
    }

    /// Hands over the bytes written since the last flush, to be written
    /// out, and starts afresh.
    pub fn flush(&mut self) -> (r: Vec<u8>)
        ensures
            r@ == old(self).pending(),
            final(self).pending() == Seq::<u8>::empty(),
    {
        let mut out: Vec<u8> = Vec::new();
        std::mem::swap(&mut out, &mut self.pending);
        out
    }
}

} // verus!
