//! Packet loss and reordering from sequence numbers.

use vstd::prelude::*;

use crate::traffic::packet::{is_seq_wrap, seq_wraps};

verus! {

/// Tracks packet loss and reordering from sequence numbers.
pub struct LossTracker {
    highest_seq: Option<u32>,
    received: u64,
    reordered: u64,
    duplicates: u64,
}

/// The counters of a loss tracker.
pub struct LossView {
    pub highest_seq: Option<u32>,
    pub received: nat,
    pub reordered: nat,
    pub duplicates: nat,
}

/// How a tracker's counters change when a packet with sequence number
/// `seq` arrives: a first packet or one ahead of the highest so far (also
/// across a wrap-around) becomes the highest; one behind it counts as
/// reordered; one equal to it counts as a duplicate.
pub open spec fn loss_step(v: LossView, seq: u32) -> LossView {
    let received = v.received + 1;
    match v.highest_seq {
        None => LossView { highest_seq: Some(seq), received, ..v },
        Some(h) => if seq_wraps(h, seq) || seq > h {
            LossView { highest_seq: Some(seq), received, ..v }
        } else if seq < h {
            LossView { received, reordered: v.reordered + 1, ..v }
        } else {
            LossView { received, duplicates: v.duplicates + 1, ..v }
        },
    }
}

/// Packets presumed lost: one past the highest sequence number seen, less
/// the packets received, and never below zero.
pub open spec fn lost_estimate(v: LossView) -> nat {
    match v.highest_seq {
        None => 0,
        Some(h) => if h + 1 > v.received {
            (h + 1 - v.received) as nat
        } else {
            0
        },
    }
}

/// The counters after replaying a sequence of arrivals.
pub open spec fn replay(v: LossView, seqs: Seq<u32>) -> LossView
    decreases seqs.len(),
{
    if seqs.len() == 0 {
        v
    } else {
        loss_step(replay(v, seqs.drop_last()), seqs.last())
    }
}

/// The counters of a fresh tracker.
pub open spec fn fresh_loss() -> LossView {
    LossView { highest_seq: None, received: 0, reordered: 0, duplicates: 0 }
}

/// Packets that arrive in strictly increasing order (no wrap) are never
/// counted as reordered or duplicate, and all but the gaps are accounted
/// for: the highest is the last, and the estimate of lost packets is the
/// number of sequence numbers skipped from 0 up to it.
pub proof fn lemma_in_order_arrivals(seqs: Seq<u32>)
    requires
        seqs.len() > 0,
        forall|i: int, j: int| 0 <= i < j < seqs.len() ==> seqs[i] < seqs[j],
    ensures
        replay(fresh_loss(), seqs).reordered == 0,
        replay(fresh_loss(), seqs).duplicates == 0,
        replay(fresh_loss(), seqs).received == seqs.len(),
        replay(fresh_loss(), seqs).highest_seq == Some(seqs.last()),
        lost_estimate(replay(fresh_loss(), seqs)) == seqs.last() + 1 - seqs.len(),
    decreases seqs.len(),
{
    let t = seqs.drop_last();
    assert(replay(fresh_loss(), seqs) == loss_step(replay(fresh_loss(), t), seqs.last()));
    if t.len() > 0 {
        lemma_in_order_arrivals(t);
        assert(t.last() == seqs[seqs.len() - 2]);
        assert(t.last() < seqs.last());
    } else {
        assert(replay(fresh_loss(), t) == fresh_loss());
    }
    lemma_increasing_bound(seqs);
}

proof fn lemma_increasing_bound(seqs: Seq<u32>)
    requires
        seqs.len() > 0,
        forall|i: int, j: int| 0 <= i < j < seqs.len() ==> seqs[i] < seqs[j],
    ensures
        seqs.last() + 1 >= seqs.len(),
    decreases seqs.len(),
{
    let t = seqs.drop_last();
    if t.len() > 0 {
        lemma_increasing_bound(t);
        assert(t.last() == seqs[seqs.len() - 2]);
    }
}

/// The largest of a non-empty sequence of sequence numbers.
pub open spec fn seq_max(seqs: Seq<u32>) -> u32
    decreases seqs.len(),
{
    if seqs.len() <= 1 {
        seqs[0]
    } else if seqs.last() > seq_max(seqs.drop_last()) {
        seqs.last()
    } else {
        seq_max(seqs.drop_last())
    }
}

proof fn lemma_seq_max(seqs: Seq<u32>)
    requires
        seqs.len() > 0,
    ensures
        seqs.contains(seq_max(seqs)),
        forall|i: int| 0 <= i < seqs.len() ==> seqs[i] <= seq_max(seqs),
    decreases seqs.len(),
{
    if seqs.len() > 1 {
        let t = seqs.drop_last();
        lemma_seq_max(t);
        let j = choose|j: int| 0 <= j < t.len() && t[j] == seq_max(t);
        assert(seqs[j] == t[j]);
        assert(seqs[seqs.len() - 1] == seqs.last());
        assert forall|i: int| 0 <= i < seqs.len() implies seqs[i] <= seq_max(seqs) by {
            if i < seqs.len() - 1 {
                assert(seqs[i] == t[i]);
            }
        }
    } else {
        assert(seqs[0] == seqs[0]);
    }
}

proof fn lemma_unwrapped_arrivals(seqs: Seq<u32>)
    requires
        seqs.len() > 0,
        forall|i: int| 0 <= i < seqs.len() ==> #[trigger] seqs[i] <= 0x7FFF_FFFF,
    ensures
        replay(fresh_loss(), seqs).highest_seq == Some(seq_max(seqs)),
        replay(fresh_loss(), seqs).received == seqs.len(),
    decreases seqs.len(),
{
    let t = seqs.drop_last();
    assert(seqs[seqs.len() - 1] == seqs.last());
    assert(replay(fresh_loss(), seqs) == loss_step(replay(fresh_loss(), t), seqs.last()));
    if t.len() > 0 {
        assert forall|i: int| 0 <= i < t.len() implies #[trigger] t[i] <= 0x7FFF_FFFF by {
            assert(t[i] == seqs[i]);
        }
        lemma_unwrapped_arrivals(t);
        lemma_seq_max(t);
        let m = choose|m: int| 0 <= m < t.len() && t[m] == seq_max(t);
        assert(seq_max(t) <= 0x7FFF_FFFF);
        assert(!seq_wraps(seq_max(t), seqs.last()));
    } else {
        assert(replay(fresh_loss(), t) == fresh_loss());
        assert(seqs[0] == seqs.last());
    }
}

/// Reordering loses nothing: when every sequence number below `n` arrives,
/// in any order and with any duplicates, and no other, no packet is
/// counted as lost (sequence numbers below 2^31 never look wrapped).
pub proof fn lemma_complete_arrivals_lose_nothing(seqs: Seq<u32>, n: nat)
    requires
        0 < n <= 0x8000_0000,
        forall|k: u32| k < n ==> seqs.contains(k),
        forall|i: int| 0 <= i < seqs.len() ==> #[trigger] seqs[i] < n,
    ensures
        replay(fresh_loss(), seqs).highest_seq == Some((n - 1) as u32),
        replay(fresh_loss(), seqs).received == seqs.len(),
        lost_estimate(replay(fresh_loss(), seqs)) == 0,
{
    let top = (n - 1) as u32;
    assert(seqs.contains(top));
    lemma_unwrapped_arrivals(seqs);
    lemma_seq_max(seqs);
    let j = choose|j: int| 0 <= j < seqs.len() && seqs[j] == top;
    assert(seqs[j] <= seq_max(seqs));
    let m = choose|m: int| 0 <= m < seqs.len() && seqs[m] == seq_max(seqs);
    assert(seqs[m] < n);
    // Each number below n occurs at some distinct position, so at least n packets came.
    lemma_covers_len(seqs, n);
}

/// A sequence that holds every number below `n` has at least `n` items.
proof fn lemma_covers_len(seqs: Seq<u32>, n: nat)
    requires
        n <= 0x1_0000_0000,
        forall|k: u32| k < n ==> seqs.contains(k),
    ensures
        seqs.len() >= n,
{
    let wanted = Set::new(|k: u32| k < n);
    assert(wanted.subset_of(seqs.to_set()));
    lemma_below_n_len(n);
    vstd::set_lib::lemma_len_subset(wanted, seqs.to_set());
    seqs.lemma_cardinality_of_set();
}

proof fn lemma_below_n_len(n: nat)
    requires
        n <= 0x1_0000_0000,
    ensures
        Set::new(|k: u32| k < n).finite(),
        Set::new(|k: u32| k < n).len() == n,
    decreases n,
{
    if n == 0 {
        assert(Set::new(|k: u32| k < n) =~= Set::<u32>::empty());
    } else {
        lemma_below_n_len((n - 1) as nat);
        let top = (n - 1) as u32;
        assert(Set::new(|k: u32| k < n) =~= Set::new(|k: u32| k < (n - 1) as nat).insert(top));
    }
}

impl LossTracker {
    /// The tracker's counters.
    pub closed spec fn view(&self) -> LossView {
        LossView {
            highest_seq: self.highest_seq,
            received: self.received as nat,
            reordered: self.reordered as nat,
            duplicates: self.duplicates as nat,
        }
    }

    /// Well-formedness: only received packets are counted as reordered or
    /// duplicate, and a highest sequence number exists once a packet came.
    pub closed spec fn wf(&self) -> bool {
        &&& self.reordered + self.duplicates <= self.received
        &&& (self.highest_seq is None <==> self.received == 0)
    }

    pub fn new() -> (r: Self)
        ensures
            r.wf(),
            r.view() == fresh_loss(),
    {
        LossTracker { highest_seq: None, received: 0, reordered: 0, duplicates: 0 }
    }

    /// Records a received packet's sequence number.
    pub fn record(&mut self, seq: u32)
        requires
            old(self).wf(),
            old(self).view().received < u64::MAX,
        ensures
            final(self).wf(),
            final(self).view() == loss_step(old(self).view(), seq),
    {
        let received = self.received + 1;
        match self.highest_seq {
            None => {
                *self = LossTracker { highest_seq: Some(seq), received, ..*self };
            },
            Some(highest) => {
                if is_seq_wrap(highest, seq) {
                    *self = LossTracker { highest_seq: Some(seq), received, ..*self };
                } else if seq > highest {
                    *self = LossTracker { highest_seq: Some(seq), received, ..*self };
                } else if seq < highest {
                    *self = LossTracker { received, reordered: self.reordered + 1, ..*self };
                } else {
                    *self = LossTracker { received, duplicates: self.duplicates + 1, ..*self };
                }
            },
        }
    }

    /// Total packets received.
    pub fn received(&self) -> (r: u64)
        ensures
            r == self.view().received,
    {
        self.received
    }

    /// Packets detected as out of order.
    pub fn reordered(&self) -> (r: u64)
        ensures
            r == self.view().reordered,
    {
        self.reordered
    }

    /// The highest sequence number seen so far, if any packet came.
    pub fn highest_seq(&self) -> (r: Option<u32>)
        ensures
            r == self.view().highest_seq,
    {
        self.highest_seq
    }

    /// Estimated packets lost, from the highest sequence number seen.
    /// Wraps are handled, but late arrivals after a wrap may inflate it.
    pub fn estimated_lost(&self) -> (r: u64)
        ensures
            r == lost_estimate(self.view()),
    {
        match self.highest_seq {
            None => 0,
            Some(highest) => {
                let expected = highest as u64 + 1;
                expected.saturating_sub(self.received)
            },
        }
    }
}

impl Default for LossTracker {
    fn default() -> (r: Self)
        ensures
            r.wf(),
            r.view() == fresh_loss(),
    {
        Self::new()
    }
}

} // verus!
