//! Per-second buckets of received traffic: which second of the test a
//! packet falls in, and the bytes and packets of every second.

use vstd::prelude::*;

verus! {

/// Nanoseconds in one second.
pub const NS_PER_SEC: u128 = 1_000_000_000;

/// Bytes and packets received in one second of the test.
#[derive(Debug, Clone, Copy, PartialEq, Eq, Structural)]
pub struct SecondTotals {
    pub bytes: u64,
    pub packets: u64,
}

/// An empty second.
pub open spec fn no_traffic() -> SecondTotals {
    SecondTotals { bytes: 0, packets: 0 }
}

/// The second of the test, counted from 0 at `start`, that time `t` falls
/// in; times before the start count as second 0.
pub open spec fn second_of(start: u128, t: u128) -> nat {
    if t >= start {
        ((t - start) as nat / NS_PER_SEC as nat) as nat
    } else {
        0
    }
}

/// Seconds are whole seconds since the start: a time `t` at or after the
/// start falls in second `k` exactly when `k` seconds have passed since
/// the start and `k + 1` have not, so every time within the first second
/// after the start falls in second 0; times before the start also count
/// as second 0.
pub proof fn lemma_second_of_bounds(start: u128, t: u128, k: nat)
    ensures
        t >= start ==> (second_of(start, t) == k <==> k * NS_PER_SEC <= t - start < (k + 1)
            * NS_PER_SEC),
        t < start ==> second_of(start, t) == 0,
        start <= t < start + NS_PER_SEC ==> second_of(start, t) == 0,
{
    if t >= start {
        let e = (t - start) as nat;
        let q = e / NS_PER_SEC as nat;
        assert(q * NS_PER_SEC <= e < (q + 1) * NS_PER_SEC) by (nonlinear_arith)
            requires
                q == e / 1_000_000_000nat,
                NS_PER_SEC == 1_000_000_000,
        ;
        if k * NS_PER_SEC <= e && e < (k + 1) * NS_PER_SEC {
            assert(k == q) by (nonlinear_arith)
                requires
                    k * 1_000_000_000 <= e < (k + 1) * 1_000_000_000,
                    q * 1_000_000_000 <= e < (q + 1) * 1_000_000_000,
            ;
        }
    }
}

/// The totals of second `i`; an empty second beyond the recorded ones.
pub open spec fn totals_at(s: Seq<SecondTotals>, i: int) -> SecondTotals {
    if 0 <= i < s.len() {
        s[i]
    } else {
        no_traffic()
    }
}

/// The seconds after one packet of `bytes` bytes was counted in second
/// `k`: the seconds up to `k` exist (empty ones added), and second `k`
/// gains the bytes and one packet.
pub open spec fn add_to_second(s: Seq<SecondTotals>, k: nat, bytes: u64) -> Seq<SecondTotals> {
    let len = if s.len() > k {
        s.len()
    } else {
        k + 1
    };
    Seq::new(
        len,
        |i: int|
            if i == k {
                SecondTotals {
                    bytes: (totals_at(s, i).bytes + bytes) as u64,
                    packets: (totals_at(s, i).packets + 1) as u64,
                }
            } else {
                totals_at(s, i)
            },
    )
}

/// Bytes over all seconds.
pub open spec fn sum_bytes(s: Seq<SecondTotals>) -> nat
    decreases s.len(),
{
    if s.len() == 0 {
        0
    } else {
        sum_bytes(s.drop_last()) + s.last().bytes as nat
    }
}

/// Packets over all seconds.
pub open spec fn sum_packets(s: Seq<SecondTotals>) -> nat
    decreases s.len(),
{
    if s.len() == 0 {
        0
    } else {
        sum_packets(s.drop_last()) + s.last().packets as nat
    }
}

/// The per-second totals, with the time of the first packet.
pub struct TimeSeriesView {
    pub start_ns: Option<u128>,
    pub seconds: Seq<SecondTotals>,
}

/// Counts received traffic per second of the test.
pub struct TimeSeriesCounters {
    start_ns: Option<u128>,
    seconds: Vec<SecondTotals>,
}

proof fn lemma_sums_extend(s: Seq<SecondTotals>, n: nat)
    ensures
        sum_bytes(Seq::new(s.len() + n, |i: int| totals_at(s, i))) == sum_bytes(s),
        sum_packets(Seq::new(s.len() + n, |i: int| totals_at(s, i))) == sum_packets(s),
    decreases n,
{
    let e = Seq::new(s.len() + n, |i: int| totals_at(s, i));
    if n == 0 {
        assert(e =~= s);
    } else {
        lemma_sums_extend(s, (n - 1) as nat);
        assert(e.drop_last() =~= Seq::new(s.len() + (n - 1) as nat, |i: int| totals_at(s, i)));
        assert(e.last() == no_traffic());
    }
}

proof fn lemma_sums_update(s: Seq<SecondTotals>, k: int, v: SecondTotals)
    requires
        0 <= k < s.len(),
    ensures
        sum_bytes(s.update(k, v)) + s[k].bytes == sum_bytes(s) + v.bytes,
        sum_packets(s.update(k, v)) + s[k].packets == sum_packets(s) + v.packets,
    decreases s.len(),
{
    let u = s.update(k, v);
    if k == s.len() - 1 {
        assert(u.drop_last() =~= s.drop_last());
    } else {
        lemma_sums_update(s.drop_last(), k, v);
        assert(u.drop_last() =~= s.drop_last().update(k, v));
    }
}

/// Counting a packet in a second adds its bytes, and one packet, to the
/// totals over all seconds: nothing counted is lost or counted twice.
pub proof fn lemma_totals_add_up(s: Seq<SecondTotals>, k: nat, bytes: u64)
    requires
        totals_at(s, k as int).bytes + bytes <= u64::MAX,
        totals_at(s, k as int).packets < u64::MAX,
    ensures
        sum_bytes(add_to_second(s, k, bytes)) == sum_bytes(s) + bytes,
        sum_packets(add_to_second(s, k, bytes)) == sum_packets(s) + 1,
{
    let len = if s.len() > k {
        s.len()
    } else {
        k + 1
    };
    let n = (len - s.len()) as nat;
    let padded = Seq::new(s.len() + n, |i: int| totals_at(s, i));
    lemma_sums_extend(s, n);
    let v = SecondTotals {
        bytes: (totals_at(s, k as int).bytes + bytes) as u64,
        packets: (totals_at(s, k as int).packets + 1) as u64,
    };
    assert(padded[k as int] == totals_at(s, k as int));
    lemma_sums_update(padded, k as int, v);
    assert(add_to_second(s, k, bytes) =~= padded.update(k as int, v));
}

impl TimeSeriesCounters {
    /// The per-second totals.
    pub closed spec fn view(&self) -> TimeSeriesView {
        TimeSeriesView { start_ns: self.start_ns, seconds: self.seconds@ }
    }

    /// No traffic counted yet.
    pub fn new() -> (r: Self)
        ensures
            r.view().start_ns is None,
            r.view().seconds == Seq::<SecondTotals>::empty(),
    {
        TimeSeriesCounters { start_ns: None, seconds: Vec::new() }
    }

    /// Counts a packet of `bytes` bytes received at `timestamp_ns` and
    /// returns the second it falls in. The first packet's time is the
    /// start of second 0.
    pub fn record(&mut self, timestamp_ns: u128, bytes: u64) -> (r: usize)
        requires
            ({
                let start = match old(self).view().start_ns {
                    Some(s) => s,
                    None => timestamp_ns,
                };
                let k = second_of(start, timestamp_ns);
                &&& k < usize::MAX
                &&& totals_at(old(self).view().seconds, k as int).bytes + bytes <= u64::MAX
                &&& totals_at(old(self).view().seconds, k as int).packets < u64::MAX
            }),
        ensures
            ({
                let start = match old(self).view().start_ns {
                    Some(s) => s,
                    None => timestamp_ns,
                };
                &&& final(self).view().start_ns == Some(start)
                &&& r == second_of(start, timestamp_ns)
                &&& timestamp_ns >= start ==> r * NS_PER_SEC <= timestamp_ns - start < (r + 1)
                    * NS_PER_SEC
                &&& final(self).view().seconds == add_to_second(
                    old(self).view().seconds,
                    r as nat,
                    bytes,
                )
            }),
    {
        let start = match self.start_ns {
            Some(s) => s,
            None => timestamp_ns,
        };
        self.start_ns = Some(start);
        let elapsed = timestamp_ns.saturating_sub(start);
        let secs = elapsed / NS_PER_SEC;
        assert(secs == second_of(start, timestamp_ns));
        proof {
            lemma_second_of_bounds(start, timestamp_ns, secs as nat);
        }
        let idx = secs as usize;
        assert(idx == secs);
        let ghost old_seconds = old(self).seconds@;
        while self.seconds.len() <= idx
            invariant
                idx < usize::MAX,
                self.start_ns == Some(start),
                old_seconds.len() <= self.seconds@.len() <= if old_seconds.len() > idx {
                    old_seconds.len() as int
                } else {
                    idx + 1
                },
                forall|i: int| 0 <= i < self.seconds@.len() ==> self.seconds@[i] == totals_at(
                    old_seconds,
                    i,
                ),
            decreases idx + 1 - self.seconds@.len(),
        {
            self.seconds.push(SecondTotals { bytes: 0, packets: 0 });
        }
        let cur = self.seconds[idx];
        assert(cur == totals_at(old_seconds, idx as int));
        self.seconds.set(idx, SecondTotals { bytes: cur.bytes + bytes, packets: cur.packets + 1 });
        assert(self.seconds@ =~= add_to_second(old_seconds, idx as nat, bytes));
        idx
    }

    /// The time of the first packet, once one was counted.
    pub fn start_ns(&self) -> (r: Option<u128>)
        ensures
            r == self.view().start_ns,
    {
        self.start_ns
    }

    /// The totals of every second so far, from second 0.
    pub fn seconds(&self) -> (r: &[SecondTotals])
        ensures
            r@ == self.view().seconds,
    {
        self.seconds.as_slice()
    }
}

} // verus!
