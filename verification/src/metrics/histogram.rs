//! Latency histogram over fixed buckets, in nanoseconds: 10 µs steps up to
//! 1 ms, 100 µs steps up to 10 ms, 1 ms steps up to 100 ms, and one
//! overflow bucket above.

use vstd::prelude::*;

verus! {

/// The default bucket upper bounds, in nanoseconds, ascending.
pub open spec fn default_boundaries() -> Seq<u64> {
    Seq::new(100, |i: int| (10_000 * (i + 1)) as u64) + Seq::new(
        90,
        |i: int| (1_100_000 + 100_000 * i) as u64,
    ) + Seq::new(90, |i: int| (11_000_000 + 1_000_000 * i) as u64)
}

/// The default buckets rise strictly from 10 µs to 100 ms: 10 µs apart up
/// to 1 ms, 100 µs apart up to 10 ms, and 1 ms apart up to 100 ms.
pub proof fn lemma_default_boundaries()
    ensures
        default_boundaries().len() == 280,
        default_boundaries()[0] == 10_000,
        default_boundaries()[279] == 100_000_000,
        forall|i: int|
            0 <= i < 99 ==> #[trigger] default_boundaries()[i + 1] == default_boundaries()[i]
                + 10_000,
        forall|i: int|
            99 <= i < 189 ==> #[trigger] default_boundaries()[i + 1] == default_boundaries()[i]
                + 100_000,
        forall|i: int|
            189 <= i < 279 ==> #[trigger] default_boundaries()[i + 1] == default_boundaries()[i]
                + 1_000_000,
        forall|i: int, j: int|
            0 <= i < j < 280 ==> #[trigger] default_boundaries()[i] < #[trigger] default_boundaries()[j],
{
    let b = default_boundaries();
    assert forall|i: int| 0 <= i < 280 implies #[trigger] b[i] == if i < 100 {
        10_000 * (i + 1)
    } else if i < 190 {
        1_100_000 + 100_000 * (i - 100)
    } else {
        11_000_000 + 1_000_000 * (i - 190)
    } by {}
}

/// The bucket a latency falls in: the first whose upper bound is at least
/// the latency, or the overflow bucket after the last bound.
pub open spec fn bucket_index(bounds: Seq<u64>, latency_ns: u128) -> nat
    decreases bounds.len(),
{
    if bounds.len() == 0 {
        0
    } else if latency_ns <= bounds[0] {
        0
    } else {
        1 + bucket_index(bounds.skip(1), latency_ns)
    }
}

proof fn lemma_bucket_index(bounds: Seq<u64>, latency_ns: u128, i: int)
    requires
        0 <= i <= bounds.len(),
        forall|j: int| 0 <= j < i ==> bounds[j] < latency_ns,
        i < bounds.len() ==> latency_ns <= bounds[i],
    ensures
        bucket_index(bounds, latency_ns) == i,
    decreases i,
{
    if i > 0 {
        assert(bounds[0] < latency_ns);
        let rest = bounds.skip(1);
        assert forall|j: int| 0 <= j < i - 1 implies rest[j] < latency_ns by {
            assert(rest[j] == bounds[j + 1]);
        }
        if i < bounds.len() {
            assert(rest[i - 1] == bounds[i]);
        }
        lemma_bucket_index(rest, latency_ns, i - 1);
    }
}

/// Latency histogram: bucket upper bounds and one count per bucket plus an
/// overflow count.
pub struct LatencyHistogram {
    boundaries: Vec<u64>,
    counts: Vec<u64>,
}

impl LatencyHistogram {
    /// Upper bounds of the buckets, in nanoseconds.
    pub closed spec fn bounds(&self) -> Seq<u64> {
        self.boundaries@
    }

    /// Count per bucket, the last one for latencies above every bound.
    pub closed spec fn tallies(&self) -> Seq<u64> {
        self.counts@
    }

    /// Well-formedness: one count more than there are bounds.
    pub closed spec fn wf(&self) -> bool {
        self.counts@.len() == self.boundaries@.len() + 1
    }

    /// An empty histogram over the default buckets.
    pub fn default_buckets() -> (r: Self)
        ensures
            r.wf(),
            r.bounds() == default_boundaries(),
            r.tallies() == Seq::new(default_boundaries().len() + 1, |i: int| 0u64),
    {
        let mut boundaries: Vec<u64> = Vec::new();
        let mut b: u64 = 10_000;
        while b <= 1_000_000
            invariant
                b % 10_000 == 0,
                10_000 <= b <= 1_010_000,
                boundaries@ =~= Seq::new((b / 10_000 - 1) as nat, |i: int| (10_000 * (i + 1)) as u64),
            decreases 1_010_000 - b,
        {
            boundaries.push(b);
            b = b + 10_000;
        }
        let ghost first = boundaries@;
        assert(first =~= Seq::new(100, |i: int| (10_000 * (i + 1)) as u64));
        b = 1_100_000;
        while b <= 10_000_000
            invariant
                b % 100_000 == 0,
                1_100_000 <= b <= 10_100_000,
                boundaries@ =~= first + Seq::new(
                    ((b - 1_100_000) / 100_000) as nat,
                    |i: int| (1_100_000 + 100_000 * i) as u64,
                ),
            decreases 10_100_000 - b,
        {
            boundaries.push(b);
            b = b + 100_000;
        }
        let ghost second = boundaries@;
        assert(second =~= first + Seq::new(90, |i: int| (1_100_000 + 100_000 * i) as u64));
        b = 11_000_000;
        while b <= 100_000_000
            invariant
                b % 1_000_000 == 0,
                11_000_000 <= b <= 101_000_000,
                boundaries@ =~= second + Seq::new(
                    ((b - 11_000_000) / 1_000_000) as nat,
                    |i: int| (11_000_000 + 1_000_000 * i) as u64,
                ),
            decreases 101_000_000 - b,
        {
            boundaries.push(b);
            b = b + 1_000_000;
        }
        assert(boundaries@ =~= default_boundaries());
        let count = boundaries.len() + 1;
        let counts: Vec<u64> = vec![0u64; count];
        assert(counts@ =~= Seq::new(default_boundaries().len() + 1, |i: int| 0u64));
        LatencyHistogram { boundaries, counts }
    }

    /// The bucket a latency falls in.
    pub fn bucket_of(&self, latency_ns: u128) -> (r: usize)
        requires
            self.wf(),
        ensures
            r == bucket_index(self.bounds(), latency_ns),
            r < self.tallies().len(),
    {
        let mut i: usize = 0;
        while i < self.boundaries.len() && latency_ns > self.boundaries[i] as u128
            invariant
                i <= self.boundaries@.len(),
                forall|j: int| 0 <= j < i ==> self.boundaries@[j] < latency_ns,
            decreases self.boundaries@.len() - i,
        {
            i = i + 1;
        }
        proof {
            lemma_bucket_index(self.boundaries@, latency_ns, i as int);
        }
        i
    }

    /// Counts one latency in its bucket.
    pub fn record(&mut self, latency_ns: u128)
        requires
            old(self).wf(),
            old(self).tallies()[bucket_index(old(self).bounds(), latency_ns) as int] < u64::MAX,
        ensures
            final(self).wf(),
            final(self).bounds() == old(self).bounds(),
            final(self).tallies() == old(self).tallies().update(
                bucket_index(old(self).bounds(), latency_ns) as int,
                (old(self).tallies()[bucket_index(old(self).bounds(), latency_ns) as int] + 1) as u64,
            ),
    {
        let i = self.bucket_of(latency_ns);
        let c = self.counts[i];
        self.counts.set(i, c + 1);
    }

    /// The bucket upper bounds, in nanoseconds.
    pub fn boundaries(&self) -> (r: &[u64])
        ensures
            r@ == self.bounds(),
    {
        self.boundaries.as_slice()
    }

    /// The count of every bucket, the overflow bucket last.
    pub fn counts(&self) -> (r: &[u64])
        ensures
            r@ == self.tallies(),
    {
        self.counts.as_slice()
    }
}

/// A latency above every bound lands in the overflow bucket, and one at
/// most the first bound in the first bucket.
pub proof fn lemma_extreme_buckets(bounds: Seq<u64>, latency_ns: u128)
    ensures
        (forall|j: int| 0 <= j < bounds.len() ==> bounds[j] < latency_ns) ==> bucket_index(
            bounds,
            latency_ns,
        ) == bounds.len(),
        bounds.len() > 0 && latency_ns <= bounds[0] ==> bucket_index(bounds, latency_ns) == 0,
{
    if forall|j: int| 0 <= j < bounds.len() ==> bounds[j] < latency_ns {
        lemma_bucket_index(bounds, latency_ns, bounds.len() as int);
    }
}

} // verus!
