use vstd::prelude::*;

use crate::sample::{age, Sample, DEFAULT_RETENTION_MS};
use std::collections::VecDeque;

verus! {

/// What is left of `s` once samples are dropped from its front for as long as
/// the front one is older than `retention` milliseconds as seen from `now`.
pub open spec fn evict_stale(s: Seq<Sample>, now: u64, retention: u64) -> Seq<Sample>
    decreases s.len(),
{
    if s.len() > 0 && age(now, s[0].timestamp_ms) > retention {
        evict_stale(s.drop_first(), now, retention)
    } else {
        s
    }
}

/// The window after `x` is appended and stale samples are evicted; ages are
/// measured from the timestamp of `x`, never from a wall clock.
pub open spec fn after_insert(s: Seq<Sample>, x: Sample, retention: u64) -> Seq<Sample> {
    evict_stale(s.push(x), x.timestamp_ms, retention)
}

/// Timestamps never decrease from the front to the back.
pub open spec fn is_ordered(s: Seq<Sample>) -> bool {
    forall|i: int, j: int| 0 <= i <= j < s.len() ==> s[i].timestamp_ms <= s[j].timestamp_ms
}

/// Every sample of `s` lies within `retention` of the timestamp `now`.
pub open spec fn within_retention(s: Seq<Sample>, now: u64, retention: u64) -> bool {
    forall|i: int| 0 <= i < s.len() ==> age(now, #[trigger] s[i].timestamp_ms) <= retention
}

/// The time-bounded sequence of samples, oldest first.
pub struct History {
    samples: VecDeque<Sample>,
    retention_ms: u64,
}

impl View for History {
    type V = Seq<Sample>;

    closed spec fn view(&self) -> Seq<Sample> {
        self.samples@
    }
}

impl History {
    /// Span of time, in milliseconds, kept between oldest and newest sample.
    pub closed spec fn retention(&self) -> u64 {
        self.retention_ms
    }

    /// An empty history with the default retention of one minute.
    pub fn new() -> (r: History)
        ensures
            r@ == Seq::<Sample>::empty(),
            r.retention() == DEFAULT_RETENTION_MS,
    {
        History { samples: VecDeque::new(), retention_ms: DEFAULT_RETENTION_MS }
    }

    /// An empty history that keeps `retention_ms` milliseconds of samples.
    pub fn with_retention(retention_ms: u64) -> (r: History)
        ensures
            r@ == Seq::<Sample>::empty(),
            r.retention() == retention_ms,
    {
        History { samples: VecDeque::new(), retention_ms }
    }

    pub fn retention_ms(&self) -> (r: u64)
        ensures
            r == self.retention(),
    {
        self.retention_ms
    }

    pub fn len(&self) -> (r: usize)
        ensures
            r == self@.len(),
    {
        self.samples.len()
    }

    pub fn is_empty(&self) -> (r: bool)
        ensures
            r == (self@.len() == 0),
    {
        self.samples.len() == 0
    }

    /// The sample at position `i`, counted from the oldest.
    pub fn get(&self, i: usize) -> (r: Sample)
        requires
            i < self@.len(),
        ensures
            r == self@[i as int],
    {
        self.samples[i]
    }

    /// The newest sample, if any.
    pub fn latest(&self) -> (r: Option<Sample>)
        ensures
            self@.len() == 0 ==> r is None,
            self@.len() > 0 ==> r == Some(self@.last()),
    {
        let n = self.samples.len();
        if n == 0 {
            None
        } else {
            Some(self.samples[n - 1])
        }
    }

    /// Appends `sample`, then evicts from the front every sample whose age,
    /// measured from the timestamp of `sample`, exceeds the retention.
    pub fn insert(&mut self, sample: Sample)
        ensures
            final(self)@ == after_insert(old(self)@, sample, old(self).retention()),
            final(self).retention() == old(self).retention(),
    {
        let now = sample.timestamp_ms;
        self.samples.push_back(sample);
        loop
            invariant
                evict_stale(self.samples@, now, self.retention_ms) == after_insert(
                    old(self)@,
                    sample,
                    old(self).retention(),
                ),
                self.retention_ms == old(self).retention_ms,
            ensures
                self.samples@ == after_insert(old(self)@, sample, old(self).retention()),
                self.retention_ms == old(self).retention_ms,
            decreases self.samples@.len(),
        {
            if self.samples.len() == 0 {
                break;
            }
            let oldest = self.samples[0].timestamp_ms;
            let gap: u64 = if oldest <= now {
                now - oldest
            } else {
                0
            };
            if gap <= self.retention_ms {
                break;
            }
            self.samples.pop_front();
        }
    }
}

/// Eviction keeps a suffix, drops only samples older than the retention, and
/// stops at the first sample within it.
pub proof fn lemma_evict_stale_suffix(s: Seq<Sample>, now: u64, retention: u64)
    ensures
        evict_stale(s, now, retention).len() <= s.len(),
        evict_stale(s, now, retention) == s.subrange(
            s.len() - evict_stale(s, now, retention).len(),
            s.len() as int,
        ),
        forall|i: int|
            0 <= i < s.len() - evict_stale(s, now, retention).len() ==> age(
                now,
                #[trigger] s[i].timestamp_ms,
            ) > retention,
        evict_stale(s, now, retention).len() > 0 ==> age(
            now,
            evict_stale(s, now, retention)[0].timestamp_ms,
        ) <= retention,
        s.len() > 0 && age(now, s.last().timestamp_ms) <= retention ==> evict_stale(
            s,
            now,
            retention,
        ).len() > 0,
    decreases s.len(),
{
    if s.len() > 0 && age(now, s[0].timestamp_ms) > retention {
        let t = s.drop_first();
        lemma_evict_stale_suffix(t, now, retention);
        let r = evict_stale(t, now, retention);
        assert(r == s.subrange(s.len() - r.len(), s.len() as int));
        assert forall|i: int| 0 <= i < s.len() - r.len() implies age(
            now,
            #[trigger] s[i].timestamp_ms,
        ) > retention by {
            if i > 0 {
                assert(s[i] == t[i - 1]);
            }
        }
        if s.len() > 1 {
            assert(t.last() == s.last());
        }
    } else {
        assert(s == s.subrange(0, s.len() as int));
    }
}

/// Window bound: inserting into an ordered history a sample no older than its
/// newest one keeps the history ordered and non-empty, leaves the new sample
/// last, keeps every retained sample within the retention of it (so the gap
/// between newest and oldest is at most the retention), and evicts exactly a
/// prefix of samples that were all older than that.
pub proof fn lemma_window_bound(s: Seq<Sample>, x: Sample, retention: u64)
    requires
        is_ordered(s),
        s.len() > 0 ==> s.last().timestamp_ms <= x.timestamp_ms,
    ensures
        is_ordered(after_insert(s, x, retention)),
        after_insert(s, x, retention).len() > 0,
        after_insert(s, x, retention).last() == x,
        within_retention(after_insert(s, x, retention), x.timestamp_ms, retention),
        x.timestamp_ms - after_insert(s, x, retention)[0].timestamp_ms <= retention,
        after_insert(s, x, retention) == s.push(x).subrange(
            s.push(x).len() - after_insert(s, x, retention).len(),
            s.push(x).len() as int,
        ),
        forall|i: int|
            0 <= i < s.push(x).len() - after_insert(s, x, retention).len() ==> age(
                x.timestamp_ms,
                #[trigger] s.push(x)[i].timestamp_ms,
            ) > retention,
{
    let p = s.push(x);
    let now = x.timestamp_ms;
    assert(is_ordered(p)) by {
        assert forall|i: int, j: int| 0 <= i <= j < p.len() implies p[i].timestamp_ms
            <= p[j].timestamp_ms by {
            if j == p.len() - 1 && i < j {
                assert(s[i].timestamp_ms <= s.last().timestamp_ms);
            }
        }
    }
    assert(p.last() == x);
    lemma_evict_stale_suffix(p, now, retention);
    let r = evict_stale(p, now, retention);
    let k = p.len() - r.len();
    assert forall|i: int| 0 <= i < r.len() implies age(now, #[trigger] r[i].timestamp_ms)
        <= retention by {
        assert(r[i] == p[k + i]);
        assert(r[0] == p[k]);
        assert(p[k].timestamp_ms <= p[k + i].timestamp_ms);
        assert(p[k + i].timestamp_ms <= p.last().timestamp_ms);
    }
    assert(r.last() == p.last());
    assert forall|i: int, j: int| 0 <= i <= j < r.len() implies r[i].timestamp_ms
        <= r[j].timestamp_ms by {
        assert(r[i] == p[k + i]);
        assert(r[j] == p[k + j]);
    }
    assert(r[0].timestamp_ms <= now) by {
        assert(r[0] == p[k]);
        assert(p[k].timestamp_ms <= p.last().timestamp_ms);
    }
}

/// The window after inserting each sample of `xs` in turn into an empty one.
pub open spec fn window_after(xs: Seq<Sample>, retention: u64) -> Seq<Sample>
    decreases xs.len(),
{
    if xs.len() == 0 {
        Seq::empty()
    } else {
        after_insert(window_after(xs.drop_last(), retention), xs.last(), retention)
    }
}

/// Window bound over a whole run of insertions: when samples arrive in
/// timestamp order, the window after every insertion is ordered, ends with the
/// newest sample, and holds only samples within the retention of it.
pub proof fn lemma_window_bound_over_insertions(xs: Seq<Sample>, retention: u64)
    requires
        is_ordered(xs),
        xs.len() > 0,
    ensures
        is_ordered(window_after(xs, retention)),
        window_after(xs, retention).len() > 0,
        window_after(xs, retention).last() == xs.last(),
        within_retention(window_after(xs, retention), xs.last().timestamp_ms, retention),
    decreases xs.len(),
{
    let init = xs.drop_last();
    let x = xs.last();
    assert(is_ordered(init));
    if init.len() > 0 {
        lemma_window_bound_over_insertions(init, retention);
        assert(init.last().timestamp_ms <= x.timestamp_ms);
    }
    lemma_window_bound(window_after(init, retention), x, retention);
}

} // verus!
