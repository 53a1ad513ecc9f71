use vstd::prelude::*;
use vstd::seq_lib::{to_multiset_build, to_multiset_insert};
use crate::measurement::{bit_text, MeasurementEvent};

verus! {

/// How often one bitstring was seen.
#[derive(Debug)]
pub struct BitstringCount {
    pub bitstring: String,
    pub count: usize,
}

/// The sum of the counts.
pub open spec fn sum_counts(s: Seq<BitstringCount>) -> nat
    decreases s.len(),
{
    if s.len() == 0 {
        0
    } else {
        sum_counts(s.drop_last()) + s.last().count as nat
    }
}

/// How often the bitstring `key` was seen, according to `s`.
pub open spec fn count_of(s: Seq<BitstringCount>, key: Seq<char>) -> nat
    decreases s.len(),
{
    if s.len() == 0 {
        0
    } else {
        count_of(s.drop_last(), key) + if s.last().bitstring@ == key { s.last().count as nat } else { 0 }
    }
}

/// No bitstring appears twice.
pub open spec fn distinct_keys(s: Seq<BitstringCount>) -> bool {
    forall|i: int, j: int| 0 <= i < j < s.len() ==> #[trigger] s[i].bitstring@ != #[trigger] s[j].bitstring@
}

/// Counts in non-increasing order.
pub open spec fn by_count_descending(s: Seq<BitstringCount>) -> bool {
    forall|i: int, j: int| 0 <= i < j < s.len() ==> #[trigger] s[i].count >= #[trigger] s[j].count
}

proof fn lemma_sum_update(s: Seq<BitstringCount>, i: int, e: BitstringCount)
    requires
        0 <= i < s.len(),
    ensures
        sum_counts(s.update(i, e)) == sum_counts(s) - s[i].count + e.count,
    decreases s.len(),
{
    let u = s.update(i, e);
    if i == s.len() - 1 {
        assert(u.drop_last() =~= s.drop_last());
    } else {
        assert(u.drop_last() =~= s.drop_last().update(i, e));
        lemma_sum_update(s.drop_last(), i, e);
    }
}

proof fn lemma_count_update(s: Seq<BitstringCount>, i: int, e: BitstringCount, key: Seq<char>)
    requires
        0 <= i < s.len(),
    ensures
        count_of(s.update(i, e), key) == count_of(s, key)
            - (if s[i].bitstring@ == key { s[i].count as nat } else { 0 })
            + (if e.bitstring@ == key { e.count as nat } else { 0 }),
    decreases s.len(),
{
    let u = s.update(i, e);
    if i == s.len() - 1 {
        assert(u.drop_last() =~= s.drop_last());
    } else {
        assert(u.drop_last() =~= s.drop_last().update(i, e));
        lemma_count_update(s.drop_last(), i, e, key);
    }
}

proof fn lemma_count_absent(s: Seq<BitstringCount>, key: Seq<char>)
    requires
        forall|i: int| 0 <= i < s.len() ==> #[trigger] s[i].bitstring@ != key,
    ensures
        count_of(s, key) == 0,
    decreases s.len(),
{
    if s.len() > 0 {
        lemma_count_absent(s.drop_last(), key);
    }
}

proof fn lemma_count_unique(s: Seq<BitstringCount>, i: int, key: Seq<char>)
    requires
        distinct_keys(s),
        0 <= i < s.len(),
        s[i].bitstring@ == key,
    ensures
        count_of(s, key) == s[i].count,
    decreases s.len(),
{
    let d = s.drop_last();
    if i == s.len() - 1 {
        assert forall|j: int| 0 <= j < d.len() implies #[trigger] d[j].bitstring@ != key by {
            assert(s[j].bitstring@ != s[i].bitstring@);
        }
        lemma_count_absent(d, key);
    } else {
        assert(s.last().bitstring@ != key) by {
            assert(s[i].bitstring@ != s[s.len() - 1].bitstring@);
        }
        assert(distinct_keys(d)) by {
            assert forall|a: int, b: int| 0 <= a < b < d.len() implies #[trigger] d[a].bitstring@ != #[trigger] d[b].bitstring@ by {
                assert(s[a].bitstring@ != s[b].bitstring@);
            }
        }
        lemma_count_unique(d, i, key);
    }
}

/// Folds measurement events into per-bitstring counts and says when a
/// statistics snapshot is due: every `emit_interval` events.
#[derive(Debug)]
pub struct StreamAggregator {
    bitstring_counts: Vec<BitstringCount>,
    total_count: usize,
    emit_interval: usize,
    since_last_emit: usize,
}

impl StreamAggregator {
    pub closed spec fn entries(&self) -> Seq<BitstringCount> {
        self.bitstring_counts@
    }

    pub closed spec fn total(&self) -> nat {
        self.total_count as nat
    }

    pub closed spec fn interval(&self) -> nat {
        self.emit_interval as nat
    }

    pub closed spec fn since_emit(&self) -> nat {
        self.since_last_emit as nat
    }

    /// Each bitstring is counted once, and the counts add up to the total.
    pub open spec fn wf(&self) -> bool {
        &&& distinct_keys(self.entries())
        &&& sum_counts(self.entries()) == self.total()
        &&& self.since_emit() <= self.total()
    }

    /// An aggregator that has seen nothing.
    pub fn new(emit_interval: usize) -> (r: Self)
        ensures
            r.wf(),
            r.entries().len() == 0,
            r.total() == 0,
            r.interval() == emit_interval,
            r.since_emit() == 0,
    {
        StreamAggregator { bitstring_counts: Vec::new(), total_count: 0, emit_interval, since_last_emit: 0 }
    }

    /// Counts one event under its bitstring text. Returns whether a
    /// statistics snapshot is due, which restarts the interval.
    pub fn add_measurement(&mut self, event: &MeasurementEvent) -> (due: bool)
        requires
            old(self).wf(),
            old(self).total() < usize::MAX,
        ensures
            final(self).wf(),
            final(self).total() == old(self).total() + 1,
            final(self).interval() == old(self).interval(),
            forall|key: Seq<char>| #[trigger] count_of(final(self).entries(), key) == count_of(old(self).entries(), key)
                + if key == bit_text(event.measurement_bitstring@) { 1nat } else { 0nat },
            due == (old(self).since_emit() + 1 >= old(self).interval()),
            final(self).since_emit() == (if due { 0 } else { old(self).since_emit() + 1 }),
    {
        let key = event.bitstring_as_string();
        let ghost s0 = self.bitstring_counts@;
        let mut i: usize = 0;
        while i < self.bitstring_counts.len() && !(self.bitstring_counts[i].bitstring == key)
            invariant
                self.bitstring_counts@ == s0,
                i <= s0.len(),
                forall|j: int| 0 <= j < i ==> #[trigger] s0[j].bitstring@ != key@,
            decreases s0.len() - i,
        {
            i = i + 1;
        }
        let found = i < self.bitstring_counts.len();
        proof {
            if !found {
                lemma_count_absent(s0, key@);
            }
        }
        if found {
            assert(sum_counts(s0) >= s0[i as int].count) by {
                lemma_sum_update(s0, i as int, BitstringCount { bitstring: key, count: 0 });
            }
            let c = self.bitstring_counts[i].count;
            let entry = BitstringCount { bitstring: key, count: c + 1 };
            proof {
                lemma_sum_update(s0, i as int, entry);
                assert forall|k: Seq<char>| #[trigger] count_of(s0.update(i as int, entry), k) == count_of(s0, k)
                    + if k == entry.bitstring@ { 1nat } else { 0nat } by {
                    lemma_count_update(s0, i as int, entry, k);
                }
            }
            self.bitstring_counts.set(i, entry);
            proof {
                let s1 = self.bitstring_counts@;
                assert forall|a: int, b: int| 0 <= a < b < s1.len() implies #[trigger] s1[a].bitstring@ != #[trigger] s1[b].bitstring@ by {
                    assert(s0[a].bitstring@ != s0[b].bitstring@);
                }
            }
        } else {
            let entry = BitstringCount { bitstring: key, count: 1 };
            self.bitstring_counts.push(entry);
            proof {
                let s1 = self.bitstring_counts@;
                assert(s1.drop_last() == s0);
                assert forall|k: Seq<char>| #[trigger] count_of(s1, k) == count_of(s0, k)
                    + if k == entry.bitstring@ { 1nat } else { 0nat } by {
                }
            }
        }
        self.total_count = self.total_count + 1;
        self.since_last_emit = self.since_last_emit + 1;
        if self.since_last_emit >= self.emit_interval {
            self.since_last_emit = 0;
            true
        } else {
            false
        }
    }

    /// Events seen since creation or the last reset.
    pub fn total_count(&self) -> (r: usize)
        ensures
            r == self.total(),
    {
        self.total_count
    }

    /// How often the given bitstring was seen.
    pub fn count_of(&self, bitstring: &String) -> (r: usize)
        requires
            self.wf(),
        ensures
            r == count_of(self.entries(), bitstring@),
    {
        let ghost s = self.bitstring_counts@;
        let mut i: usize = 0;
        while i < self.bitstring_counts.len()
            invariant
                self.wf(),
                self.bitstring_counts@ == s,
                i <= s.len(),
                forall|j: int| 0 <= j < i ==> #[trigger] s[j].bitstring@ != bitstring@,
            decreases s.len() - i,
        {
            if self.bitstring_counts[i].bitstring == *bitstring {
                proof {
                    lemma_count_unique(s, i as int, bitstring@);
                }
                return self.bitstring_counts[i].count;
            }
            i = i + 1;
        }
        proof {
            lemma_count_absent(s, bitstring@);
        }
        0
    }

    /// The counted bitstrings, most frequent first, cut to `limit` entries.
    /// Bitstrings seen equally often keep the order in which they were first
    /// seen.
    pub fn top_counts(&self, limit: usize) -> (r: Vec<BitstringCount>)
        requires
            self.wf(),
        ensures
            exists|full: Seq<BitstringCount>| {
                &&& full.to_multiset() == self.entries().to_multiset()
                &&& by_count_descending(full)
                &&& r@ == full.subrange(0, if limit <= full.len() { limit as int } else { full.len() as int })
            },
    {
        let ghost s = self.bitstring_counts@;
        let mut sorted: Vec<BitstringCount> = Vec::new();
        let mut i: usize = 0;
        proof {
            broadcast use vstd::multiset::group_multiset_axioms;
            assert(sorted@ =~= s.subrange(0, 0));
            assert(sorted@.to_multiset() =~= s.subrange(0, 0).to_multiset());
        }
        while i < self.bitstring_counts.len()
            invariant
                self.bitstring_counts@ == s,
                i <= s.len(),
                by_count_descending(sorted@),
                sorted@.to_multiset() == s.subrange(0, i as int).to_multiset(),
            decreases s.len() - i,
        {
            let e = BitstringCount {
                bitstring: self.bitstring_counts[i].bitstring.clone(),
                count: self.bitstring_counts[i].count,
            };
            assert(e == s[i as int]);
            let ghost q0 = sorted@;
            let mut k: usize = 0;
            while k < sorted.len() && sorted[k].count >= e.count
                invariant
                    sorted@ == q0,
                    k <= q0.len(),
                    forall|j: int| 0 <= j < k ==> #[trigger] q0[j].count >= e.count,
                decreases q0.len() - k,
            {
                k = k + 1;
            }
            proof {
                assert forall|j: int| k <= j < q0.len() implies #[trigger] q0[j].count < e.count by {
                    assert(q0[k as int].count < e.count);
                    if j > k {
                        assert(q0[k as int].count >= q0[j].count);
                    }
                }
            }
            sorted.insert(k, e);
            proof {
                let q1 = sorted@;
                assert(q1 == q0.insert(k as int, e));
                assert forall|a: int, b: int| 0 <= a < b < q1.len() implies
                    #[trigger] q1[a].count >= #[trigger] q1[b].count by {
                    if b < k {
                    } else if b == k {
                        assert(q1[a] == q0[a]);
                    } else if a < k {
                        assert(q1[a] == q0[a]);
                        assert(q1[b] == q0[b - 1]);
                    } else if a == k {
                        assert(q1[b] == q0[b - 1]);
                    } else {
                        assert(q1[a] == q0[a - 1]);
                        assert(q1[b] == q0[b - 1]);
                    }
                }
                to_multiset_insert(q0, k as int, e);
                assert(s.subrange(0, i + 1) =~= s.subrange(0, i as int).push(e));
                to_multiset_build(s.subrange(0, i as int), e);
            }
            i = i + 1;
        }
        assert(s.subrange(0, i as int) =~= s);
        let ghost full = sorted@;
        sorted.truncate(limit);
        proof {
            if limit > full.len() {
                assert(full.subrange(0, full.len() as int) =~= full);
            }
        }
        sorted
    }

    /// Forgets every count and restarts the interval.
    pub fn reset(&mut self)
        ensures
            final(self).wf(),
            final(self).entries().len() == 0,
            final(self).total() == 0,
            final(self).since_emit() == 0,
            final(self).interval() == old(self).interval(),
    {
        self.bitstring_counts.clear();
        self.total_count = 0;
        self.since_last_emit = 0;
    }
}

/// After any sequence of events the aggregator has counted each event once:
/// the counts add up to the running total, and no bitstring is counted
/// under two entries.
pub proof fn lemma_counts_sum_to_total(a: StreamAggregator)
    requires
        a.wf(),
    ensures
        sum_counts(a.entries()) == a.total(),
        distinct_keys(a.entries()),
{
}

/// How many of the events have the bitstring text `key`.
pub open spec fn events_with(events: Seq<MeasurementEvent>, key: Seq<char>) -> nat
    decreases events.len(),
{
    if events.len() == 0 {
        0
    } else {
        events_with(events.drop_last(), key) + if bit_text(events.last().measurement_bitstring@) == key { 1nat } else { 0nat }
    }
}

impl StreamAggregator {
    /// Counts a batch of events; a snapshot interval of one. After `N`
    /// events the total is `N` and the counts add up to `N`.
    pub fn from_events(events: &Vec<MeasurementEvent>) -> (r: StreamAggregator)
        ensures
            r.wf(),
            r.total() == events@.len(),
            sum_counts(r.entries()) == events@.len(),
            forall|key: Seq<char>| #[trigger] count_of(r.entries(), key) == events_with(events@, key),
    {
        let mut a = StreamAggregator::new(1);
        let mut i: usize = 0;
        while i < events.len()
            invariant
                a.wf(),
                i <= events@.len(),
                a.total() == i,
                forall|key: Seq<char>| #[trigger] count_of(a.entries(), key) == events_with(events@.subrange(0, i as int), key),
            decreases events@.len() - i,
        {
            let _due = a.add_measurement(&events[i]);
            proof {
                assert(events@.subrange(0, i + 1).drop_last() =~= events@.subrange(0, i as int));
                assert forall|key: Seq<char>| #[trigger] count_of(a.entries(), key)
                    == events_with(events@.subrange(0, i + 1), key) by {}
            }
            i = i + 1;
        }
        proof {
            assert(events@.subrange(0, i as int) =~= events@);
        }
        a
    }
}

} // verus!
