//! Reporting a batch in submission order while its jobs finish in any order.
//!
//! The jobs of a batch run overlapped, but their results are reported in the
//! order they were submitted: a finished job waits in its slot until every
//! job before it has been reported.

use vstd::prelude::*;
use crate::text::{owned, push_decimal, decimal};

verus! {

/// The slots of a batch: results that have finished but not yet been
/// reported, and how many results have been reported.
pub struct BatchOrder<R> {
    slots: Vec<Option<R>>,
    cursor: usize,
}

/// The first slot at or after `c` that holds no result (the batch size when
/// every slot from `c` on holds one).
pub open spec fn next_gap<R>(s: Seq<Option<R>>, c: int) -> int
    decreases s.len() - c,
{
    if c >= s.len() || c < 0 {
        s.len() as int
    } else if s[c] is None {
        c
    } else {
        next_gap(s, c + 1)
    }
}

/// `s` with the slots in `lo..hi` emptied.
pub open spec fn cleared<R>(s: Seq<Option<R>>, lo: int, hi: int) -> Seq<Option<R>> {
    Seq::new(s.len(), |k: int| if lo <= k < hi { None } else { s[k] })
}

/// The slots after job `i` finishes with `r`, from slots `s` of which `c`
/// have been reported: the finished run from `c` on is reported and emptied.
pub open spec fn delivered_slots<R>(s: Seq<Option<R>>, c: int, i: int, r: R) -> Seq<Option<R>> {
    let s1 = s.update(i, Some(r));
    cleared(s1, c, next_gap(s1, c))
}

/// How many jobs have been reported after job `i` finishes with `r`.
pub open spec fn delivered_count<R>(s: Seq<Option<R>>, c: int, i: int, r: R) -> int {
    next_gap(s.update(i, Some(r)), c)
}

/// The jobs reported when job `i` finishes with `r`: each with its index and
/// result, in submission order.
pub open spec fn delivered_out<R>(s: Seq<Option<R>>, c: int, i: int, r: R) -> Seq<(int, R)> {
    let s1 = s.update(i, Some(r));
    Seq::new((next_gap(s1, c) - c) as nat, |j: int| (c + j, s1[c + j]->0))
}

/// The jobs handed back at the end, from slots `s` of which `c` have been
/// reported: each unreported job with its index and its result, if any.
pub open spec fn finish_out<R>(s: Seq<Option<R>>, c: int) -> Seq<(int, Option<R>)> {
    Seq::new((s.len() - c) as nat, |j: int| (c + j, s[c + j]))
}

impl<R> BatchOrder<R> {
    /// The slots, as results waiting to be reported.
    pub closed spec fn slots(&self) -> Seq<Option<R>> {
        self.slots@
    }

    /// How many results have been reported: always the first ones submitted.
    pub closed spec fn reported(&self) -> nat {
        self.cursor as nat
    }

    /// The reported results hold no slot, and no more were reported than submitted.
    pub open spec fn wf(&self) -> bool {
        &&& self.reported() <= self.slots().len()
        &&& forall|k: int| 0 <= k < self.reported() ==> (#[trigger] self.slots()[k]) is None
    }

    /// An empty batch order for `total` jobs: nothing finished, nothing reported.
    pub fn new(total: usize) -> (r: BatchOrder<R>)
        ensures
            r.wf(),
            r.slots().len() == total,
            r.reported() == 0,
            forall|k: int| 0 <= k < total ==> (#[trigger] r.slots()[k]) is None,
    {
        let mut slots: Vec<Option<R>> = Vec::new();
        let mut i: usize = 0;
        while i < total
            invariant
                i <= total,
                slots@.len() == i,
                forall|k: int| 0 <= k < i ==> (#[trigger] slots@[k]) is None,
            decreases total - i,
        {
            slots.push(None);
            i = i + 1;
        }
        BatchOrder { slots, cursor: 0 }
    }

    /// Whether job `i` can still be delivered: it exists, has not been
    /// reported and has not finished before.
    pub fn can_deliver(&self, i: usize) -> (r: bool)
        requires
            self.wf(),
        ensures
            r == (self.reported() <= i < self.slots().len() && self.slots()[i as int] is None),
    {
        i >= self.cursor && i < self.slots.len() && self.slots[i].is_none()
    }

    /// Record that job `i` finished with `result`, and hand back every result
    /// that can now be reported, in submission order: the unbroken run of
    /// finished jobs starting at the first unreported one.
    pub fn deliver(&mut self, i: usize, result: R) -> (out: Vec<(usize, R)>)
        requires
            old(self).wf(),
            old(self).reported() <= i < old(self).slots().len(),
            old(self).slots()[i as int] is None,
        ensures
            final(self).wf(),
            final(self).slots().len() == old(self).slots().len(),
            final(self).reported() == next_gap(
                old(self).slots().update(i as int, Some(result)),
                old(self).reported() as int,
            ),
            final(self).slots() == cleared(
                old(self).slots().update(i as int, Some(result)),
                old(self).reported() as int,
                final(self).reported() as int,
            ),
            final(self).slots() == delivered_slots(
                old(self).slots(),
                old(self).reported() as int,
                i as int,
                result,
            ),
            final(self).reported() == delivered_count(
                old(self).slots(),
                old(self).reported() as int,
                i as int,
                result,
            ),
            out@.len() == delivered_out(old(self).slots(), old(self).reported() as int, i as int, result).len(),
            forall|j: int|
                0 <= j < out@.len() ==> (#[trigger] out@[j]).0 as int == delivered_out(
                    old(self).slots(),
                    old(self).reported() as int,
                    i as int,
                    result,
                )[j].0 && out@[j].1 == delivered_out(
                    old(self).slots(),
                    old(self).reported() as int,
                    i as int,
                    result,
                )[j].1,
            out@.len() == final(self).reported() - old(self).reported(),
            forall|j: int|
                0 <= j < out@.len() ==> (#[trigger] out@[j]).0 == old(self).reported() + j
                    && Some(out@[j].1) == old(self).slots().update(i as int, Some(result))[old(
                    self,
                ).reported() + j],
    {
        let ghost s1 = self.slots@.update(i as int, Some(result));
        let ghost c0 = self.cursor as int;
        let mut tmp: Option<R> = Some(result);
        self.slots.set_and_swap(i, &mut tmp);
        assert(self.slots@ =~= s1);
        let mut out: Vec<(usize, R)> = Vec::new();
        let total = self.slots.len();
        while self.cursor < total && self.slots[self.cursor].is_some()
            invariant
                total == self.slots@.len(),
                total == s1.len(),
                c0 <= self.cursor <= total,
                forall|k: int| 0 <= k < c0 ==> (#[trigger] s1[k]) is None,
                self.slots@ == cleared(s1, c0, self.cursor as int),
                next_gap(s1, c0) == next_gap(s1, self.cursor as int),
                out@.len() == self.cursor - c0,
                forall|j: int|
                    0 <= j < out@.len() ==> (#[trigger] out@[j]).0 == c0 + j && Some(out@[j].1)
                        == s1[c0 + j],
            decreases total - self.cursor,
        {
            let c = self.cursor;
            let mut taken: Option<R> = None;
            self.slots.set_and_swap(c, &mut taken);
            assert(s1[c as int] is Some);
            assert(next_gap(s1, c as int) == next_gap(s1, c + 1));
            match taken {
                Some(r) => {
                    out.push((c, r));
                },
                None => {},
            }
            self.cursor = c + 1;
            assert(self.slots@ =~= cleared(s1, c0, self.cursor as int));
        }
        proof {
            if self.cursor < total {
                assert(self.slots@[self.cursor as int] is None);
                assert(s1[self.cursor as int] is None);
            }
            assert(next_gap(s1, self.cursor as int) == self.cursor);
        }
        out
    }

    /// The jobs never reported, in submission order, each with its result if
    /// it finished (a job whose worker failed never delivers one).
    pub fn finish(self) -> (out: Vec<(usize, Option<R>)>)
        requires
            self.wf(),
        ensures
            out@.len() == finish_out(self.slots(), self.reported() as int).len(),
            forall|j: int|
                0 <= j < out@.len() ==> (#[trigger] out@[j]).0 as int == finish_out(
                    self.slots(),
                    self.reported() as int,
                )[j].0 && out@[j].1 == finish_out(self.slots(), self.reported() as int)[j].1,
            out@.len() == self.slots().len() - self.reported(),
            forall|j: int|
                0 <= j < out@.len() ==> (#[trigger] out@[j]).0 == self.reported() + j && out@[j].1
                    == self.slots()[self.reported() + j],
    {
        let BatchOrder { mut slots, cursor } = self;
        let ghost s0 = slots@;
        let total = slots.len();
        let mut out: Vec<(usize, Option<R>)> = Vec::new();
        let mut k = cursor;
        while k < total
            invariant
                cursor <= k <= total,
                total == slots@.len(),
                total == s0.len(),
                forall|m: int| k <= m < total ==> slots@[m] == s0[m],
                out@.len() == k - cursor,
                forall|j: int|
                    0 <= j < out@.len() ==> (#[trigger] out@[j]).0 == cursor + j && out@[j].1
                        == s0[cursor + j],
            decreases total - k,
        {
            let mut taken: Option<R> = None;
            slots.set_and_swap(k, &mut taken);
            out.push((k, taken));
            k = k + 1;
        }
        out
    }
}

/// How many jobs start at once: the limit, but at least one.
pub fn initial_in_flight(limit: usize) -> (r: usize)
    ensures
        r == if limit == 0 {
            1
        } else {
            limit
        },
{
    if limit == 0 {
        1
    } else {
        limit
    }
}

/// The progress line once `finished` of `total` jobs are done.
pub fn progress_message(finished: usize, total: usize) -> (r: String)
    ensures
        r@ == "Processing "@ + decimal(finished as nat) + seq!['/'] + decimal(total as nat)
            + "..."@,
{
    let mut s = owned("Processing ");
    push_decimal(&mut s, finished as u64);
    crate::text::push_char(&mut s, '/');
    push_decimal(&mut s, total as u64);
    s.append("...");
    s
}

/// The first progress line: a single job names itself, since "Processing
/// photo.jpg..." says more than "Processing 0/1...".
pub fn start_message(first_label: &str, total: usize) -> (r: String)
    ensures
        r@ == if total == 1 {
            "Processing "@ + first_label@ + "..."@
        } else {
            "Processing "@ + decimal(0) + seq!['/'] + decimal(total as nat) + "..."@
        },
{
    if total == 1 {
        owned("Processing ").concat(first_label).concat("...")
    } else {
        progress_message(0, total)
    }
}

/// A batch of `total` jobs after the jobs in `events` finished in that
/// order, each as (index, result): its slots, how many were reported, and
/// everything reported so far.
pub open spec fn run_model<R>(total: nat, events: Seq<(int, R)>) -> (Seq<Option<R>>, int, Seq<(int, R)>)
    decreases events.len(),
{
    if events.len() == 0 {
        (Seq::new(total, |k: int| None), 0, Seq::empty())
    } else {
        let prev = run_model(total, events.drop_last());
        let e = events.last();
        (
            delivered_slots(prev.0, prev.1, e.0, e.1),
            delivered_count(prev.0, prev.1, e.0, e.1),
            prev.2 + delivered_out(prev.0, prev.1, e.0, e.1),
        )
    }
}

/// The result job `k` finished with among `events`, if it finished.
pub open spec fn result_of<R>(events: Seq<(int, R)>, k: int) -> Option<R>
    decreases events.len(),
{
    if events.len() == 0 {
        None
    } else if events.last().0 == k {
        Some(events.last().1)
    } else {
        result_of(events.drop_last(), k)
    }
}

/// Every event names a job of the batch, and no job finishes twice.
pub open spec fn valid_events<R>(total: nat, events: Seq<(int, R)>) -> bool {
    &&& forall|t: int| 0 <= t < events.len() ==> 0 <= #[trigger] events[t].0 < total
    &&& forall|t: int, u: int|
        0 <= t < u < events.len() ==> #[trigger] events[t].0 != #[trigger] events[u].0
}

proof fn lemma_next_gap<R>(s: Seq<Option<R>>, c: int)
    requires
        0 <= c <= s.len(),
    ensures
        c <= next_gap(s, c) <= s.len(),
        forall|k: int| c <= k < next_gap(s, c) ==> (#[trigger] s[k]) is Some,
        next_gap(s, c) < s.len() ==> s[next_gap(s, c)] is None,
    decreases s.len() - c,
{
    if c < s.len() && s[c] is Some {
        lemma_next_gap(s, c + 1);
    }
}

proof fn lemma_result_of_absent<R>(events: Seq<(int, R)>, k: int)
    requires
        forall|t: int| 0 <= t < events.len() ==> (#[trigger] events[t]).0 != k,
    ensures
        result_of(events, k) is None,
    decreases events.len(),
{
    if events.len() > 0 {
        assert(events[events.len() - 1].0 != k);
        lemma_result_of_absent(events.drop_last(), k);
    }
}

proof fn lemma_run_invariant<R>(total: nat, events: Seq<(int, R)>)
    requires
        valid_events(total, events),
    ensures
        run_model(total, events).0.len() == total,
        0 <= run_model(total, events).1 <= total,
        run_model(total, events).2.len() == run_model(total, events).1,
        forall|k: int|
            0 <= k < run_model(total, events).1 ==> (#[trigger] run_model(total, events).0[k]) is None
                && result_of(events, k) is Some,
        forall|k: int|
            run_model(total, events).1 <= k < total ==> #[trigger] run_model(total, events).0[k]
                == result_of(events, k),
        forall|j: int|
            0 <= j < run_model(total, events).2.len() ==> (#[trigger] run_model(total, events).2[j]).0
                == j && result_of(events, j) == Some(run_model(total, events).2[j].1),
    decreases events.len(),
{
    if events.len() == 0 {
        assert forall|k: int| 0 <= k < total implies #[trigger] run_model(total, events).0[k]
            == result_of(events, k) by {}
    } else {
        let prev_events = events.drop_last();
        assert(valid_events(total, prev_events)) by {
            assert forall|t: int, u: int| 0 <= t < u < prev_events.len() implies #[trigger] prev_events[t].0
                != #[trigger] prev_events[u].0 by {
                assert(prev_events[t] == events[t]);
                assert(prev_events[u] == events[u]);
            }
            assert forall|t: int| 0 <= t < prev_events.len() implies 0 <= #[trigger] prev_events[t].0 < total by {
                assert(prev_events[t] == events[t]);
            }
        }
        lemma_run_invariant(total, prev_events);
        let prev = run_model(total, prev_events);
        let (s, c, out) = (prev.0, prev.1, prev.2);
        let e = events.last();
        let i = e.0;
        let r = e.1;
        assert(events[events.len() - 1] == e);
        assert forall|t: int| 0 <= t < prev_events.len() implies (#[trigger] prev_events[t]).0 != i by {
            assert(prev_events[t] == events[t]);
        }
        lemma_result_of_absent(prev_events, i);
        assert(0 <= i < total);
        assert(c <= i) by {
            if i < c {
                assert(s[i] is None);
                assert(result_of(prev_events, i) is Some);
            }
        }
        let s1 = s.update(i, Some(r));
        lemma_next_gap(s1, c);
        let c1 = next_gap(s1, c);
        assert forall|k: int| 0 <= k < total && k != i implies result_of(events, k) == result_of(prev_events, k) by {}
        assert(result_of(events, i) == Some(r));
        assert forall|k: int| c <= k < total implies #[trigger] s1[k] == result_of(events, k) by {
            if k != i {
                assert(s[k] == result_of(prev_events, k));
            }
        }
        let st = run_model(total, events);
        assert(st.0 == cleared(s1, c, c1));
        assert(st.1 == c1);
        assert(st.2 == out + delivered_out(s, c, i, r));
        assert forall|k: int| 0 <= k < c1 implies (#[trigger] st.0[k]) is None && result_of(events, k) is Some by {
            if k < c {
                assert(s[k] is None);
                assert(k != i);
            } else {
                assert(s1[k] is Some);
            }
        }
        assert forall|k: int| c1 <= k < total implies #[trigger] st.0[k] == result_of(events, k) by {
            assert(s1[k] == result_of(events, k));
        }
        assert forall|j: int| 0 <= j < st.2.len() implies (#[trigger] st.2[j]).0 == j && result_of(events, j)
            == Some(st.2[j].1) by {
            if j < c {
                assert(st.2[j] == out[j]);
                assert(j != i);
            } else {
                assert(st.2[j] == delivered_out(s, c, i, r)[j - c]);
                assert(s1[j] is Some);
                assert(s1[j] == result_of(events, j));
            }
        }
    }
}

/// Delivering each job of a batch once, in any order, then finishing it,
/// reports every job exactly once and in submission order, each with the
/// result it finished with: [`BatchOrder::deliver`] hands back jobs
/// `0, 1, …` of the run, [`BatchOrder::finish`] the rest after them, and
/// each delivery in the run is one `deliver` accepts.
pub proof fn law_each_job_reported_once_in_order<R>(total: nat, events: Seq<(int, R)>)
    requires
        valid_events(total, events),
    ensures
        run_model(total, events).2.len() + finish_out(run_model(total, events).0, run_model(total, events).1).len()
            == total,
        forall|j: int|
            0 <= j < run_model(total, events).2.len() ==> (#[trigger] run_model(total, events).2[j]).0
                == j && result_of(events, j) == Some(run_model(total, events).2[j].1),
        forall|j: int|
            0 <= j < finish_out(run_model(total, events).0, run_model(total, events).1).len() ==> (
            #[trigger] finish_out(run_model(total, events).0, run_model(total, events).1)[j]).0
                == run_model(total, events).2.len() + j && finish_out(
                run_model(total, events).0,
                run_model(total, events).1,
            )[j].1 == result_of(events, run_model(total, events).2.len() + j),
        forall|t: int|
            0 <= t < events.len() ==> run_model(total, events.take(t)).1 <= (#[trigger] events[t]).0
                && run_model(total, events.take(t)).0[events[t].0] is None,
{
    lemma_run_invariant(total, events);
    assert forall|t: int| 0 <= t < events.len() implies run_model(total, events.take(t)).1
        <= (#[trigger] events[t]).0 && run_model(total, events.take(t)).0[events[t].0] is None by {
        let pre = events.take(t);
        assert(valid_events(total, pre)) by {
            assert forall|a: int, b: int| 0 <= a < b < pre.len() implies #[trigger] pre[a].0
                != #[trigger] pre[b].0 by {
                assert(pre[a] == events[a]);
                assert(pre[b] == events[b]);
            }
            assert forall|a: int| 0 <= a < pre.len() implies 0 <= #[trigger] pre[a].0 < total by {
                assert(pre[a] == events[a]);
            }
        }
        lemma_run_invariant(total, pre);
        let i = events[t].0;
        assert forall|a: int| 0 <= a < pre.len() implies (#[trigger] pre[a]).0 != i by {
            assert(pre[a] == events[a]);
        }
        lemma_result_of_absent(pre, i);
        if i < run_model(total, pre).1 {
            assert(run_model(total, pre).0[i] is None);
            assert(result_of(pre, i) is Some);
        }
    }
}

} // verus!
