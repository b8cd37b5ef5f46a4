//! Bounded concurrency scheduler: hands out items in order, holds the number
//! in flight under the configured limit, and collects exactly one outcome
//! per item, in whatever order the fetches end.

use vstd::prelude::*;

use crate::outcome::Outcome;

verus! {

/// How many slots of the table are filled.
pub open spec fn count_some(s: Seq<Option<Outcome>>) -> nat
    decreases s.len(),
{
    if s.len() == 0 {
        0
    } else {
        count_some(s.drop_last()) + if s.last() is Some {
            1nat
        } else {
            0nat
        }
    }
}

/// Filling an empty slot raises the count by exactly one.
pub proof fn lemma_count_some_fill(s: Seq<Option<Outcome>>, i: int, o: Outcome)
    requires
        0 <= i < s.len(),
        s[i] is None,
    ensures
        count_some(s.update(i, Some(o))) == count_some(s) + 1,
    decreases s.len(),
{
    let t = s.update(i, Some(o));
    if i == s.len() - 1 {
        assert(t.drop_last() =~= s.drop_last());
    } else {
        assert(t.drop_last() =~= s.drop_last().update(i, Some(o)));
        lemma_count_some_fill(s.drop_last(), i, o);
    }
}

/// Appending an empty slot leaves the count unchanged.
pub proof fn lemma_count_some_push_none(s: Seq<Option<Outcome>>)
    ensures
        count_some(s.push(None)) == count_some(s),
{
    assert(s.push(None).drop_last() =~= s);
}

/// The count never exceeds the table's length.
pub proof fn lemma_count_some_le_len(s: Seq<Option<Outcome>>)
    ensures
        count_some(s) <= s.len(),
    decreases s.len(),
{
    if s.len() > 0 {
        lemma_count_some_le_len(s.drop_last());
    }
}

/// While an empty slot remains, the count stays under the length.
pub proof fn lemma_count_some_lt_len(s: Seq<Option<Outcome>>, i: int)
    requires
        0 <= i < s.len(),
        s[i] is None,
    ensures
        count_some(s) < s.len(),
    decreases s.len(),
{
    if i == s.len() - 1 {
        lemma_count_some_le_len(s.drop_last());
    } else {
        lemma_count_some_lt_len(s.drop_last(), i);
    }
}

/// Slots past `k` being empty, the count is decided by the first `k` slots.
pub proof fn lemma_count_some_none_suffix(s: Seq<Option<Outcome>>, k: int)
    requires
        0 <= k <= s.len(),
        forall|i: int| k <= i < s.len() ==> s[i] is None,
    ensures
        count_some(s) == count_some(s.take(k)),
    decreases s.len(),
{
    if s.len() == k {
        assert(s.take(k) =~= s);
    } else {
        assert(s.drop_last().take(k) =~= s.take(k));
        lemma_count_some_none_suffix(s.drop_last(), k);
    }
}

/// A full count means every slot is filled.
pub proof fn lemma_count_some_full(s: Seq<Option<Outcome>>)
    requires
        count_some(s) == s.len(),
    ensures
        forall|i: int| 0 <= i < s.len() ==> s[i] is Some,
    decreases s.len(),
{
    if s.len() > 0 {
        lemma_count_some_le_len(s.drop_last());
        lemma_count_some_full(s.drop_last());
        assert forall|i: int| 0 <= i < s.len() implies s[i] is Some by {
            if i < s.len() - 1 {
                assert(s.drop_last()[i] is Some);
            }
        }
    }
}

/// The scheduler's book: which items were started, and the outcome table,
/// one slot per item, filled exactly once as each fetch ends.
pub struct Scheduler {
    /// The concurrency limit: the ceiling on fetches in flight at once.
    pub limit: usize,
    /// Items `0..started` were handed out; items start in input order.
    pub started: usize,
    /// How many outcomes came back.
    pub done: usize,
    /// One slot per item; `Some` once that item's outcome came back.
    pub outcomes: Vec<Option<Outcome>>,
}

impl Scheduler {
    /// The book is consistent: the limit is positive, starts and completions
    /// stay within range, the completion count matches the table, only
    /// started items have outcomes, and the number in flight never exceeds
    /// the limit.
    pub open spec fn wf(self) -> bool {
        &&& self.limit >= 1
        &&& self.started <= self.outcomes@.len()
        &&& self.done == count_some(self.outcomes@)
        &&& self.done <= self.started
        &&& self.started - self.done <= self.limit
        &&& forall|i: int|
            self.started <= i < self.outcomes@.len() ==> self.outcomes@[i] is None
    }

    /// The number of items handed out and not yet ended.
    pub open spec fn in_flight(self) -> int {
        self.started - self.done
    }

    /// The total number of items of the batch.
    pub open spec fn total(self) -> int {
        self.outcomes@.len() as int
    }

    /// A fresh book over `total` items with the given concurrency limit.
    pub fn new(total: usize, limit: usize) -> (s: Scheduler)
        requires
            limit >= 1,
        ensures
            s.wf(),
            s.total() == total,
            s.limit == limit,
            s.started == 0,
            s.done == 0,
            forall|i: int| 0 <= i < total ==> s.outcomes@[i] is None,
    {
        let mut outcomes: Vec<Option<Outcome>> = Vec::new();
        let mut k: usize = 0;
        while k < total
            invariant
                k <= total,
                outcomes@.len() == k,
                count_some(outcomes@) == 0,
                forall|i: int| 0 <= i < k ==> outcomes@[i] is None,
            decreases total - k,
        {
            proof {
                lemma_count_some_push_none(outcomes@);
            }
            outcomes.push(None);
            k = k + 1;
        }
        Scheduler { limit, started: 0, done: 0, outcomes }
    }

    /// Whether another item may begin now: items remain and a slot under the
    /// limit is free.
    pub fn can_start(&self) -> (b: bool)
        requires
            self.wf(),
        ensures
            b == (self.started < self.total() && self.in_flight() < self.limit),
    {
        self.started < self.outcomes.len() && self.started - self.done < self.limit
    }

    /// Hands out the next item. At most `limit` items are ever in flight:
    /// the caller may only start under a free slot.
    pub fn start(&mut self) -> (item: usize)
        requires
            old(self).wf(),
            old(self).started < old(self).total(),
            old(self).in_flight() < old(self).limit,
        ensures
            final(self).wf(),
            item == old(self).started,
            final(self).started == old(self).started + 1,
            final(self).done == old(self).done,
            final(self).limit == old(self).limit,
            final(self).outcomes@ == old(self).outcomes@,
    {
        let n = self.outcomes.len();
        assert(self.started < n);
        let item = self.started;
        self.started = self.started + 1;
        item
    }

    /// Records the outcome of a started item, exactly once: a slot already
    /// filled cannot be filled again, so no item is dropped or counted
    /// twice.
    pub fn complete(&mut self, item: usize, outcome: Outcome)
        requires
            old(self).wf(),
            item < old(self).started,
            old(self).outcomes@[item as int] is None,
        ensures
            final(self).wf(),
            final(self).outcomes@ == old(self).outcomes@.update(item as int, Some(outcome)),
            final(self).started == old(self).started,
            final(self).done == old(self).done + 1,
            final(self).limit == old(self).limit,
            final(self).in_flight() == old(self).in_flight() - 1,
    {
        proof {
            lemma_count_some_none_suffix(self.outcomes@, old(self).started as int);
            lemma_count_some_lt_len(self.outcomes@.take(old(self).started as int), item as int);
            lemma_count_some_fill(self.outcomes@, item as int, outcome);
        }
        self.outcomes.set(item, Some(outcome));
        self.done = self.done + 1;
    }

    /// Whether every item has produced its outcome.
    pub fn all_done(&self) -> (b: bool)
        requires
            self.wf(),
        ensures
            b == (self.done == self.total()),
            b ==> forall|i: int| 0 <= i < self.total() ==> self.outcomes@[i] is Some,
    {
        proof {
            if self.done == self.outcomes@.len() {
                lemma_count_some_full(self.outcomes@);
            }
        }
        self.done == self.outcomes.len()
    }

    /// Gives back the filled table once every item has ended: exactly one
    /// outcome per item.
    pub fn into_outcomes(self) -> (r: Vec<Outcome>)
        requires
            self.wf(),
            self.done == self.total(),
        ensures
            r@.len() == self.total(),
            forall|i: int| 0 <= i < r@.len() ==> Some(r@[i]) == self.outcomes@[i],
    {
        proof {
            lemma_count_some_full(self.outcomes@);
        }
        let mut r: Vec<Outcome> = Vec::new();
        let mut k: usize = 0;
        while k < self.outcomes.len()
            invariant
                self.wf(),
                self.done == self.total(),
                k <= self.outcomes@.len(),
                r@.len() == k,
                forall|i: int| 0 <= i < self.outcomes@.len() ==> self.outcomes@[i] is Some,
                forall|i: int| 0 <= i < k ==> Some(r@[i]) == self.outcomes@[i],
            decreases self.outcomes@.len() - k,
        {
            let slot = self.outcomes[k];
            match slot {
                Some(o) => r.push(o),
                None => {
                    proof {
                        assert(self.outcomes@[k as int] is Some);
                    }
                    vstd::pervasive::unreached()
                },
            }
            k = k + 1;
        }
        r
    }
}

} // verus!
