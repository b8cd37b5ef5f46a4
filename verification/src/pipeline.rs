//! Batch replay: the whole pipeline over recorded events.
//!
//! Each item's fetch is replayed through its [`FetchMachine`], and the
//! outcomes are collected through the [`Scheduler`] under a concurrency
//! limit. The outcome of every item is a function of that item's own URL
//! and events alone, so the collected table — and with it the outcome set —
//! is the same under every limit.

use vstd::prelude::*;

use crate::fetch::{lemma_run_snoc, run_spec, url_parse_ok, FetchEvent, FetchMachine};
use crate::outcome::Outcome;
use crate::sched::Scheduler;

verus! {

/// The outcome each item of a batch ends with: a function of that item's
/// own URL and events alone. The concurrency limit does not enter it.
pub open spec fn batch_outcomes_spec(urls: Seq<String>, traces: Seq<Vec<FetchEvent>>) -> Seq<
    Option<Outcome>,
> {
    Seq::new(
        traces.len(),
        |i: int|
            run_spec(FetchMachine::init_spec(), traces[i]@, url_parse_ok(urls[i]@)).outcome,
    )
}

/// Replays one item's fetch over its recorded events, in order.
pub fn run_trace(url: &str, events: &Vec<FetchEvent>) -> (m: FetchMachine)
    ensures
        m == run_spec(FetchMachine::init_spec(), events@, url_parse_ok(url@)),
{
    let mut m = FetchMachine::new();
    let mut i: usize = 0;
    while i < events.len()
        invariant
            i <= events@.len(),
            m == run_spec(FetchMachine::init_spec(), events@.take(i as int), url_parse_ok(url@)),
        decreases events@.len() - i,
    {
        let e = events[i];
        let _started = m.step(&e, url);
        proof {
            lemma_run_snoc(
                FetchMachine::init_spec(),
                events@.take(i as int),
                events@[i as int],
                url_parse_ok(url@),
            );
            assert(events@.take(i + 1) =~= events@.take(i as int).push(events@[i as int]));
        }
        i = i + 1;
    }
    proof {
        assert(events@.take(events@.len() as int) =~= events@);
    }
    m
}

/// Replays a whole batch under the given concurrency limit. Returns the
/// outcome table — one outcome per item, in item order — or `None` when some
/// item's events do not carry its fetch to the end. The table is fixed by
/// the items alone: the same for every limit.
pub fn run_batch(urls: &Vec<String>, traces: &Vec<Vec<FetchEvent>>, limit: usize) -> (r: Option<
    Vec<Outcome>,
>)
    requires
        limit >= 1,
        urls@.len() == traces@.len(),
    ensures
        r is Some <==> (forall|i: int|
            0 <= i < traces@.len() ==> batch_outcomes_spec(urls@, traces@)[i] is Some),
        r matches Some(v) ==> (v@.len() == traces@.len() && forall|i: int|
            0 <= i < traces@.len() ==> Some(v@[i]) == batch_outcomes_spec(urls@, traces@)[i]),
{
    let ghost batch = batch_outcomes_spec(urls@, traces@);
    let n = traces.len();
    proof {
        assert(batch.len() == n);
    }

    let mut results: Vec<Option<Outcome>> = Vec::new();
    let mut all_ended = true;
    let mut i: usize = 0;
    while i < n
        invariant
            i <= n,
            n == traces@.len(),
            urls@.len() == n,
            batch == batch_outcomes_spec(urls@, traces@),
            batch.len() == n,
            results@.len() == i,
            forall|j: int| 0 <= j < i ==> results@[j] == batch[j],
            all_ended == (forall|j: int| 0 <= j < i ==> results@[j] is Some),
        decreases n - i,
    {
        let m = run_trace(urls[i].as_str(), &traces[i]);
        let ended = m.outcome.is_some();
        let ghost prev = results@;
        results.push(m.outcome);
        proof {
            assert(results@ == prev.push(m.outcome));
            assert(forall|j: int| 0 <= j < i ==> results@[j] == prev[j]);
            assert(results@[i as int] == m.outcome);
        }
        all_ended = all_ended && ended;
        i = i + 1;
    }

    if !all_ended {
        proof {
            let j = choose|j: int| 0 <= j < n && !(results@[j] is Some);
            assert(results@[j] == batch[j]);
        }
        return None;
    }

    let mut sched = Scheduler::new(n, limit);
    let mut base: usize = 0;
    while base < n
        invariant
            base <= n,
            n == traces@.len(),
            urls@.len() == n,
            batch == batch_outcomes_spec(urls@, traces@),
            batch.len() == n,
            results@.len() == n,
            forall|j: int| 0 <= j < n ==> results@[j] == batch[j],
            forall|j: int| 0 <= j < n ==> results@[j] is Some,
            sched.wf(),
            sched.total() == n,
            sched.limit == limit,
            sched.started == base,
            sched.done == base,
            forall|j: int| 0 <= j < base ==> sched.outcomes@[j] == batch[j],
            forall|j: int| base <= j < n ==> sched.outcomes@[j] is None,
        decreases n - base,
    {
        let _first = sched.start();
        let mut wave: usize = 1;
        while wave < limit && base + wave < n
            invariant
                1 <= wave <= limit,
                base + wave <= n,
                n == traces@.len(),
                sched.wf(),
                sched.total() == n,
                sched.limit == limit,
                sched.started == base + wave,
                sched.done == base,
                forall|j: int| 0 <= j < base ==> sched.outcomes@[j] == batch[j],
                forall|j: int| base <= j < n ==> sched.outcomes@[j] is None,
            decreases limit - wave,
        {
            let _item = sched.start();
            wave = wave + 1;
        }
        let wave_len = wave;
        let mut j: usize = 0;
        while j < wave_len
            invariant
                j <= wave_len,
                base + wave_len <= n,
                n == traces@.len(),
                urls@.len() == n,
                batch == batch_outcomes_spec(urls@, traces@),
                batch.len() == n,
                results@.len() == n,
                forall|t: int| 0 <= t < n ==> results@[t] == batch[t],
                forall|t: int| 0 <= t < n ==> results@[t] is Some,
                sched.wf(),
                sched.total() == n,
                sched.limit == limit,
                sched.started == base + wave_len,
                sched.done == base + j,
                forall|t: int| 0 <= t < base + j ==> sched.outcomes@[t] == batch[t],
                forall|t: int| base + j <= t < n ==> sched.outcomes@[t] is None,
            decreases wave_len - j,
        {
            let item = base + j;
            let o = match results[item] {
                Some(o) => o,
                None => vstd::pervasive::unreached(),
            };
            sched.complete(item, o);
            j = j + 1;
        }
        base = base + wave_len;
    }

    let table = sched.into_outcomes();
    Some(table)
}

/// The concurrency limit plays no part in the collected outcomes: two
/// complete replays of the same batch — whatever their limits were — hold
/// the same outcome for every item, and so the same outcome multiset,
/// because each table equals the one fixed by the items' own URLs and
/// events.
pub proof fn lemma_limit_plays_no_part(
    urls: Seq<String>,
    traces: Seq<Vec<FetchEvent>>,
    a: Seq<Outcome>,
    b: Seq<Outcome>,
)
    requires
        a.len() == traces.len(),
        b.len() == traces.len(),
        forall|i: int| 0 <= i < traces.len() ==> Some(a[i]) == batch_outcomes_spec(urls, traces)[i],
        forall|i: int| 0 <= i < traces.len() ==> Some(b[i]) == batch_outcomes_spec(urls, traces)[i],
    ensures
        a == b,
        a.to_multiset() == b.to_multiset(),
{
    assert forall|i: int| 0 <= i < a.len() implies a[i] == b[i] by {
        assert(Some(a[i]) == batch_outcomes_spec(urls, traces)[i]);
        assert(Some(b[i]) == batch_outcomes_spec(urls, traces)[i]);
    }
    assert(a =~= b);
}

} // verus!
