//! Result reporter: tallies a finished batch and lists every failure with
//! its cause. A read-only pass: it looks at outcomes and nothing else.

use vstd::prelude::*;
use vstd::string::StringExecFns;

use crate::naming::{dec_spec, dec_str};
use crate::outcome::{ErrorKind, Outcome};

verus! {

/// How many outcomes of the table count as satisfied: fetched now or
/// already on disk.
pub open spec fn count_ok(s: Seq<Outcome>) -> nat
    decreases s.len(),
{
    if s.len() == 0 {
        0
    } else {
        count_ok(s.drop_last()) + if s.last() is Failed {
            0nat
        } else {
            1nat
        }
    }
}

/// The failures of the table, in item order: each item's index with its
/// cause.
pub open spec fn failures_spec(s: Seq<Outcome>) -> Seq<(usize, ErrorKind)>
    decreases s.len(),
{
    if s.len() == 0 {
        Seq::empty()
    } else {
        failures_spec(s.drop_last()) + match s.last() {
            Outcome::Failed(cause) => seq![(((s.len() - 1) as usize), cause)],
            _ => Seq::empty(),
        }
    }
}

/// The final tally of a run.
#[derive(Clone, Copy, Debug, PartialEq, Eq, Structural)]
pub struct Tally {
    /// Outcomes that count as satisfied: `Succeeded` or `Skipped`.
    pub completed: usize,
    /// The item count of the batch.
    pub total: usize,
}

/// Counts the satisfied outcomes of a finished batch against its total.
pub fn tally(outcomes: &Vec<Outcome>) -> (t: Tally)
    ensures
        t.total == outcomes@.len(),
        t.completed == count_ok(outcomes@),
{
    let mut completed: usize = 0;
    let mut i: usize = 0;
    while i < outcomes.len()
        invariant
            i <= outcomes@.len(),
            completed == count_ok(outcomes@.take(i as int)),
            completed <= i,
        decreases outcomes@.len() - i,
    {
        let is_ok = match outcomes[i] {
            Outcome::Failed(_) => false,
            _ => true,
        };
        proof {
            assert(outcomes@.take(i + 1).drop_last() =~= outcomes@.take(i as int));
            assert(outcomes@.take(i + 1).last() == outcomes@[i as int]);
        }
        if is_ok {
            completed = completed + 1;
        }
        i = i + 1;
    }
    proof {
        assert(outcomes@.take(outcomes@.len() as int) =~= outcomes@);
    }
    Tally { completed, total: outcomes.len() }
}

/// Lists every failure of a finished batch, in item order, each with its
/// index and cause.
pub fn failures(outcomes: &Vec<Outcome>) -> (r: Vec<(usize, ErrorKind)>)
    ensures
        r@ == failures_spec(outcomes@),
{
    let mut r: Vec<(usize, ErrorKind)> = Vec::new();
    let mut i: usize = 0;
    while i < outcomes.len()
        invariant
            i <= outcomes@.len(),
            r@ == failures_spec(outcomes@.take(i as int)),
        decreases outcomes@.len() - i,
    {
        proof {
            assert(outcomes@.take(i + 1).drop_last() =~= outcomes@.take(i as int));
            assert(outcomes@.take(i + 1).last() == outcomes@[i as int]);
        }
        match outcomes[i] {
            Outcome::Failed(cause) => {
                r.push((i, cause));
                proof {
                    assert(r@ =~= failures_spec(outcomes@.take(i + 1)));
                }
            },
            _ => {
                proof {
                    assert(r@ =~= failures_spec(outcomes@.take(i + 1)));
                }
            },
        }
        i = i + 1;
    }
    proof {
        assert(outcomes@.take(outcomes@.len() as int) =~= outcomes@);
    }
    r
}

/// The summary line's ratio, `completed/total` in decimal.
pub fn format_ratio(completed: u64, total: u64) -> (r: String)
    ensures
        r@ == dec_spec(completed as nat) + "/"@ + dec_spec(total as nat),
{
    let mut s = dec_str(completed);
    s.append("/");
    let t = dec_str(total);
    s.append(t.as_str());
    s
}

} // verus!
