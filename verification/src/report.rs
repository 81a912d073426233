//! Accounting for a cleaning run: what each project freed and what the run freed.
use vstd::prelude::*;

use crate::scan::{capped, lemma_sum_nonnegative, sum_of};

verus! {

/// How cleaning one project went, with the size of its artifacts before and after.
#[derive(Debug, Clone, Copy)]
pub struct CleanOutcome {
    pub succeeded: bool,
    pub size_before: u64,
    pub size_after: u64,
}

/// The totals of a cleaning run.
#[derive(Debug, Clone, Copy)]
pub struct CleanSummary {
    /// The number of projects whose cleaning succeeded.
    pub cleaned: u32,
    /// The size of the artifacts before the run.
    pub total_before: u64,
    /// The size of the artifacts after the run.
    pub total_after: u64,
    /// The space that the run freed.
    pub freed: u64,
}

/// `a - b`, or 0 when `b` exceeds `a`.
pub open spec fn sat_sub(a: u64, b: u64) -> u64 {
    if a >= b {
        (a - b) as u64
    } else {
        0
    }
}

/// The space freed in a project whose artifacts shrank from `size_before` to `size_after`.
pub fn freed_bytes(size_before: u64, size_after: u64) -> (r: u64)
    ensures
        r == sat_sub(size_before, size_after),
{
    size_before.saturating_sub(size_after)
}

impl CleanOutcome {
    /// A project that was cleaned; its artifacts then measured `size_after`.
    pub fn cleaned(size_before: u64, size_after: u64) -> (r: Self)
        ensures
            r.succeeded && r.size_before == size_before && r.size_after == size_after,
    {
        CleanOutcome { succeeded: true, size_before, size_after }
    }

    /// A project whose cleaning failed; it is not measured again and counts with no
    /// artifacts left.
    pub fn failed(size_before: u64) -> (r: Self)
        ensures
            !r.succeeded && r.size_before == size_before && r.size_after == 0,
    {
        CleanOutcome { succeeded: false, size_before, size_after: 0 }
    }
}

/// The number of succeeded outcomes in `s`.
pub open spec fn successes(s: Seq<CleanOutcome>) -> nat
    decreases s.len(),
{
    if s.len() == 0 {
        0
    } else {
        successes(s.drop_last()) + if s.last().succeeded {
            1nat
        } else {
            0nat
        }
    }
}

/// The sizes before cleaning.
pub open spec fn sizes_before(s: Seq<CleanOutcome>) -> Seq<u64> {
    s.map_values(|o: CleanOutcome| o.size_before)
}

/// The sizes after cleaning.
pub open spec fn sizes_after(s: Seq<CleanOutcome>) -> Seq<u64> {
    s.map_values(|o: CleanOutcome| o.size_after)
}

proof fn lemma_successes_bounded(s: Seq<CleanOutcome>)
    ensures
        successes(s) <= s.len(),
    decreases s.len(),
{
    if s.len() > 0 {
        lemma_successes_bounded(s.drop_last());
    }
}

/// The totals of a run with the given outcomes (a total that does not fit is `u64::MAX`).
pub fn summarize(outcomes: &[CleanOutcome]) -> (r: CleanSummary)
    requires
        outcomes@.len() <= u32::MAX,
    ensures
        r.cleaned == successes(outcomes@),
        r.total_before == capped(sum_of(sizes_before(outcomes@))),
        r.total_after == capped(sum_of(sizes_after(outcomes@))),
        r.freed == sat_sub(r.total_before, r.total_after),
{
    let mut cleaned: u32 = 0;
    let mut before: u64 = 0;
    let mut after: u64 = 0;
    let mut i: usize = 0;
    while i < outcomes.len()
        invariant
            i <= outcomes@.len() <= u32::MAX,
            cleaned == successes(outcomes@.subrange(0, i as int)),
            before == capped(sum_of(sizes_before(outcomes@.subrange(0, i as int)))),
            after == capped(sum_of(sizes_after(outcomes@.subrange(0, i as int)))),
        decreases outcomes@.len() - i,
    {
        let ghost prefix = outcomes@.subrange(0, i as int);
        let ghost next = outcomes@.subrange(0, i + 1);
        proof {
            assert(next.drop_last() =~= prefix);
            assert(sizes_before(next).drop_last() =~= sizes_before(prefix));
            assert(sizes_after(next).drop_last() =~= sizes_after(prefix));
            lemma_sum_nonnegative(sizes_before(prefix));
            lemma_sum_nonnegative(sizes_after(prefix));
            lemma_successes_bounded(prefix);
        }
        let o = outcomes[i];
        if o.succeeded {
            cleaned = cleaned + 1;
        }
        before = before.saturating_add(o.size_before);
        after = after.saturating_add(o.size_after);
        i = i + 1;
    }
    proof {
        assert(outcomes@.subrange(0, outcomes@.len() as int) =~= outcomes@);
    }
    CleanSummary {
        cleaned,
        total_before: before,
        total_after: after,
        freed: before.saturating_sub(after),
    }
}

} // verus!
