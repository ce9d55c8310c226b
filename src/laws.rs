use vstd::prelude::*;
use crate::gate::{firings, reaches_target, run_stopped, successes};

verus! {

/// Number of completions that fire the stop signal, given for each the
/// counter value it read before its own increment.
pub open spec fn firings_of_reads(reads: Seq<nat>, target: nat) -> nat
    decreases reads.len(),
{
    if reads.len() == 0 {
        0
    } else {
        firings_of_reads(reads.drop_last(), target) + if reaches_target(reads.last(), target) {
            1nat
        } else {
            0nat
        }
    }
}

/// The stop signal fires exactly once: for a positive target, a history
/// with at least `target` successes holds one firing, and a history with
/// fewer holds none, whatever failures are mixed in.
pub proof fn lemma_stop_fires_exactly_once(h: Seq<bool>, target: nat)
    requires
        target >= 1,
    ensures
        firings(h, target) == if successes(h) >= target {
            1nat
        } else {
            0nat
        },
    decreases h.len(),
{
    if h.len() > 0 {
        lemma_stop_fires_exactly_once(h.drop_last(), target);
    }
}

/// Among completions that read pairwise distinct counter values, one fires
/// if the value just below the target was read, and none otherwise.
proof fn lemma_distinct_reads_fire_at_most_once(reads: Seq<nat>, target: nat)
    requires
        target >= 1,
        reads.no_duplicates(),
    ensures
        firings_of_reads(reads, target) == if reads.contains((target - 1) as nat) {
            1nat
        } else {
            0nat
        },
    decreases reads.len(),
{
    if reads.len() > 0 {
        let p = reads.drop_last();
        assert(p.no_duplicates()) by {
            assert forall|i: int, j: int| 0 <= i < p.len() && 0 <= j < p.len() && i != j implies p[i]
                != p[j] by {
                assert(p[i] == reads[i] && p[j] == reads[j]);
            }
        }
        lemma_distinct_reads_fire_at_most_once(p, target);
        let t = (target - 1) as nat;
        if reads.last() == t {
            assert(!p.contains(t)) by {
                if p.contains(t) {
                    let i = choose|i: int| 0 <= i < p.len() && p[i] == t;
                    assert(reads[i] == reads[reads.len() - 1]);
                }
            }
            assert(reads.contains(t)) by {
                assert(reads[reads.len() - 1] == t);
            }
        } else {
            assert(reads.contains(t) == p.contains(t)) by {
                if reads.contains(t) {
                    let i = choose|i: int| 0 <= i < reads.len() && reads[i] == t;
                    assert(i < p.len());
                    assert(p[i] == t);
                }
                if p.contains(t) {
                    let i = choose|i: int| 0 <= i < p.len() && p[i] == t;
                    assert(reads[i] == t);
                }
            }
        }
    }
}

/// The stop signal fires exactly once under concurrency: when atomic
/// increments hand `k` completions the distinct counter values `0 .. k`, in
/// whatever order they finish, exactly one fires if `k >= target >= 1`, and
/// none if `k < target`.
pub proof fn lemma_concurrent_stop_fires_exactly_once(reads: Seq<nat>, target: nat)
    requires
        target >= 1,
        reads.no_duplicates(),
        forall|v: nat| reads.contains(v) <==> v < reads.len(),
    ensures
        firings_of_reads(reads, target) == if reads.len() >= target {
            1nat
        } else {
            0nat
        },
{
    lemma_distinct_reads_fire_at_most_once(reads, target);
    assert(reads.contains((target - 1) as nat) <==> (target - 1) < reads.len());
}

/// The completion counter never decreases: over a longer prefix of a run it
/// is at least as large, and it grows by at most one per completion.
pub proof fn lemma_counter_monotonic(h: Seq<bool>, i: int, j: int)
    requires
        0 <= i <= j <= h.len(),
    ensures
        successes(h.take(i)) <= successes(h.take(j)),
        successes(h.take(j)) <= successes(h.take(i)) + (j - i),
    decreases j - i,
{
    if i < j {
        lemma_counter_monotonic(h, i, j - 1);
        assert(h.take(j).drop_last() == h.take(j - 1));
    }
}

/// The stop signal never fires early: for a positive target, a prefix of a
/// run holding fewer than `target` successes has not stopped.
pub proof fn lemma_no_premature_stop(h: Seq<bool>, target: nat, i: int)
    requires
        target >= 1,
        0 <= i <= h.len(),
        successes(h.take(i)) < target,
    ensures
        !run_stopped(h.take(i), target),
{
    lemma_stop_fires_exactly_once(h.take(i), target);
}

/// A failed handler invocation neither moves the counter nor fires the stop
/// signal.
pub proof fn lemma_failure_is_isolated(h: Seq<bool>, target: nat)
    ensures
        successes(h.push(false)) == successes(h),
        firings(h.push(false), target) == firings(h, target),
        run_stopped(h.push(false), target) == run_stopped(h, target),
{
    assert(h.push(false).drop_last() == h);
}

/// A zero target stops the run at once: it is stopped before any
/// completion, and no completion ever fires the signal.
pub proof fn lemma_zero_target_stops_at_once(h: Seq<bool>)
    ensures
        run_stopped(h, 0),
        firings(h, 0) == 0,
    decreases h.len(),
{
    if h.len() > 0 {
        lemma_zero_target_stops_at_once(h.drop_last());
    }
}

} // verus!
