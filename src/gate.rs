use vstd::prelude::*;

verus! {

/// Whether a completion that observed `pre` earlier completions is the one
/// that reaches `target`. A target of zero is met before any completion, so
/// no completion reaches it.
pub open spec fn reaches_target(pre: nat, target: nat) -> bool {
    target > 0 && pre + 1 == target
}

/// Decides whether the completion that saw the counter at `pre` (the value
/// before its own increment) must fire the stop signal.
pub fn is_final_completion(pre: usize, target: usize) -> (r: bool)
    ensures
        r == reaches_target(pre as nat, target as nat),
{
    target > 0 && pre == target - 1
}

/// Number of successful completions in a run's history of outcomes
/// (`true` for a handler that succeeded, `false` for one that failed).
pub open spec fn successes(h: Seq<bool>) -> nat
    decreases h.len(),
{
    if h.len() == 0 {
        0
    } else {
        successes(h.drop_last()) + if h.last() {
            1nat
        } else {
            0nat
        }
    }
}

/// Number of completions in the history that fired the stop signal: a
/// success fires it when the successes before it bring the count to the
/// target.
pub open spec fn firings(h: Seq<bool>, target: nat) -> nat
    decreases h.len(),
{
    if h.len() == 0 {
        0
    } else {
        firings(h.drop_last(), target) + if h.last() && reaches_target(
            successes(h.drop_last()),
            target,
        ) {
            1nat
        } else {
            0nat
        }
    }
}

/// Whether a run with this history is over: a zero target needs no
/// completion, any other target is met once the stop signal has fired.
pub open spec fn run_stopped(h: Seq<bool>, target: nat) -> bool {
    target == 0 || firings(h, target) > 0
}

/// The completion gate of one run, driven by one completion at a time.
///
/// It holds the completion counter, the target count and whether the stop
/// signal has fired; its ghost history records every outcome it was given.
pub struct CompletionGate {
    completed: usize,
    target: usize,
    fired: bool,
    history: Ghost<Seq<bool>>,
}

impl CompletionGate {
    /// The outcomes recorded so far, oldest first.
    pub closed spec fn history(&self) -> Seq<bool> {
        self.history@
    }

    /// The target count of this run.
    pub closed spec fn target(&self) -> nat {
        self.target as nat
    }

    #[verifier::type_invariant]
    spec fn inv(&self) -> bool {
        &&& self.completed == successes(self.history@)
        &&& self.fired == (firings(self.history@, self.target as nat) > 0)
    }

    /// A fresh gate: counter at zero, no outcome recorded.
    pub fn new(target: usize) -> (g: Self)
        ensures
            g.history() == Seq::<bool>::empty(),
            g.target() == target,
    {
        CompletionGate { completed: 0, target, fired: false, history: Ghost(Seq::empty()) }
    }

    /// The target count.
    pub fn target_count(&self) -> (r: usize)
        ensures
            r == self.target(),
    {
        self.target
    }

    /// The completion counter: the number of successes recorded.
    pub fn completed(&self) -> (r: usize)
        ensures
            r == successes(self.history()),
    {
        proof {
            use_type_invariant(self);
        }
        self.completed
    }

    /// Whether the run is over (the target is zero, or the stop signal fired).
    pub fn is_stopped(&self) -> (r: bool)
        ensures
            r == run_stopped(self.history(), self.target()),
    {
        proof {
            use_type_invariant(self);
        }
        self.target == 0 || self.fired
    }

    /// Records the outcome of one handler invocation. A success increments
    /// the counter; a failure leaves counter and signal as they were. Returns
    /// whether this completion fires the stop signal.
    pub fn record(&mut self, succeeded: bool) -> (fire: bool)
        requires
            successes(old(self).history()) < usize::MAX,
        ensures
            final(self).history() == old(self).history().push(succeeded),
            final(self).target() == old(self).target(),
            fire == (succeeded && reaches_target(
                successes(old(self).history()),
                old(self).target(),
            )),
    {
        proof {
            use_type_invariant(&*self);
        }
        let ghost h = self.history@;
        let ghost nh = h.push(succeeded);
        assert(nh.drop_last() == h);
        let pre = self.completed;
        let fire = succeeded && is_final_completion(pre, self.target);
        let completed = if succeeded {
            pre + 1
        } else {
            pre
        };
        *self = CompletionGate {
            completed,
            target: self.target,
            fired: self.fired || fire,
            history: Ghost(nh),
        };
        fire
    }
}

} // verus!
