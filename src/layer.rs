use vstd::prelude::*;
use std::sync::atomic::{AtomicUsize, Ordering};
use std::sync::Arc;
use apalis_core::error::WorkerError;
use apalis_core::worker::context::WorkerContext;
use crate::gate::{is_final_completion, reaches_target};

verus! {

/// apalis's handle on a running worker, opaque here.
#[verifier::external_type_specification]
#[verifier::external_body]
pub struct ExWorkerContext(WorkerContext);

/// apalis's error for a worker state change, opaque here.
#[verifier::external_type_specification]
#[verifier::external_body]
pub struct ExWorkerError(WorkerError);

/// Relies on WorkerContext's derived `Clone`: every field is an `Arc` or a
/// plain value, so the copy is a handle on the same worker.
pub assume_specification[ <WorkerContext as Clone>::clone ](w: &WorkerContext) -> WorkerContext;

/// Relies on `WorkerContext::stop`, which asks the worker to shut down; it
/// returns an error when the worker has not been started.
pub assume_specification[ WorkerContext::stop ](w: &WorkerContext) -> Result<(), WorkerError>;

/// What one handler completion did to the run's counter and worker.
#[derive(Debug, Clone, Copy, PartialEq, Eq, Structural)]
pub enum Completion {
    /// The handler failed: the counter was not touched and no stop was asked.
    Failed,
    /// A success that read `pre` from the counter and did not reach the target.
    Counted { pre: usize },
    /// The success that reached the target: it read `pre` from the counter
    /// and asked the worker to stop; `stopped` tells whether the worker
    /// accepted the request.
    Reached { pre: usize, stopped: bool },
}

/// Whether a completion result follows the counting rule for `succeeded`
/// and `target`.
pub open spec fn completion_follows_rule(c: Completion, succeeded: bool, target: nat) -> bool {
    match c {
        Completion::Failed => !succeeded,
        Completion::Counted { pre } => succeeded && !reaches_target(pre as nat, target),
        Completion::Reached { pre, stopped: _ } => succeeded && reaches_target(pre as nat, target),
    }
}

/// The counting middleware of one run: every service it wraps shares one
/// completion counter, one target count and one worker to stop.
pub struct BenchLayer {
    counter: Arc<AtomicUsize>,
    task_count: usize,
    worker: WorkerContext,
}

impl BenchLayer {
    /// The target count of the run.
    pub closed spec fn target(&self) -> nat {
        self.task_count as nat
    }

    /// A layer for a fresh run: a new counter at zero, the target count, and
    /// the worker that the final completion stops.
    pub fn new(task_count: usize, worker: WorkerContext) -> (r: Self)
        ensures
            r.target() == task_count,
    {
        BenchLayer { counter: Arc::new(AtomicUsize::new(0)), task_count, worker }
    }

    /// Another handle on the same run: same counter, target and worker.
    pub fn share(&self) -> (r: Self)
        ensures
            r.target() == self.target(),
    {
        BenchLayer {
            counter: Arc::clone(&self.counter),
            task_count: self.task_count,
            worker: self.worker.clone(),
        }
    }

    /// The target count of the run.
    pub fn task_count(&self) -> (r: usize)
        ensures
            r == self.target(),
    {
        self.task_count
    }

    /// Whether the run is over before any completion, which holds exactly
    /// for a zero target.
    pub fn stops_at_once(&self) -> (r: bool)
        ensures
            r == (self.target() == 0),
    {
        self.task_count == 0
    }

    /// Wraps `service` in the counting middleware of this run.
    pub fn layer<S>(&self, service: S) -> (r: BenchService<S>)
        ensures
            r.target() == self.target(),
            r.inner() == service,
    {
        BenchService { gate: self.share(), service }
    }

    /// The number of successful completions counted so far by every handle
    /// of the run. Other completions may be counted at the same time, so the
    /// value may be stale as soon as it is read.
    pub fn completed(&self) -> usize {
        self.counter.load(Ordering::SeqCst)
    }

    /// Records the end of one handler invocation. A failure leaves the
    /// counter alone. A success takes the next counter value atomically; the
    /// one that reads `target - 1` asks the worker to stop. A zero target is
    /// never reached by a completion.
    pub fn record_completion(&self, succeeded: bool) -> (r: Completion)
        ensures
            completion_follows_rule(r, succeeded, self.target()),
    {
        if !succeeded {
            return Completion::Failed;
        }
        let pre = self.counter.fetch_add(1, Ordering::Acquire);
        if is_final_completion(pre, self.task_count) {
            let stopped = match self.worker.stop() {
                Ok(()) => true,
                Err(_) => false,
            };
            Completion::Reached { pre, stopped }
        } else {
            Completion::Counted { pre }
        }
    }
}

/// A handler wrapped in the counting middleware: each successful completion
/// increments the run's shared counter, and the one that reaches the target
/// stops the worker.
pub struct BenchService<S> {
    gate: BenchLayer,
    service: S,
}

impl<S> BenchService<S> {
    /// The target count of the run.
    pub closed spec fn target(&self) -> nat {
        self.gate.target()
    }

    /// The wrapped handler.
    pub closed spec fn inner(&self) -> S {
        self.service
    }

    /// The target count of the run.
    pub fn max_tasks(&self) -> (r: usize)
        ensures
            r == self.target(),
    {
        self.gate.task_count()
    }

    /// A handle on the run's counter, target and worker, for recording a
    /// completion that ends after the handler call has returned.
    pub fn gate(&self) -> (r: BenchLayer)
        ensures
            r.target() == self.target(),
    {
        self.gate.share()
    }

    /// The wrapped handler, to be called by the worker.
    pub fn inner_mut(&mut self) -> (r: &mut S)
        ensures
            *r == old(self).inner(),
            final(self).inner() == *final(r),
            final(self).target() == old(self).target(),
    {
        &mut self.service
    }

    /// The number of successful completions counted so far in the run.
    pub fn completed(&self) -> usize {
        self.gate.completed()
    }

    /// Records the end of one invocation of the wrapped handler, as
    /// [`BenchLayer::record_completion`] does.
    pub fn record_completion(&self, succeeded: bool) -> (r: Completion)
        ensures
            completion_follows_rule(r, succeeded, self.target()),
    {
        self.gate.record_completion(succeeded)
    }
}

} // verus!
