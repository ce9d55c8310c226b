use vstd::prelude::*;

verus! {

/// The task payload of a benchmark: a marker that carries no data.
#[derive(Debug, Clone, Copy, PartialEq, Eq, Structural)]
pub struct TestJob;

/// The benchmark's task handler: it does nothing with its payload, so the
/// measurement sees only the cost of the queue and the worker.
pub fn empty_job(_job: TestJob) {
}

} // verus!
