//! A completion-gated benchmarking harness for task queues.
//!
//! The library counts successful task completions and asks the worker to stop
//! exactly once, when a target count is reached.

mod gate;
mod job;
mod laws;
mod layer;

pub use gate::{firings, is_final_completion, reaches_target, run_stopped, successes, CompletionGate};
pub use job::{empty_job, TestJob};
pub use laws::{
    firings_of_reads, lemma_concurrent_stop_fires_exactly_once, lemma_counter_monotonic,
    lemma_failure_is_isolated, lemma_no_premature_stop, lemma_stop_fires_exactly_once,
    lemma_zero_target_stops_at_once,
};
pub use layer::{completion_follows_rule, BenchLayer, BenchService, Completion};
